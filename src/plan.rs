use vstd::prelude::*;
use crate::paths::{config_dir, config_dir_of, joined};

verus! {

/// The program that renders a styled HTML page to PDF.
pub const RENDER_SCRIPT: &'static str = "../puppeteer_render.js";

/// The extractor's and concatenator's keyword before the page list.
pub const CAT: &'static str = "cat";

/// The extractor's and concatenator's keyword before the output path.
pub const OUTPUT: &'static str = "output";

/// Where the cover comes from, before any file is looked at.
pub enum CoverSource {
    /// A cover given on the command line, used as it stands.
    Override(String),
    /// The configured cover, resolved against the configuration's directory;
    /// used only if that file exists.
    Configured(String),
    /// No cover at all.
    NoCover,
}

/// A fragment of the output, in assembly order.
#[derive(PartialEq, Eq, Structural, Clone, Copy, Debug)]
pub enum Fragment {
    /// The rendered cover document.
    Cover,
    /// The pages extracted from the input.
    Extracted,
}

/// How the fragments become the output file.
pub enum Assembly {
    /// No fragment: nothing is written.
    Nothing,
    /// One fragment: copied byte for byte to the output path.
    CopySingle(String),
    /// Several fragments: concatenated, in order, by an external tool.
    Concatenate(Vec<String>),
}

/// The spec view of a cover source, by its resolved text.
pub open spec fn cover_source_of(
    cli: Option<Seq<char>>,
    configured: Option<Seq<char>>,
    yaml: Seq<char>,
) -> (Option<Seq<char>>, bool) {
    match cli {
        Some(m) => (Some(m), false),
        None => match configured {
            Some(f) => (Some(joined(config_dir_of(yaml), f)), true),
            None => (None, false),
        },
    }
}

/// The text and "only if it exists" flag of a cover source.
pub open spec fn source_view(src: CoverSource) -> (Option<Seq<char>>, bool) {
    match src {
        CoverSource::Override(m) => (Some(m@), false),
        CoverSource::Configured(p) => (Some(p@), true),
        CoverSource::NoCover => (None, false),
    }
}

/// The cover that is rendered, given whether a configured cover exists.
pub open spec fn chosen_cover(src: CoverSource, exists: bool) -> Option<Seq<char>> {
    match src {
        CoverSource::Override(m) => Some(m@),
        CoverSource::Configured(p) => if exists {
            Some(p@)
        } else {
            None
        },
        CoverSource::NoCover => None,
    }
}

/// The fragments in assembly order: the cover first, then the extracted pages.
pub open spec fn fragments_of(has_cover: bool, has_pages: bool) -> Seq<Fragment> {
    let c = if has_cover {
        seq![Fragment::Cover]
    } else {
        Seq::empty()
    };
    if has_pages {
        c.push(Fragment::Extracted)
    } else {
        c
    }
}

/// The text of each string in a list.
pub open spec fn texts(v: Seq<String>) -> Seq<Seq<char>> {
    v.map_values(|s: String| s@)
}

/// A page number as decimal digits.
pub open spec fn decimal(n: nat) -> Seq<char>
    decreases n,
{
    if n < 10 {
        seq![digit_char(n)]
    } else {
        decimal(n / 10).push(digit_char(n % 10))
    }
}

/// The character of a decimal digit.
pub open spec fn digit_char(d: nat) -> char {
    if d == 0 { '0' }
    else if d == 1 { '1' }
    else if d == 2 { '2' }
    else if d == 3 { '3' }
    else if d == 4 { '4' }
    else if d == 5 { '5' }
    else if d == 6 { '6' }
    else if d == 7 { '7' }
    else if d == 8 { '8' }
    else { '9' }
}

/// The extractor's arguments: input, `cat`, the pages in order, `output`,
/// the fragment path.
pub open spec fn extract_args_of(input: Seq<char>, pages: Seq<u32>, out: Seq<char>) -> Seq<Seq<char>> {
    seq![input, CAT@] + pages.map_values(|p: u32| decimal(p as nat)) + seq![OUTPUT@, out]
}

/// The concatenator's arguments: the fragments in order, `cat`, `output`,
/// the output path.
pub open spec fn concat_args_of(fragments: Seq<Seq<char>>, out: Seq<char>) -> Seq<Seq<char>> {
    fragments + seq![CAT@, OUTPUT@, out]
}

/// Relies on `u32::to_string`: integers display as their decimal digits.
#[verifier::external_body]
fn decimal_string(n: u32) -> (r: String)
    ensures
        r@ == decimal(n as nat),
{
    n.to_string()
}

/// Where the cover comes from: the override if given, else the configured
/// cover adjoined to the configuration's directory, else none.
pub fn cover_source(cli: Option<String>, configured: Option<String>, yaml: &str) -> (r: CoverSource)
    ensures
        source_view(r) == cover_source_of(
            crate::paths::opt_view(cli),
            crate::paths::opt_view(configured),
            yaml@,
        ),
{
    match cli {
        Some(m) => CoverSource::Override(m),
        None => match configured {
            Some(f) => {
                let dir = config_dir(yaml);
                CoverSource::Configured(crate::paths::path_join(dir.as_str(), f.as_str()))
            },
            None => CoverSource::NoCover,
        },
    }
}

/// The cover to render. An override is used unchecked; a configured cover is
/// silently left out when its file does not exist.
pub fn choose_cover(src: &CoverSource, exists: bool) -> (r: Option<String>)
    ensures
        crate::paths::opt_view(r) == chosen_cover(*src, exists),
{
    match src {
        CoverSource::Override(m) => Some(m.clone()),
        CoverSource::Configured(p) => if exists {
            Some(p.clone())
        } else {
            None
        },
        CoverSource::NoCover => None,
    }
}

/// The fragments to produce, in assembly order: the cover (if any) always
/// before the extracted pages (if any page is selected).
pub fn fragment_plan(has_cover: bool, pages: &Vec<u32>) -> (r: Vec<Fragment>)
    ensures
        r@ == fragments_of(has_cover, pages@.len() > 0),
        has_cover && pages@.len() > 0 ==> r@ == seq![Fragment::Cover, Fragment::Extracted],
{
    let mut r: Vec<Fragment> = Vec::new();
    if has_cover {
        r.push(Fragment::Cover);
    }
    if pages.len() > 0 {
        r.push(Fragment::Extracted);
    }
    assert(r@ =~= fragments_of(has_cover, pages@.len() > 0));
    r
}

/// The extractor's arguments for the given input, pages and fragment path.
pub fn extract_args(input: &str, pages: &Vec<u32>, out: &str) -> (r: Vec<String>)
    ensures
        texts(r@) == extract_args_of(input@, pages@, out@),
{
    let mut r: Vec<String> = Vec::new();
    r.push(String::from_str(input));
    r.push(String::from_str(CAT));
    let mut k: usize = 0;
    while k < pages.len()
        invariant
            k <= pages.len(),
            texts(r@) == seq![input@, CAT@] + pages@.subrange(0, k as int).map_values(
                |p: u32| decimal(p as nat),
            ),
        decreases pages.len() - k,
    {
        let d = decimal_string(pages[k]);
        let ghost before = r@;
        r.push(d);
        assert(texts(r@) =~= texts(before).push(decimal(pages@[k as int] as nat)));
        assert(pages@.subrange(0, k as int + 1) == pages@.subrange(0, k as int).push(pages@[k as int]));
        assert(texts(r@) =~= seq![input@, CAT@] + pages@.subrange(0, k as int + 1).map_values(
            |p: u32| decimal(p as nat),
        ));
        k = k + 1;
    }
    assert(pages@.subrange(0, pages.len() as int) == pages@);
    r.push(String::from_str(OUTPUT));
    r.push(String::from_str(out));
    assert(texts(r@) =~= extract_args_of(input@, pages@, out@));
    r
}

/// The concatenator's arguments for the given fragments and output path.
pub fn concat_args(fragments: &Vec<String>, out: &str) -> (r: Vec<String>)
    ensures
        texts(r@) == concat_args_of(texts(fragments@), out@),
{
    let mut r: Vec<String> = Vec::new();
    let mut k: usize = 0;
    while k < fragments.len()
        invariant
            k <= fragments.len(),
            texts(r@) == texts(fragments@).subrange(0, k as int),
        decreases fragments.len() - k,
    {
        let ghost before = r@;
        r.push(fragments[k].clone());
        assert(texts(r@) =~= texts(before).push(fragments@[k as int]@));
        assert(texts(r@) =~= texts(fragments@).subrange(0, k as int + 1));
        k = k + 1;
    }
    assert(texts(fragments@).subrange(0, fragments.len() as int) =~= texts(fragments@));
    r.push(String::from_str(CAT));
    r.push(String::from_str(OUTPUT));
    r.push(String::from_str(out));
    assert(texts(r@) =~= concat_args_of(texts(fragments@), out@));
    r
}

/// The renderer's arguments: its script, the HTML page, the PDF to write.
pub fn render_args(html: &str, pdf: &str) -> (r: Vec<String>)
    ensures
        texts(r@) == seq![RENDER_SCRIPT@, html@, pdf@],
{
    let mut r: Vec<String> = Vec::new();
    r.push(String::from_str(RENDER_SCRIPT));
    r.push(String::from_str(html));
    r.push(String::from_str(pdf));
    assert(texts(r@) =~= seq![RENDER_SCRIPT@, html@, pdf@]);
    r
}

/// How the produced fragments become the output: nothing for none, a copy for
/// exactly one, a concatenation in list order for several.
pub fn assemble(fragments: Vec<String>) -> (r: Assembly)
    ensures
        fragments@.len() == 0 ==> r is Nothing,
        fragments@.len() == 1 ==> r == Assembly::CopySingle(fragments@[0]),
        fragments@.len() > 1 ==> r == Assembly::Concatenate(fragments),
{
    if fragments.len() == 0 {
        Assembly::Nothing
    } else if fragments.len() == 1 {
        let mut f = fragments;
        let single = f.pop().unwrap();
        Assembly::CopySingle(single)
    } else {
        Assembly::Concatenate(fragments)
    }
}

} // verus!
