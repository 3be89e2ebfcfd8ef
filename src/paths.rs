use vstd::prelude::*;

verus! {

/// Appended to the stem of an output file name taken from the configuration,
/// so that generated output never overwrites a hand-authored original.
pub const OUTPUT_SUFFIX: &'static str = "_rust.pdf";

/// The directory used when a path has no parent.
pub const CURRENT_DIR: &'static str = ".";

/// What `Path::join` yields for `base` adjoined with `rel`.
pub uninterp spec fn joined(base: Seq<char>, rel: Seq<char>) -> Seq<char>;

/// What `Path::parent` yields for a path, as text.
pub uninterp spec fn parent_of(p: Seq<char>) -> Option<Seq<char>>;

/// What `Path::file_stem` yields for a path, as text.
pub uninterp spec fn stem_of(p: Seq<char>) -> Option<Seq<char>>;

/// A Unix path is absolute when it starts with the root `/`.
pub open spec fn is_absolute_path(p: Seq<char>) -> bool {
    p.len() > 0 && p[0] == '/'
}

/// `s` ends with `suffix`.
pub open spec fn ends_with(s: Seq<char>, suffix: Seq<char>) -> bool {
    suffix.len() <= s.len() && s.subrange(s.len() - suffix.len(), s.len() as int) == suffix
}

/// Relies on `Path::is_absolute`: on Unix a path is absolute exactly when it
/// begins with `/`.
#[verifier::external_body]
fn path_is_absolute(p: &str) -> (r: bool)
    ensures
        r == is_absolute_path(p@),
{
    std::path::Path::new(p).is_absolute()
}

/// Relies on `Path::join`: an absolute `rel` replaces `base`; otherwise `rel`
/// extends `base`, so the result always ends with `rel`.
#[verifier::external_body]
pub(crate) fn path_join(base: &str, rel: &str) -> (r: String)
    ensures
        r@ == joined(base@, rel@),
        is_absolute_path(rel@) ==> r@ == rel@,
        ends_with(r@, rel@),
{
    std::path::Path::new(base).join(rel).to_string_lossy().to_string()
}

/// Relies on `Path::parent`, read back as text.
#[verifier::external_body]
fn path_parent(p: &str) -> (r: Option<String>)
    ensures
        match r {
            Some(q) => parent_of(p@) == Some(q@),
            None => parent_of(p@) is None,
        },
{
    std::path::Path::new(p).parent().map(|q| q.to_string_lossy().to_string())
}

/// Relies on `Path::file_stem`, read back as text.
#[verifier::external_body]
fn path_file_stem(p: &str) -> (r: Option<String>)
    ensures
        match r {
            Some(q) => stem_of(p@) == Some(q@),
            None => stem_of(p@) is None,
        },
{
    std::path::Path::new(p).file_stem().map(|q| q.to_string_lossy().to_string())
}

/// The directory that holds the configuration document, or `.`.
pub open spec fn config_dir_of(yaml: Seq<char>) -> Seq<char> {
    match parent_of(yaml) {
        Some(d) => d,
        None => CURRENT_DIR@,
    }
}

/// The project root: the parent of the configuration document's directory,
/// or `.` where either parent is missing.
pub open spec fn project_root_of(yaml: Seq<char>) -> Seq<char> {
    match parent_of(yaml) {
        Some(d) => match parent_of(d) {
            Some(g) => g,
            None => CURRENT_DIR@,
        },
        None => CURRENT_DIR@,
    }
}

/// `f` if it is absolute, else `f` adjoined to `base`.
pub open spec fn resolved_against(base: Seq<char>, f: Seq<char>) -> Seq<char> {
    if is_absolute_path(f) {
        f
    } else {
        joined(base, f)
    }
}

/// The output file name with the generated-output suffix: the stem followed
/// by the suffix, in the same directory. A path without a stem is kept.
pub open spec fn suffixed_output(p: Seq<char>) -> Seq<char> {
    match stem_of(p) {
        Some(stem) => match parent_of(p) {
            Some(dir) => joined(dir, stem + OUTPUT_SUFFIX@),
            None => stem + OUTPUT_SUFFIX@,
        },
        None => p,
    }
}

/// The input path: the override, else the configured file resolved against
/// the project root, else empty.
pub open spec fn input_path_of(
    cli: Option<Seq<char>>,
    configured: Option<Seq<char>>,
    yaml: Seq<char>,
) -> Seq<char> {
    match cli {
        Some(c) => c,
        None => match configured {
            Some(f) => resolved_against(project_root_of(yaml), f),
            None => Seq::empty(),
        },
    }
}

/// The output path: the override verbatim, else the configured output
/// resolved against the project root and suffixed, else empty.
pub open spec fn output_path_of(
    cli: Option<Seq<char>>,
    configured: Option<Seq<char>>,
    yaml: Seq<char>,
) -> Seq<char> {
    match cli {
        Some(c) => c,
        None => match configured {
            Some(f) => suffixed_output(resolved_against(project_root_of(yaml), f)),
            None => Seq::empty(),
        },
    }
}

/// The view of an optional string.
pub open spec fn opt_view(o: Option<String>) -> Option<Seq<char>> {
    match o {
        Some(s) => Some(s@),
        None => None,
    }
}

/// The directory holding the configuration document, or `.`.
pub fn config_dir(yaml: &str) -> (r: String)
    ensures
        r@ == config_dir_of(yaml@),
{
    match path_parent(yaml) {
        Some(d) => d,
        None => String::from_str(CURRENT_DIR),
    }
}

/// The project root: the grandparent of the configuration document, or `.`.
pub fn project_root(yaml: &str) -> (r: String)
    ensures
        r@ == project_root_of(yaml@),
{
    match path_parent(yaml) {
        Some(d) => match path_parent(d.as_str()) {
            Some(g) => g,
            None => String::from_str(CURRENT_DIR),
        },
        None => String::from_str(CURRENT_DIR),
    }
}

/// `f` if it is absolute, else `f` adjoined to `base`.
pub fn resolve_against(base: &str, f: &str) -> (r: String)
    ensures
        r@ == resolved_against(base@, f@),
{
    if path_is_absolute(f) {
        String::from_str(f)
    } else {
        path_join(base, f)
    }
}

/// Renames a generated output file: `dir/report.pdf` becomes
/// `dir/report_rust.pdf`.
pub fn suffix_output(p: &str) -> (r: String)
    ensures
        r@ == suffixed_output(p@),
        stem_of(p@) is Some ==> ends_with(r@, stem_of(p@)->Some_0 + OUTPUT_SUFFIX@),
{
    match path_file_stem(p) {
        Some(stem) => {
            let mut name = stem;
            name.append(OUTPUT_SUFFIX);
            match path_parent(p) {
                Some(dir) => path_join(dir.as_str(), name.as_str()),
                None => {
                    assert(name@.subrange(0, name@.len() as int) == name@);
                    name
                },
            }
        },
        None => String::from_str(p),
    }
}

/// The input path: the override, else the configured file resolved against
/// the project root, else empty (which no file answers to).
pub fn resolve_input(cli: Option<String>, configured: Option<String>, yaml: &str) -> (r: String)
    ensures
        r@ == input_path_of(opt_view(cli), opt_view(configured), yaml@),
{
    match cli {
        Some(c) => c,
        None => match configured {
            Some(f) => {
                let root = project_root(yaml);
                resolve_against(root.as_str(), f.as_str())
            },
            None => String::new(),
        },
    }
}

/// The output path: the override verbatim, else the configured output
/// resolved against the project root and suffixed, else empty.
pub fn resolve_output(cli: Option<String>, configured: Option<String>, yaml: &str) -> (r: String)
    ensures
        r@ == output_path_of(opt_view(cli), opt_view(configured), yaml@),
        cli is Some ==> r@ == cli->Some_0@,
        ({
            let full = resolved_against(project_root_of(yaml@), configured->Some_0@);
            cli is None && configured is Some && stem_of(full) is Some ==> ends_with(
                r@,
                stem_of(full)->Some_0 + OUTPUT_SUFFIX@,
            )
        }),
{
    match cli {
        Some(c) => c,
        None => match configured {
            Some(f) => {
                let root = project_root(yaml);
                let full = resolve_against(root.as_str(), f.as_str());
                suffix_output(full.as_str())
            },
            None => String::new(),
        },
    }
}

} // verus!
