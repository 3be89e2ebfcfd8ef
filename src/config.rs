use vstd::prelude::*;
use crate::pages::{select_pages, selection, PageConfig};
use crate::paths::{input_path_of, opt_view, output_path_of, resolve_input, resolve_output};
use crate::plan::{cover_source, cover_source_of, source_view, CoverSource};

verus! {

/// The configuration document, as parsed.
pub struct Config {
    /// The default input PDF, relative to the project root unless absolute.
    pub file: Option<String>,
    /// The default output PDF, same rule; its name gets the generated suffix.
    pub output: Option<String>,
    /// A Markdown cover, relative to the configuration's own directory.
    pub append_first_page: Option<String>,
    /// The pages to extract, in order.
    pub pages: Vec<PageConfig>,
}

/// Values given on the command line, each taking precedence over the
/// configuration.
pub struct Overrides {
    pub input: Option<String>,
    pub output: Option<String>,
    pub markdown: Option<String>,
}

/// Everything a run needs, resolved from the configuration and overrides.
pub struct Resolved {
    pub input: String,
    pub output: String,
    pub cover: CoverSource,
    pub pages: Vec<u32>,
}

/// Resolves the input, output and cover paths and selects the pages.
pub fn resolve(config: Config, yaml: &str, overrides: Overrides) -> (r: Resolved)
    ensures
        r.input@ == input_path_of(opt_view(overrides.input), opt_view(config.file), yaml@),
        r.output@ == output_path_of(opt_view(overrides.output), opt_view(config.output), yaml@),
        source_view(r.cover) == cover_source_of(
            opt_view(overrides.markdown),
            opt_view(config.append_first_page),
            yaml@,
        ),
        r.pages@ == selection(config.pages@),
        r.pages@.no_duplicates(),
{
    let pages = select_pages(&config.pages);
    let input = resolve_input(overrides.input, config.file, yaml);
    let output = resolve_output(overrides.output, config.output, yaml);
    let cover = cover_source(overrides.markdown, config.append_first_page, yaml);
    Resolved { input, output, cover, pages }
}

} // verus!
