use vstd::prelude::*;

verus! {

/// The Markdown extensions the cover is parsed with: tables and
/// strikethrough (pulldown-cmark's `ENABLE_TABLES | ENABLE_STRIKETHROUGH`).
pub const MARKDOWN_OPTIONS: u32 = (1 << 1) | (1 << 3);

/// The page markup and stylesheet before the rendered Markdown.
pub const HTML_HEAD: &'static str = r#"
        <html>
        <head>
            <style>
                body { font-family: Helvetica, Arial, sans-serif; margin: 2em; }
                h1, h2, h3, h4 { color: #2a4d7c; }
                table { border-collapse: collapse; width: 100%; margin-bottom: 1em; }
                th, td { border: 1px solid #888; padding: 0.5em; text-align: left; }
                th { background: #d5e4f3; }
                code { background: #eee; padding: 2px 4px; border-radius: 4px; }
                pre { background: #f4f4f4; padding: 1em; border-radius: 4px; }
                ul { margin: 1em 0; padding-left: 2em; }
                li { margin: 0.5em 0; }
            </style>
        </head>
        <body>"#;

/// The page markup after the rendered Markdown.
pub const HTML_TAIL: &'static str = r#"</body>
        </html>
        "#;

/// The HTML that pulldown-cmark renders from Markdown text with the given
/// option bits.
pub uninterp spec fn html_of(md: Seq<char>, options: u32) -> Seq<char>;

/// A rendered body placed in the styled page.
pub open spec fn styled_page_of(body: Seq<char>) -> Seq<char> {
    HTML_HEAD@ + body + HTML_TAIL@
}

/// Relies on `pulldown_cmark::Parser::new_ext` and `html::push_html`, which
/// renders the parsed events into a fresh string.
#[verifier::external_body]
fn markdown_html(md: &str, options: u32) -> (r: String)
    ensures
        r@ == html_of(md@, options),
{
    let parser = pulldown_cmark::Parser::new_ext(md, pulldown_cmark::Options::from_bits_truncate(options));
    let mut html = String::new();
    pulldown_cmark::html::push_html(&mut html, parser);
    html
}

/// Places a rendered body in the styled page given to the renderer.
pub fn styled_page(body: &str) -> (r: String)
    ensures
        r@ == styled_page_of(body@),
{
    let mut page = String::from_str(HTML_HEAD);
    page.append(body);
    page.append(HTML_TAIL);
    page
}

/// The styled HTML page of a Markdown cover.
pub fn cover_html(md: &str) -> (r: String)
    ensures
        r@ == styled_page_of(html_of(md@, MARKDOWN_OPTIONS)),
{
    let body = markdown_html(md, MARKDOWN_OPTIONS);
    styled_page(body.as_str())
}

} // verus!
