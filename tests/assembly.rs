use pdf_extractor::driver::{advance, failed, finished, Event, Stage};
use pdf_extractor::html::{cover_html, styled_page, HTML_HEAD, HTML_TAIL};
use pdf_extractor::plan::{
    assemble, choose_cover, concat_args, cover_source, extract_args, fragment_plan, render_args,
    Assembly, CoverSource, Fragment,
};

fn s(x: &str) -> String {
    String::from(x)
}

#[test]
fn cover_comes_before_extracted_pages() {
    assert_eq!(fragment_plan(true, &vec![3, 1]), vec![Fragment::Cover, Fragment::Extracted]);
    assert_eq!(fragment_plan(false, &vec![3]), vec![Fragment::Extracted]);
    assert_eq!(fragment_plan(true, &vec![]), vec![Fragment::Cover]);
    assert_eq!(fragment_plan(false, &vec![]), Vec::<Fragment>::new());
}

#[test]
fn missing_configured_cover_is_left_out() {
    let src = cover_source(None, Some(s("cover.md")), "proj/resources/config.yaml");
    assert!(choose_cover(&src, false).is_none());
    let plan = fragment_plan(false, &vec![1, 2]);
    assert_eq!(plan, vec![Fragment::Extracted]);
}

#[test]
fn existing_configured_cover_is_used() {
    let src = cover_source(None, Some(s("cover.md")), "proj/resources/config.yaml");
    assert_eq!(choose_cover(&src, true), Some(s("proj/resources/cover.md")));
}

#[test]
fn cover_override_is_used_unchecked() {
    let src = cover_source(Some(s("x/intro.md")), Some(s("cover.md")), "cfg/config.yaml");
    assert_eq!(choose_cover(&src, false), Some(s("x/intro.md")));
    assert!(choose_cover(&CoverSource::NoCover, true).is_none());
}

#[test]
fn single_fragment_is_copied() {
    match assemble(vec![s("/tmp/f/extracted.pdf")]) {
        Assembly::CopySingle(f) => assert_eq!(f, "/tmp/f/extracted.pdf"),
        _ => panic!("expected a copy"),
    }
}

#[test]
fn no_fragment_assembles_nothing() {
    assert!(matches!(assemble(Vec::new()), Assembly::Nothing));
}

#[test]
fn several_fragments_are_concatenated_in_order() {
    match assemble(vec![s("cover.pdf"), s("pages.pdf")]) {
        Assembly::Concatenate(fs) => {
            assert_eq!(concat_args(&fs, "out.pdf"), vec!["cover.pdf", "pages.pdf", "cat", "output", "out.pdf"]);
        }
        _ => panic!("expected a concatenation"),
    }
}

#[test]
fn extractor_arguments_list_pages_in_order() {
    assert_eq!(
        extract_args("in.pdf", &vec![3, 1, 10, 4294967295], "x.pdf"),
        vec!["in.pdf", "cat", "3", "1", "10", "4294967295", "output", "x.pdf"]
    );
    assert_eq!(extract_args("in.pdf", &vec![0], "x.pdf"), vec!["in.pdf", "cat", "0", "output", "x.pdf"]);
}

#[test]
fn renderer_arguments() {
    assert_eq!(render_args("a.html", "b.pdf"), vec!["../puppeteer_render.js", "a.html", "b.pdf"]);
}

#[test]
fn styled_page_wraps_body() {
    let page = styled_page("<p>x</p>");
    assert_eq!(page, format!("{}<p>x</p>{}", HTML_HEAD, HTML_TAIL));
    assert!(page.contains("<body><p>x</p></body>"));
}

#[test]
fn cover_html_renders_markdown_with_tables_and_strikethrough() {
    let page = cover_html("# Title\n\n~~old~~\n\n| a | b |\n|---|---|\n| 1 | 2 |\n");
    assert!(page.starts_with(HTML_HEAD));
    assert!(page.ends_with(HTML_TAIL));
    assert!(page.contains("<h1>Title</h1>"));
    assert!(page.contains("<del>old</del>"));
    assert!(page.contains("<table>"));
    assert!(!page.contains("# Title"));
}

#[test]
fn full_run_reaches_done() {
    let mut st = Stage::Start;
    for _ in 0..5 {
        assert!(!finished(st));
        st = advance(st, Event::Completed);
    }
    assert_eq!(st, Stage::Done);
    assert!(finished(st));
    assert!(!failed(st));
}

#[test]
fn missing_input_ends_without_failure() {
    let st = advance(Stage::Start, Event::Completed);
    let st = advance(st, Event::InputAbsent);
    assert_eq!(st, Stage::InputMissing);
    assert!(finished(st));
    assert!(!failed(st));
    assert_eq!(advance(st, Event::Completed), Stage::InputMissing);
}

#[test]
fn error_fails_the_run() {
    let st = advance(Stage::PagesSelected, Event::Error);
    assert_eq!(st, Stage::Failed);
    assert!(failed(st));
    assert_eq!(advance(st, Event::Completed), Stage::Failed);
    assert_eq!(advance(Stage::Start, Event::InputAbsent), Stage::Failed);
}
