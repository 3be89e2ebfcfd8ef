use pdf_extractor::config::{resolve, Config, Overrides};
use pdf_extractor::pages::PageConfig;
use pdf_extractor::paths::{
    config_dir, project_root, resolve_against, resolve_input, resolve_output,
    suffix_output,
};

fn s(x: &str) -> String {
    String::from(x)
}

#[test]
fn project_root_is_grandparent_of_config() {
    assert_eq!(project_root("proj/resources/config.yaml"), "proj");
    assert_eq!(config_dir("proj/resources/config.yaml"), "proj/resources");
}

#[test]
fn project_root_falls_back_to_current_dir() {
    assert_eq!(project_root("config.yaml"), ".");
    assert_eq!(config_dir("/"), ".");
}

#[test]
fn relative_path_is_joined_absolute_kept() {
    assert_eq!(resolve_against("proj", "docs/in.pdf"), "proj/docs/in.pdf");
    assert_eq!(resolve_against("proj", "/abs/in.pdf"), "/abs/in.pdf");
    assert_eq!(resolve_against("proj/", "in.pdf"), "proj/in.pdf");
}

#[test]
fn input_precedence() {
    let yaml = "proj/resources/config.yaml";
    assert_eq!(resolve_input(Some(s("cli.pdf")), Some(s("in.pdf")), yaml), "cli.pdf");
    assert_eq!(resolve_input(None, Some(s("in.pdf")), yaml), "proj/in.pdf");
    assert_eq!(resolve_input(None, None, yaml), "");
}

#[test]
fn output_from_config_gets_suffix() {
    let yaml = "proj/resources/config.yaml";
    assert_eq!(resolve_output(None, Some(s("out/report.pdf")), yaml), "proj/out/report_rust.pdf");
    assert_eq!(resolve_output(None, Some(s("/tmp/report.pdf")), yaml), "/tmp/report_rust.pdf");
}

#[test]
fn output_override_is_verbatim() {
    let yaml = "proj/resources/config.yaml";
    assert_eq!(resolve_output(Some(s("my/out.pdf")), Some(s("report.pdf")), yaml), "my/out.pdf");
    assert_eq!(resolve_output(None, None, yaml), "");
}

#[test]
fn suffix_replaces_extension() {
    assert_eq!(suffix_output("report.pdf"), "report_rust.pdf");
    assert_eq!(suffix_output("a/b/report.final.pdf"), "a/b/report.final_rust.pdf");
    assert_eq!(suffix_output("/"), "/");
}

#[test]
fn resolve_whole_configuration() {
    let config = Config {
        file: Some(s("input.pdf")),
        output: Some(s("output.pdf")),
        append_first_page: Some(s("cover.md")),
        pages: vec![
            PageConfig { name: s("a"), page_index: Some(2), page: None, page_number: None },
            PageConfig { name: s("b"), page_index: None, page: Some(2), page_number: None },
            PageConfig { name: s("c"), page_index: None, page: Some(5), page_number: None },
        ],
    };
    let overrides = Overrides { input: None, output: None, markdown: None };
    let r = resolve(config, "proj/resources/config.yaml", overrides);
    assert_eq!(r.input, "proj/input.pdf");
    assert_eq!(r.output, "proj/output_rust.pdf");
    assert_eq!(r.pages, vec![2, 5]);
    match r.cover {
        pdf_extractor::plan::CoverSource::Configured(p) => assert_eq!(p, "proj/resources/cover.md"),
        _ => panic!("expected a configured cover"),
    }
}
