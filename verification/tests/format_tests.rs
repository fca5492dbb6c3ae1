use bugreport::collector::{EnvVar, EnvironmentVariables, SoftwareVersion};
use bugreport::format::{Format, Markdown, Plaintext};
use bugreport::report::{Code, Report, ReportEntry, ReportSection};
use bugreport::BugReport;

fn sample_tree() -> ReportEntry {
    ReportEntry::Concat(vec![
        ReportEntry::Code(Code {
            language: Some(String::from("bash")),
            code: String::from("echo hi"),
        }),
        ReportEntry::List(vec![
            ReportEntry::Text(String::from("first")),
            ReportEntry::Text(String::from("second")),
        ]),
        ReportEntry::Text(String::from("note")),
    ])
}

#[test]
fn rendering_twice_is_byte_identical() {
    let tree = sample_tree();
    let mut markdown = Markdown::default();
    let first = markdown.format_entry(&tree);
    let second = markdown.format_entry(&tree);
    assert_eq!(first, second);

    let mut plaintext = Plaintext::default();
    let first = plaintext.format_entry(&tree);
    let second = plaintext.format_entry(&tree);
    assert_eq!(first, second);
}

#[test]
fn markdown_renders_nested_entries() {
    let mut markdown = Markdown::default();
    assert_eq!(
        markdown.format_entry(&sample_tree()),
        "```bash\necho hi\n```\n- first\n- second\nnote\n"
    );
}

#[test]
fn plaintext_renders_nested_entries() {
    let mut plaintext = Plaintext::default();
    assert_eq!(
        plaintext.format_entry(&sample_tree()),
        "echo hi\n- first\n- second\nnote\n"
    );
}

#[test]
fn markdown_heading() {
    let mut markdown = Markdown::default();
    assert_eq!(markdown.format_section("Operating system"), "#### Operating system\n\n");
}

#[test]
fn plaintext_heading_is_centered_in_dashes() {
    let mut plaintext = Plaintext::default();
    assert_eq!(
        plaintext.format_section("Operating system"),
        "----------------Operating system----------------\n"
    );
    assert_eq!(
        plaintext.format_section("Odd"),
        "----------------------Odd-----------------------\n"
    );
}

#[test]
fn entry_to_markdown_matches_markdown_format() {
    let tree = sample_tree();
    let mut markdown = Markdown::default();
    assert_eq!(tree.to_markdown(), markdown.format_entry(&tree));
}

#[test]
fn report_to_markdown_renders_sections_in_order() {
    let report = Report {
        sections: vec![
            ReportSection {
                title: String::from("First"),
                entry: ReportEntry::Text(String::from("one")),
            },
            ReportSection {
                title: String::from("Second"),
                entry: ReportEntry::Text(String::from("two")),
            },
        ],
    };
    assert_eq!(report.to_markdown(), "#### First\n\none\n\n#### Second\n\ntwo\n\n");
}

#[test]
fn one_section_per_collector_in_registration_order() {
    let mut br = BugReport::from_name_and_version("demo", "0.1")
        .info(SoftwareVersion::default())
        .info(EnvironmentVariables::list(vec![EnvVar::new("A", None)]))
        .info(SoftwareVersion::custom("x"));
    let report = br.generate();
    assert_eq!(report.sections.len(), 3);
    assert_eq!(report.sections[0].title, "Software version");
    assert_eq!(report.sections[1].title, "Environment variables");
    assert_eq!(report.sections[2].title, "Software version");
}

#[test]
fn failing_collector_shows_reason_and_skips_nothing() {
    let mut br = BugReport::from_name_and_version("demo", "0.1")
        .info(SoftwareVersion::default())
        .info(bugreport::collector::FileContent::new(
            "Config file",
            "gone.toml",
            Err(String::from("No such file or directory (os error 2)")),
        ))
        .info(SoftwareVersion::custom("x"));
    let report = br.generate();
    assert_eq!(report.sections.len(), 3);
    assert_eq!(report.sections[1].title, "Config file");
    let rendered = report.to_markdown();
    assert!(rendered.contains("Could not read contents of 'gone.toml': No such file or directory (os error 2)."));
    assert_eq!(
        rendered,
        "#### Software version\n\ndemo 0.1\n\n\
         #### Config file\n\nCould not read contents of 'gone.toml': No such file or directory (os error 2).\n\n\
         #### Software version\n\ndemo x\n\n"
    );
}

#[test]
fn version_and_environment_scenario_in_markdown() {
    let report = BugReport::from_name_and_version("demo", "0.1")
        .info(SoftwareVersion::default())
        .info(EnvironmentVariables::list(vec![EnvVar::new(
            "DEMO_VAR",
            Some(String::from("42")),
        )]))
        .format::<Markdown>();
    assert_eq!(
        report,
        "#### Software version\n\ndemo 0.1\n\n\
         #### Environment variables\n\n```bash\nDEMO_VAR=42\n```\n\n"
    );
}

#[test]
fn whole_report_in_plaintext() {
    let report = BugReport::from_name_and_version("demo", "0.1")
        .info(SoftwareVersion::default())
        .format::<Plaintext>();
    assert_eq!(report, "----------------Software version----------------\ndemo 0.1\n\n");
}
