use bugreport::collector::{
    os_entry, CollectionError, Collector, CommandLine, CommandOutput, CompileTimeInformation,
    EnvVar, EnvironmentVariables, FileContent, RunOutcome, SoftwareVersion,
};
use bugreport::format::Markdown;
use bugreport::report::ReportEntry;
use bugreport::BugReport;

#[test]
fn basic() {
    let report = BugReport::from_name_and_version("dummy", "0.1")
        .info(EnvironmentVariables::list(vec![EnvVar::new(
            "BUGREPORT_TEST",
            Some(String::from("42")),
        )]))
        .format::<Markdown>();

    assert_eq!(
        report,
        "#### Environment variables\n\
         \n\
         ```bash\n\
         BUGREPORT_TEST=42\n\
         ```\n\n"
    );
}

#[test]
fn software_version_uses_context_version_and_revision() {
    let mut br = BugReport::from_name_and_version("demo", "0.1");
    br.set_git_hash(Some("abc123"));
    let report = br.info(SoftwareVersion::default()).format::<Markdown>();
    assert_eq!(report, "#### Software version\n\ndemo 0.1 (abc123)\n\n");
}

#[test]
fn software_version_custom_overrides_context_version() {
    let report = BugReport::from_name_and_version("demo", "0.1")
        .info(SoftwareVersion::custom("9.9-beta"))
        .format::<Markdown>();
    assert_eq!(report, "#### Software version\n\ndemo 9.9-beta\n\n");
}

#[test]
fn environment_variable_unset_renders_not_set() {
    let report = BugReport::from_name_and_version("demo", "0.1")
        .info(EnvironmentVariables::list(vec![
            EnvVar::new("FIRST", Some(String::from("a b"))),
            EnvVar::new("SECOND", None),
        ]))
        .format::<Markdown>();
    assert_eq!(
        report,
        "#### Environment variables\n\n```bash\nFIRST='a b'\nSECOND=<not set>\n```\n\n"
    );
}

#[test]
fn environment_variables_keep_order_and_duplicates() {
    let report = BugReport::from_name_and_version("demo", "0.1")
        .info(EnvironmentVariables::list(vec![
            EnvVar::new("B", Some(String::from("1"))),
            EnvVar::new("A", Some(String::from("2"))),
            EnvVar::new("B", Some(String::from("1"))),
        ]))
        .format::<Markdown>();
    assert_eq!(
        report,
        "#### Environment variables\n\n```bash\nB=1\nA=2\nB=1\n```\n\n"
    );
}

#[test]
fn environment_variables_empty_list_gives_empty_block() {
    let report = BugReport::from_name_and_version("demo", "0.1")
        .info(EnvironmentVariables::list(Vec::new()))
        .format::<Markdown>();
    assert_eq!(report, "#### Environment variables\n\n```bash\n\n```\n\n");
}

#[test]
fn command_line_escapes_arguments() {
    let args = vec![
        String::from("prog"),
        String::from("--flag"),
        String::from("a b"),
        String::from("it's"),
    ];
    let report = BugReport::from_name_and_version("demo", "0.1")
        .info(CommandLine::new(args))
        .format::<Markdown>();
    assert_eq!(
        report,
        "#### Command-line\n\n```bash\nprog --flag 'a b' 'it'\\''s' \n```\n\n"
    );
}

#[test]
fn command_output_nonzero_exit_is_still_collected() {
    let outcome = RunOutcome {
        stdout: b"partial output\n".to_vec(),
        stderr: Vec::new(),
        success: false,
        exit_code: Some(3),
    };
    let collector = CommandOutput::new("Failing command", "mycmd", vec![String::from("x")], Ok(outcome));
    let info = bugreport::CrateInfo {
        pkg_name: String::from("demo"),
        pkg_version: String::from("0.1"),
        git_hash: None,
    };
    let collected = collector.collect(&info);
    assert!(collected.is_ok());

    let report = BugReport::from_name_and_version("demo", "0.1")
        .info(collector)
        .format::<Markdown>();
    assert_eq!(
        report,
        "#### Failing command\n\n```\n> mycmd x \npartial output\n```\nCommand failed with exit code 3.\n\n"
    );
}

#[test]
fn command_output_without_exit_code_notes_plain_failure() {
    let outcome = RunOutcome {
        stdout: Vec::new(),
        stderr: b"boom".to_vec(),
        success: false,
        exit_code: None,
    };
    let report = BugReport::from_name_and_version("demo", "0.1")
        .info(CommandOutput::new("Killed command", "mycmd", Vec::new(), Ok(outcome)))
        .format::<Markdown>();
    assert_eq!(
        report,
        "#### Killed command\n\n```\n> mycmd \nboom\n```\nCommand failed.\n\n"
    );
}

#[test]
fn command_output_spawn_failure_reports_reason() {
    let report = BugReport::from_name_and_version("demo", "0.1")
        .info(CommandOutput::new(
            "Python version",
            "python",
            vec![String::from("--version")],
            Err(String::from("No such file or directory (os error 2)")),
        ))
        .format::<Markdown>();
    assert_eq!(
        report,
        "#### Python version\n\nCould not run command 'python': No such file or directory (os error 2)\n\n"
    );
}

#[test]
fn command_output_invalid_utf8_reports_reason() {
    let outcome = RunOutcome {
        stdout: vec![0xff, 0xfe],
        stderr: Vec::new(),
        success: true,
        exit_code: Some(0),
    };
    let report = BugReport::from_name_and_version("demo", "0.1")
        .info(CommandOutput::new("Raw bytes", "mycmd", Vec::new(), Ok(outcome)))
        .format::<Markdown>();
    assert_eq!(
        report,
        "#### Raw bytes\n\nError while running command 'mycmd': output is not valid UTF-8.\n\n"
    );
}

#[test]
fn file_content_trims_and_wraps_in_code_block() {
    let report = BugReport::from_name_and_version("demo", "0.1")
        .info(FileContent::new(
            "Config file",
            "config.toml",
            Ok(String::from("key = value\n\n")),
        ))
        .format::<Markdown>();
    assert_eq!(report, "#### Config file\n\n```\nkey = value\n```\n\n");
}

#[test]
fn file_content_read_error_reports_reason() {
    let report = BugReport::from_name_and_version("demo", "0.1")
        .info(FileContent::new(
            "Config file",
            "missing.toml",
            Err(String::from("No such file or directory (os error 2)")),
        ))
        .format::<Markdown>();
    assert_eq!(
        report,
        "#### Config file\n\nCould not read contents of 'missing.toml': No such file or directory (os error 2).\n\n"
    );
}

#[test]
fn os_entry_composes_type_and_release() {
    match os_entry(Some(String::from("Linux")), Some(String::from("6.1.0"))) {
        Ok(ReportEntry::Text(t)) => assert_eq!(t, "Linux 6.1.0"),
        _ => panic!("expected a text entry"),
    }
    match os_entry(Some(String::from("Linux")), None) {
        Ok(ReportEntry::Text(t)) => assert_eq!(t, "Linux (unknown version)"),
        _ => panic!("expected a text entry"),
    }
    match os_entry(None, Some(String::from("6.1.0"))) {
        Err(CollectionError::CouldNotRetrieve(reason)) => {
            assert_eq!(reason, "Operating system type")
        },
        _ => panic!("expected a failure"),
    }
}

#[test]
fn operating_system_reports_a_section() {
    let report = BugReport::from_name_and_version("demo", "0.1")
        .info(bugreport::collector::OperatingSystem::default())
        .format::<Markdown>();
    assert!(report.starts_with("#### Operating system\n\n"));
    assert!(report.ends_with("\n\n"));
    assert!(report.len() > "#### Operating system\n\n\n\n".len());
}

#[test]
fn clearing_the_revision_drops_the_suffix() {
    let mut br = BugReport::from_name_and_version("demo", "0.1");
    br.set_git_hash(Some("abc123"));
    br.set_git_hash(None);
    let report = br.info(SoftwareVersion::default()).format::<Markdown>();
    assert_eq!(report, "#### Software version\n\ndemo 0.1\n\n");
}

#[test]
fn compile_time_information_lists_build_facts() {
    let report = BugReport::from_name_and_version("demo", "0.1")
        .info(CompileTimeInformation::new(
            String::from("release"),
            String::from("x86_64-unknown-linux-gnu"),
            String::from("unix"),
            String::from("linux"),
            String::from("x86_64"),
            String::from("64"),
            String::from("little"),
            String::from("sse2"),
            String::from("x86_64-unknown-linux-gnu"),
        ))
        .format::<Markdown>();
    assert_eq!(
        report,
        "#### Compile time information\n\n\
         - Profile: release\n\
         - Target triple: x86_64-unknown-linux-gnu\n\
         - Family: unix\n\
         - OS: linux\n\
         - Architecture: x86_64\n\
         - Pointer width: 64\n\
         - Endian: little\n\
         - CPU features: sse2\n\
         - Host: x86_64-unknown-linux-gnu\n\n"
    );
}
