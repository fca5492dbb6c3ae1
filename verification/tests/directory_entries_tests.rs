use bugreport::collector::{
    DirEntryInfo, DirEntryKind, DirItem, DirReadError, DirectoryEntries,
};
use bugreport::format::Markdown;
use bugreport::BugReport;

fn file(name: &str, size: u64) -> DirItem {
    DirItem::Entry(DirEntryInfo { name: String::from(name), kind: DirEntryKind::File(size) })
}

fn dir(name: &str) -> DirItem {
    DirItem::Entry(DirEntryInfo { name: String::from(name), kind: DirEntryKind::Directory })
}

#[test]
fn dir_not_found() {
    let actual = BugReport::from_name_and_version("demo", "0.1")
        .info(DirectoryEntries::new(
            "No dir",
            "this-dir-does-not-exist",
            Err(DirReadError::NotFound),
        ))
        .format::<Markdown>();

    let expected = "#### No dir

'this-dir-does-not-exist' not found

";

    assert_eq!(expected, actual);
}

#[test]
fn dir_is_empty() {
    let actual = BugReport::from_name_and_version("demo", "0.1")
        .info(DirectoryEntries::new("Empty dir", "/tmp/some-empty-dir", Ok(Vec::new())))
        .format::<Markdown>();

    let expected = "#### Empty dir

'/tmp/some-empty-dir' is empty

";

    assert_eq!(expected, actual);
}

#[test]
fn dir_exists() {
    let actual = BugReport::from_name_and_version("demo", "0.1")
        .info(DirectoryEntries::new(
            "File and dir",
            "/tmp/some-dir",
            Ok(vec![file("file.txt", 14), dir("some_dir")]),
        ))
        .format::<Markdown>();

    let expected = "#### File and dir

- file.txt, 14 bytes
- some_dir/

";

    assert_eq!(expected, actual);
}

#[test]
fn new() {
    DirectoryEntries::new("a", "/a", Err(DirReadError::NotFound));
    DirectoryEntries::new(&String::from("c"), "/c", Ok(Vec::new()));
    new_with_title_from_local_variable();
}

fn new_with_title_from_local_variable() -> DirectoryEntries {
    let local_variable = String::from("pretend this is dynamically constructed");
    DirectoryEntries::new(&local_variable, "/path", Err(DirReadError::NotFound))
}

#[test]
fn largest_file_size_is_rendered_exactly() {
    let actual = BugReport::from_name_and_version("demo", "0.1")
        .info(DirectoryEntries::new(
            "Huge file",
            "/huge",
            Ok(vec![file("blob.bin", u64::MAX)]),
        ))
        .format::<Markdown>();

    assert_eq!(
        actual,
        "#### Huge file\n\n- blob.bin, 18446744073709551615 bytes\n\n"
    );
}

#[test]
fn dir_read_failure_reports_reason() {
    let actual = BugReport::from_name_and_version("demo", "0.1")
        .info(DirectoryEntries::new(
            "Locked dir",
            "/locked",
            Err(DirReadError::Other(String::from("Permission denied (os error 13)"))),
        ))
        .format::<Markdown>();

    assert_eq!(
        actual,
        "#### Locked dir\n\n'/locked' not read: Permission denied (os error 13)\n\n"
    );
}

#[test]
fn entries_are_sorted_and_unreadable_ones_are_kept() {
    let actual = BugReport::from_name_and_version("demo", "0.1")
        .info(DirectoryEntries::new(
            "Mixed dir",
            "/mixed",
            Ok(vec![
                file("zeta.log", 3),
                DirItem::Error(String::from("stale handle")),
                dir("alpha"),
                DirItem::Entry(DirEntryInfo {
                    name: String::from("socket"),
                    kind: DirEntryKind::Other,
                }),
            ]),
        ))
        .format::<Markdown>();

    assert_eq!(
        actual,
        "#### Mixed dir\n\n- Error: stale handle\n- alpha/\n- socket\n- zeta.log, 3 bytes\n\n"
    );
}
