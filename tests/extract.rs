use squishy::entry::{EntryKind, SquashFSEntry};
use squishy::extract::{extract_action, output_file_name, relative_path, write_plan, ExtractAction};

fn entry(path: &str, kind: EntryKind, permissions: u16) -> SquashFSEntry {
    SquashFSEntry { path: path.to_string(), size: 1, kind, permissions }
}

#[test]
fn appdata_keeps_its_convention() {
    assert_eq!(output_file_name("/usr/share/metainfo/app.appdata.xml", Some("foo")).as_deref(), Some("foo.appdata.xml"));
    assert_eq!(output_file_name("/usr/share/metainfo/app.metadata.xml", Some("foo")).as_deref(), Some("foo.metadata.xml"));
    assert_eq!(output_file_name("/usr/share/metainfo/app.metainfo.xml", Some("foo")).as_deref(), Some("foo.xml"));
}

#[test]
fn base_name_takes_the_extension() {
    assert_eq!(output_file_name("/a/b/icon.png", Some("MyApp.AppImage")).as_deref(), Some("MyApp.AppImage.png"));
    assert_eq!(output_file_name("/a/b/icon.png", None).as_deref(), Some("icon.png"));
    assert_eq!(output_file_name("/.DirIcon", Some("foo")).as_deref(), Some(".DirIcon"));
    assert_eq!(output_file_name("/a/noext", Some("foo")).as_deref(), Some("noext"));
}

#[test]
fn path_without_file_name_is_skipped() {
    assert_eq!(output_file_name("/", None), None);
    assert_eq!(output_file_name("/a/..", Some("foo")), None);
    assert_eq!(output_file_name("", None), None);
}

#[test]
fn write_plan_permissions() {
    let e = entry("/x/app.desktop", EntryKind::File, 0o755);
    let p = write_plan(&e, Some("foo"), true).unwrap();
    assert_eq!(p.file_name, "foo.desktop");
    assert_eq!(p.mode, Some(0o755));
    let p = write_plan(&e, None, false).unwrap();
    assert_eq!(p.file_name, "app.desktop");
    assert_eq!(p.mode, None);
    let d = entry("/x", EntryKind::Directory, 0o755);
    assert!(write_plan(&d, None, true).is_none());
}

#[test]
fn extraction_actions() {
    let f = entry("/usr/bin/app", EntryKind::File, 0o755);
    match extract_action(&f, false) {
        ExtractAction::WriteFile { path, mode } => {
            assert_eq!(path, "usr/bin/app");
            assert_eq!(mode, 0o755);
        }
        other => panic!("unexpected {:?}", other),
    }
    let d = entry("/usr/share", EntryKind::Directory, 0o700);
    match extract_action(&d, false) {
        ExtractAction::CreateDir { path, mode } => {
            assert_eq!(path, "usr/share");
            assert_eq!(mode, 0o700);
        }
        other => panic!("unexpected {:?}", other),
    }
    let l = entry("/AppRun", EntryKind::Symlink("/usr/bin/app".to_string()), 0o777);
    match extract_action(&l, false) {
        ExtractAction::MakeSymlink { path, target } => {
            assert_eq!(path, "AppRun");
            assert_eq!(target, "usr/bin/app");
        }
        other => panic!("unexpected {:?}", other),
    }
    let o = entry("/dev/null", EntryKind::Other, 0o666);
    assert!(matches!(extract_action(&o, false), ExtractAction::Skip));
}

#[test]
fn second_extraction_writes_nothing() {
    let entries = vec![
        entry("/usr/bin/app", EntryKind::File, 0o755),
        entry("/usr", EntryKind::Directory, 0o755),
        entry("/AppRun", EntryKind::Symlink("usr/bin/app".to_string()), 0o777),
    ];
    for e in &entries {
        assert!(!matches!(extract_action(e, false), ExtractAction::Skip));
        assert!(matches!(extract_action(e, true), ExtractAction::Skip));
    }
}

#[test]
fn relative_paths() {
    assert_eq!(relative_path("/a/b"), "a/b");
    assert_eq!(relative_path("a/b"), "a/b");
    assert_eq!(relative_path("/"), "");
}
