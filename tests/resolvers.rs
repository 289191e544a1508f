use squishy::appimage::AppImage;
use squishy::entry::{EntryKind, SquashFSEntry};
use squishy::error::SquishyError;

fn entry(path: &str, size: u64, kind: EntryKind) -> SquashFSEntry {
    SquashFSEntry { path: path.to_string(), size, kind, permissions: 0o644 }
}

fn file(path: &str, size: u64) -> SquashFSEntry {
    entry(path, size, EntryKind::File)
}

fn link(path: &str, target: &str) -> SquashFSEntry {
    entry(path, 0, EntryKind::Symlink(target.to_string()))
}

fn image(filter: Option<&str>, entries: Vec<SquashFSEntry>) -> AppImage {
    AppImage::new(filter.map(|f| f.to_string()), Some(entries)).unwrap()
}

fn found(r: Option<SquashFSEntry>) -> Option<String> {
    r.map(|e| e.path)
}

#[test]
fn new_without_image_fails() {
    match AppImage::new(None, None) {
        Err(SquishyError::InvalidSquashFS(m)) => {
            assert_eq!(m, "Couldn't find squashfs. Try providing valid offset.")
        }
        _ => panic!("expected InvalidSquashFS"),
    }
    let ai = image(Some("abc"), vec![file("/a", 1)]);
    assert_eq!(ai.filter().as_deref(), Some("abc"));
    assert_eq!(ai.entries.len(), 1);
}

#[test]
fn diricon_wins_over_other_icons() {
    let ai = image(
        None,
        vec![
            file("/usr/share/icons/big.png", 9000),
            file("/.DirIcon", 10),
            file("/icon.svg", 5),
        ],
    );
    assert_eq!(found(ai.find_icon()), Some("/.DirIcon".to_string()));
}

#[test]
fn diricon_ignores_filter() {
    let ai = image(Some("zzz"), vec![file("/.DirIcon", 10)]);
    assert_eq!(found(ai.find_icon()), Some("/.DirIcon".to_string()));
}

#[test]
fn largest_shared_png_wins() {
    let ai = image(
        None,
        vec![file("/usr/share/icons/a.png", 100), file("/usr/share/icons/b.png", 500)],
    );
    assert_eq!(found(ai.find_icon()), Some("/usr/share/icons/b.png".to_string()));
}

#[test]
fn shared_png_is_matched_case_insensitively() {
    let ai = image(
        None,
        vec![file("/elsewhere/huge.png", 10000), file("/USR/SHARE/ICONS/Small.PNG", 10)],
    );
    assert_eq!(found(ai.find_icon()), Some("/USR/SHARE/ICONS/Small.PNG".to_string()));
}

#[test]
fn shared_svg_before_png_elsewhere() {
    let ai = image(
        None,
        vec![file("/opt/x.png", 10000), file("/usr/share/icons/hicolor/app.svg", 10)],
    );
    assert_eq!(found(ai.find_icon()), Some("/usr/share/icons/hicolor/app.svg".to_string()));
}

#[test]
fn png_anywhere_with_filter() {
    let ai = image(Some("x"), vec![file("/other/path/x.png", 50)]);
    assert_eq!(found(ai.find_icon()), Some("/other/path/x.png".to_string()));
    let ai = image(Some("zzz"), vec![file("/other/path/x.png", 50)]);
    assert_eq!(found(ai.find_icon()), None);
}

#[test]
fn largest_png_anywhere() {
    let ai = image(None, vec![file("/a/one.png", 5), file("/b/two.png", 70), file("/c/three.png", 20)]);
    assert_eq!(found(ai.find_icon()), Some("/b/two.png".to_string()));
}

#[test]
fn first_svg_anywhere() {
    let ai = image(None, vec![file("/readme.txt", 5), file("/b/first.svg", 1), file("/c/second.svg", 900)]);
    let icon = found(ai.find_icon()).unwrap();
    assert!(icon == "/b/first.svg" || icon == "/c/second.svg");
    let ai = image(None, vec![file("/readme.txt", 5), file("/c/only.svg", 900)]);
    assert_eq!(found(ai.find_icon()), Some("/c/only.svg".to_string()));
}

#[test]
fn no_icon_at_all() {
    let ai = image(None, vec![file("/readme.txt", 5), entry("/usr", 0, EntryKind::Directory)]);
    assert_eq!(found(ai.find_icon()), None);
}

#[test]
fn desktop_is_one_of_the_desktop_files() {
    let ai = image(None, vec![file("/app.desktop", 1), file("/nested/other.desktop", 1)]);
    let d = found(ai.find_desktop()).unwrap();
    assert!(d == "/app.desktop" || d == "/nested/other.desktop");
}

#[test]
fn desktop_goes_by_filter_and_case() {
    let ai = image(Some("other"), vec![file("/app.desktop", 1), file("/nested/Other.DESKTOP", 1)]);
    assert_eq!(found(ai.find_desktop()), Some("/nested/Other.DESKTOP".to_string()));
    let ai = image(None, vec![file("/app.txt", 1)]);
    assert_eq!(found(ai.find_desktop()), None);
}

#[test]
fn appstream_conventions() {
    for name in ["/a/appdata.xml", "/a/metainfo.xml", "/a/metadata.xml", "/a/org.app.APPDATA.xml"] {
        let ai = image(None, vec![file("/a/other.xml", 1), file(name, 1)]);
        assert_eq!(found(ai.find_appstream()), Some(name.to_string()));
    }
    let ai = image(None, vec![file("/a/other.xml", 1)]);
    assert_eq!(found(ai.find_appstream()), None);
}

#[test]
fn symlink_resolves_to_file() {
    let ai = image(
        None,
        vec![link("/app.desktop", "/usr/share/applications/app.desktop"), file("/usr/share/applications/app.desktop", 42)],
    );
    let d = ai.find_desktop().unwrap();
    assert_eq!(d.path, "/usr/share/applications/app.desktop");
    assert_eq!(d.size, 42);
    assert!(matches!(d.kind, EntryKind::File));
}

#[test]
fn relative_symlink_resolves_next_to_the_link() {
    let ai = image(None, vec![link("/.DirIcon", "usr/icon.png"), file("/usr/icon.png", 3)]);
    assert_eq!(found(ai.find_icon()), Some("/usr/icon.png".to_string()));
    let ai = image(None, vec![link("/a/b/x.png", "y.png"), file("/a/b/y.png", 3)]);
    assert_eq!(found(ai.finalize(&ai.entries[0])), Some("/a/b/y.png".to_string()));
}

#[test]
fn symlink_chain_resolves() {
    let ai = image(None, vec![link("/a", "/b"), link("/b", "/c"), file("/c", 7)]);
    assert_eq!(found(ai.finalize(&ai.entries[0])), Some("/c".to_string()));
}

#[test]
fn dangling_symlink_is_absent() {
    let ai = image(None, vec![link("/app.desktop", "/missing.desktop")]);
    assert_eq!(found(ai.find_desktop()), None);
}

#[test]
fn cyclic_symlink_is_absent() {
    let ai = image(None, vec![link("/a.desktop", "/b.desktop"), link("/b.desktop", "/a.desktop")]);
    assert_eq!(found(ai.find_desktop()), None);
}

#[test]
fn concrete_entry_is_its_own_finalization() {
    let ai = image(None, vec![file("/x", 1)]);
    let e = file("/not/in/image", 3);
    assert_eq!(found(ai.finalize(&e)), Some("/not/in/image".to_string()));
}

#[test]
fn filter_path_is_a_substring_test() {
    let ai = image(Some("icons"), vec![]);
    assert!(ai.filter_path("/usr/share/icons/a.png"));
    assert!(!ai.filter_path("/usr/share/pixmaps/a.png"));
    let ai = image(None, vec![]);
    assert!(ai.filter_path("/anything"));
}

#[test]
fn symlink_with_dot_dot_resolves() {
    let ai = image(
        None,
        vec![
            link("/usr/share/icons/hicolor/256x256/apps/app.png", "../../scalable/apps/./app.png"),
            file("/usr/share/icons/hicolor/scalable/apps/app.png", 9),
        ],
    );
    assert_eq!(
        found(ai.finalize(&ai.entries[0])),
        Some("/usr/share/icons/hicolor/scalable/apps/app.png".to_string())
    );
    let ai = image(None, vec![link("/a/x", "../../../b//c"), file("/b/c", 1)]);
    assert_eq!(found(ai.finalize(&ai.entries[0])), Some("/b/c".to_string()));
}

#[test]
fn filter_ignores_case() {
    let ai = image(Some("Foo"), vec![]);
    assert!(ai.filter_path("/usr/share/icons/foo.png"));
    let ai = image(Some("APP"), vec![file("/other/App.desktop", 1), file("/x.desktop", 1)]);
    assert_eq!(found(ai.find_desktop()), Some("/other/App.desktop".to_string()));
}

#[test]
fn shared_svg_needs_the_icons_directory() {
    let ai = image(None, vec![file("/usr/share/iconsX/a.svg", 1), file("/opt/b.png", 10)]);
    assert_eq!(found(ai.find_icon()), Some("/opt/b.png".to_string()));
}
