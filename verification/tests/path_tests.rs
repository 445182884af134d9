use mkdown::commands::default_export_name;
use mkdown::fs_service::preview_kind;
use mkdown::paths::{extension_of, file_name_of, file_stem_of, path_components};
use mkdown::state::AppState;
use mkdown::workspace::build_tree;

fn text(v: Option<Vec<char>>) -> Option<String> {
    v.map(|c| c.into_iter().collect())
}

fn comps(p: &str) -> Vec<String> {
    path_components(p).into_iter().map(|c| c.into_iter().collect()).collect()
}

#[test]
fn components_keep_prefix_and_root() {
    assert_eq!(comps("/tmp/a.md"), vec!["/", "ntmp", "na.md"]);
    assert_eq!(comps("C:\\docs/a.md"), vec![":C:", "/", "ndocs", "na.md"]);
    assert_eq!(comps("C:docs"), vec![":C:", "ndocs"]);
    assert_eq!(comps("docs/./a"), vec!["ndocs", "na"]);
    assert_eq!(comps("\\\\server\\share\\x"), vec![":\\\\server\\share", "/", "nx"]);
    assert_eq!(comps("\\\\?\\C:\\w/x"), vec![":\\\\?\\C:", "/", "nw/x"]);
    assert_eq!(comps("\\\\?\\UNC\\srv\\sh\\a"), vec![":\\\\?\\UNC\\srv\\sh", "/", "na"]);
}

#[test]
fn current_directory_components() {
    assert_eq!(comps("./a"), vec![".", "na"]);
    assert_eq!(comps("."), vec!["."]);
    assert_eq!(comps("a/./b/."), vec!["na", "nb"]);
    assert_eq!(comps(".hidden/x"), vec!["n.hidden", "nx"]);
    assert_eq!(comps("\\\\?\\C:\\a\\.\\b"), vec![":\\\\?\\C:", "/", "na", ".", "nb"]);
    assert_eq!(comps("\\\\?\\C:/x"), vec![":\\\\?\\C:", "/", "nx"]);
    assert_eq!(text(file_name_of(".")), None);
    assert_eq!(text(file_name_of("./")), None);
    assert_eq!(text(file_name_of("a/.")), Some("a".to_string()));
    assert_eq!(text(file_name_of("\\\\?\\C:\\a\\.")), None);
    let mut state = AppState::default();
    state.grant_root("a");
    assert!(state.is_allowed(Some("a/b")));
    assert!(!state.is_allowed(Some("./a/b")));
}

#[test]
fn a_bare_prefix_or_root_has_no_file_name() {
    assert_eq!(text(file_name_of("C:\\")), None);
    assert_eq!(text(file_name_of("C:")), None);
    assert_eq!(text(file_name_of("/")), None);
    assert_eq!(text(file_name_of("\\\\server\\share")), None);
    assert_eq!(text(file_name_of("a/..")), None);
    assert_eq!(text(file_name_of("/tmp/a.md/")), Some("a.md".to_string()));
    assert_eq!(text(file_name_of("C:\\notes\\a.tar.gz")), Some("a.tar.gz".to_string()));
    assert_eq!(text(extension_of("C:\\notes\\a.tar.gz")), Some("gz".to_string()));
    assert_eq!(text(file_stem_of("C:\\notes\\a.tar.gz")), Some("a.tar".to_string()));
    assert_eq!(text(extension_of("C:\\")), None);
    assert_eq!(text(file_stem_of("/tmp/.hidden")), Some(".hidden".to_string()));
}

#[test]
fn drive_root_is_named_by_its_path() {
    let t = build_tree("C:\\", true, &vec![], 1).ok().unwrap();
    assert_eq!(t.name, "C:\\");
    assert_eq!(t.path, "C:\\");
    assert!(t.children.unwrap().is_empty());
    assert_eq!(build_tree("C:\\work", true, &vec![], 1).ok().unwrap().name, "work");
}

#[test]
fn export_name_and_preview_of_a_drive_root() {
    assert_eq!(default_export_name("C:\\", "html"), "export.html");
    assert_eq!(default_export_name("C:\\notes\\a.md", "pdf"), "a.pdf");
    assert_eq!(preview_kind("C:"), None);
    assert_eq!(preview_kind("C:\\"), None);
    assert_eq!(preview_kind("C:\\x.DOCX"), Some("docx"));
}

#[test]
fn rooted_and_relative_paths_differ() {
    let mut state = AppState::default();
    state.grant_root("/t/a");
    assert!(state.is_allowed(Some("/t/a/x")));
    assert!(!state.is_allowed(Some("t/a/x")));

    let mut state = AppState::default();
    state.grant_root("C:\\w");
    assert!(state.is_allowed(Some("C:/w/a.md")));
    assert!(!state.is_allowed(Some("C:w\\a.md")));
    assert!(!state.is_allowed(Some("D:\\w\\a.md")));
}

#[test]
fn verbatim_roots_cover_their_files() {
    let mut state = AppState::default();
    state.grant_root("\\\\?\\C:\\w");
    assert!(state.is_allowed(Some("\\\\?\\C:\\w\\a.md")));
    assert!(state.is_allowed(Some("\\\\?\\C:\\w")));
    assert!(!state.is_allowed(Some("\\\\?\\C:\\wx\\a.md")));
}
