use mkdown::error::AppError;
use mkdown::state::AppState;

#[test]
fn error_codes_are_stable() {
    assert_eq!(AppError::NotFound("x".into()).code(), "NOT_FOUND");
    assert_eq!(AppError::Conflict("x".into()).code(), "CONFLICT");
    assert_eq!(AppError::Cancelled.code(), "CANCELLED");
}

#[test]
fn serialize_shape_is_code_message() {
    let e = AppError::NotFound("缺失.md".into());
    let mut m = serde_json::Map::new();
    m.insert("code".to_string(), serde_json::Value::String(e.code().to_string()));
    m.insert("message".to_string(), serde_json::Value::String(e.message()));
    let v = serde_json::Value::Object(m);
    assert_eq!(v["code"], "NOT_FOUND");
    assert!(v["message"].as_str().unwrap().contains("缺失.md"));
}

#[test]
fn io_error_kind_mapping() {
    let e: AppError = std::io::Error::new(std::io::ErrorKind::NotFound, "gone").into();
    assert!(matches!(e, AppError::NotFound(_)));
}

#[test]
fn io_error_other_kinds_map_to_io() {
    let e: AppError = std::io::Error::new(std::io::ErrorKind::PermissionDenied, "no").into();
    assert!(matches!(e, AppError::PermissionDenied(_)));
    let e: AppError = std::io::Error::new(std::io::ErrorKind::Other, "boom").into();
    assert_eq!(e.code(), "IO_ERROR");
    assert!(e.message().contains("boom"));
}

#[test]
fn every_code_and_message() {
    let all = vec![
        (AppError::NotFound("a".into()), "NOT_FOUND", "path not found: a"),
        (AppError::PermissionDenied("a".into()), "PERMISSION_DENIED", "permission denied: a"),
        (AppError::Io("a".into()), "IO_ERROR", "io error: a"),
        (AppError::Encoding("a".into()), "ENCODING_ERROR", "encoding error: a"),
        (AppError::InvalidArg("a".into()), "INVALID_ARG", "invalid argument: a"),
        (AppError::Conflict("a".into()), "CONFLICT", "name conflict: a"),
        (AppError::Cancelled, "CANCELLED", "operation cancelled"),
        (AppError::Unsupported("a".into()), "UNSUPPORTED", "unsupported operation: a"),
        (AppError::Internal("a".into()), "INTERNAL", "internal error: a"),
    ];
    for (e, code, msg) in all {
        assert_eq!(e.code(), code);
        assert_eq!(e.message(), msg);
    }
}

#[test]
fn unauthorized_path_is_rejected() {
    let dir = "/tmp/.tmpA1b2C3";
    let mut state = AppState::default();
    let inside = "/tmp/.tmpA1b2C3/a.md";

    assert!(!state.is_allowed(Some(inside)), "未授权前一律拒绝");
    assert!(state.ensure_allowed(Some(inside), inside).is_err());

    state.grant_root(dir);
    assert!(state.is_allowed(Some(inside)));
    assert!(state.is_allowed(Some(dir)), "根自身也应放行");
    assert!(state.ensure_allowed(Some(inside), inside).is_ok());
}

#[test]
fn sibling_directory_stays_rejected() {
    let dir = "/tmp/.tmpA1b2C3";
    let other = "/tmp/.tmpZ9y8X7";
    let mut state = AppState::default();
    state.grant_root(dir);

    assert!(!state.is_allowed(Some(other)), "同级目录不得越权");
    assert!(!state.is_allowed(Some("/tmp/.tmpZ9y8X7/b.md")));
}

#[test]
fn new_file_in_granted_dir_is_allowed() {
    let mut state = AppState::default();
    state.grant_root("/tmp/.tmpA1b2C3");
    // a file not written yet: its canonical parent joined with its name
    assert!(state.is_allowed(Some("/tmp/.tmpA1b2C3/还没落盘.md")));
}

#[test]
fn unresolvable_path_is_rejected() {
    let mut state = AppState::default();
    state.grant_root("/tmp/.tmpA1b2C3");
    assert!(!state.is_allowed(None));
    assert!(state.ensure_allowed(None, "/gone/x.md").is_err());
}

#[test]
fn begin_search_cancels_previous_round() {
    let mut state = AppState::default();
    let first = state.begin_search();
    assert!(state.is_live_round(first));
    let second = state.begin_search();
    assert!(!state.is_live_round(first), "新一轮必须置停上一轮");
    assert!(state.is_live_round(second));
}

#[test]
fn permission_error_names_the_path() {
    let state = AppState::new();
    let r = state.ensure_allowed(Some("/srv/x.md"), "/srv/x.md");
    match r {
        Err(AppError::PermissionDenied(m)) => {
            assert_eq!(m, "路径未授权（请先打开所在目录或工作区）: /srv/x.md")
        }
        _ => panic!("expected a permission error"),
    }
    assert!(!state.is_allowed(None));
}

#[test]
fn grant_is_idempotent_and_parent_subsumes_children() {
    let mut state = AppState::new();
    state.grant_root("/data/ws/sub");
    assert!(state.is_allowed(Some("/data/ws/sub/a.md")));
    assert!(!state.is_allowed(Some("/data/ws/b.md")));
    state.grant_root("/data/ws/sub");
    assert!(state.is_allowed(Some("/data/ws/sub")));
    state.grant_root("/data/ws");
    assert!(state.is_allowed(Some("/data/ws/b.md")));
    assert!(state.is_allowed(Some("/data/ws/sub/a.md")));
    assert!(!state.is_allowed(Some("/data/wsx/a.md")));
    assert!(!state.is_allowed(Some("/data")));
}

#[test]
fn pending_open_is_taken_once() {
    let mut state = AppState::new();
    state.set_pending_open(vec!["/a.md".to_string(), "/b.docx".to_string()]);
    assert_eq!(state.take_pending_open(), vec!["/a.md".to_string(), "/b.docx".to_string()]);
    assert!(state.take_pending_open().is_empty());
}

#[test]
fn backslash_separates_only_windows_paths() {
    let mut state = AppState::new();
    state.grant_root("/t/a");
    assert!(state.is_allowed(Some("/t/a/b")));
    // on a Unix path `a\b` is one name, a sibling of `a`
    assert!(!state.is_allowed(Some("/t/a\\b")));
    let mut win = AppState::new();
    win.grant_root("C:\\t\\a");
    assert!(win.is_allowed(Some("C:\\t\\a\\b.md")));
    assert!(win.is_allowed(Some("C:/t/a/b.md")));
    assert!(!win.is_allowed(Some("C:\\t\\ab.md")));
}
