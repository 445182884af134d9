use mkdown::error::AppError;
use mkdown::workspace::{
    build_tree, check_create, check_delete, check_rename, delete_outcome, entry_node, is_ignored_dir,
    is_skipped_file, sort_children, tree_depth, validate_name, NodeKind, RawEntry, RawKind, WorkspaceNode, MAX_NODES,
};

const ROOT: &str = "/tmp/.tmpW0rk";

fn file(dir: &str, name: &str) -> RawEntry {
    RawEntry { name: name.to_string(), path: format!("{dir}/{name}"), kind: RawKind::File(Some((1, 0))) }
}

fn folder(dir: &str, name: &str, children: Vec<RawEntry>) -> RawEntry {
    RawEntry { name: name.to_string(), path: format!("{dir}/{name}"), kind: RawKind::Dir(children) }
}

/// A directory in memory: the names of its entries.
struct Dir {
    names: Vec<String>,
}

fn create_entry(dir: &mut Dir, parent: &str, name: &str, kind: NodeKind) -> Result<WorkspaceNode, AppError> {
    let exists = dir.names.iter().any(|n| n == name);
    check_create(parent, name, true, exists)?;
    dir.names.push(name.to_string());
    Ok(entry_node(name, format!("{parent}/{name}"), kind, 0, 0))
}

fn rename_entry(dir: &mut Dir, parent: &str, name: &str, new_name: &str) -> Result<WorkspaceNode, AppError> {
    let exists = dir.names.iter().any(|n| n == name);
    let target_exists = dir.names.iter().any(|n| n == new_name);
    check_rename(&format!("{parent}/{name}"), new_name, exists, true, target_exists)?;
    dir.names.retain(|n| n != name);
    dir.names.push(new_name.to_string());
    Ok(entry_node(new_name, format!("{parent}/{new_name}"), NodeKind::File, 0, 0))
}

fn names(n: WorkspaceNode) -> Vec<String> {
    n.children.unwrap().into_iter().map(|c| c.name).collect()
}

#[test]
fn tree_sorts_dirs_first_and_shows_dot_prefixed() {
    let entries = vec![
        file(ROOT, "b.md"),
        file(ROOT, "A.md"),
        file(ROOT, ".hidden.md"),
        folder(ROOT, "zfolder", vec![file(&format!("{ROOT}/zfolder"), "inner.md")]),
        folder(ROOT, ".workbuddy", vec![]),
        folder(ROOT, "node_modules", vec![]),
    ];
    let t = build_tree(ROOT, true, &entries, 4).ok().unwrap();
    assert_eq!(names(t), vec![".workbuddy", "zfolder", ".hidden.md", "A.md", "b.md"]);
}

#[test]
fn tree_shows_every_visible_entry() {
    let entries = vec![
        file(ROOT, "a.md"),
        file(ROOT, "b.docx"),
        file(ROOT, "c.xlsx"),
        file(ROOT, "方案.pdf"),
        file(ROOT, "noext"),
        file(ROOT, "~$b.docx"),
    ];
    let t = build_tree(ROOT, true, &entries, 4).ok().unwrap();
    assert_eq!(names(t), vec!["a.md", "b.docx", "c.xlsx", "noext", "方案.pdf"]);
}

#[test]
fn tree_root_and_depth() {
    let b = format!("{ROOT}/a/b");
    let entries = vec![folder(ROOT, "a", vec![folder(&format!("{ROOT}/a"), "b", vec![file(&b, "deep.md")])])];
    let t = build_tree(ROOT, true, &entries, 1).ok().unwrap();
    assert_eq!(t.name, ".tmpW0rk");
    assert_eq!(t.path, ROOT);
    assert!(matches!(t.kind, NodeKind::Dir));
    let a = &t.children.as_ref().unwrap()[0];
    assert_eq!(a.name, "a");
    assert!(a.children.as_ref().unwrap().is_empty());
    let t = build_tree(ROOT, true, &entries, 3).ok().unwrap();
    let a = &t.children.as_ref().unwrap()[0];
    let bn = &a.children.as_ref().unwrap()[0];
    assert_eq!(bn.children.as_ref().unwrap()[0].name, "deep.md");
    assert_eq!(bn.children.as_ref().unwrap()[0].size, Some(1));
    assert_eq!(bn.children.as_ref().unwrap()[0].path, format!("{ROOT}/a/b/deep.md"));
    match build_tree("/tmp/missing", false, &vec![], 3) {
        Err(AppError::NotFound(m)) => assert_eq!(m, "目录不存在: /tmp/missing"),
        _ => panic!("a missing root is not found"),
    }
    assert_eq!(build_tree("/", true, &vec![], 3).ok().unwrap().name, "/");
    assert_eq!(tree_depth(None), 12);
    assert_eq!(tree_depth(Some(0)), 1);
    assert_eq!(tree_depth(Some(40)), 16);
    assert_eq!(tree_depth(Some(5)), 5);
}

fn count(n: &WorkspaceNode) -> usize {
    n.children.as_ref().map(|c| c.iter().map(|x| 1 + count(x)).sum()).unwrap_or(0)
}

#[test]
fn tree_budget_caps_the_node_count() {
    let dirs: Vec<RawEntry> = (0..210)
        .map(|d| RawEntry {
            name: format!("d{d:03}"),
            path: format!("/w/d{d:03}"),
            kind: RawKind::Dir(
                (0..100)
                    .map(|i| RawEntry {
                        name: format!("f{i:03}.md"),
                        path: format!("/w/d{d:03}/f{i:03}.md"),
                        kind: RawKind::File(None),
                    })
                    .collect(),
            ),
        })
        .collect();
    let t = build_tree("/w", true, &dirs, 4).ok().unwrap();
    assert_eq!(t.name, "w");
    assert_eq!(count(&t), MAX_NODES);
    let small = build_tree("/w", true, &dirs[..2].iter().map(|d| RawEntry {
        name: d.name.clone(),
        path: d.path.clone(),
        kind: RawKind::Unknown,
    }).collect(), 4).ok().unwrap();
    assert_eq!(count(&small), 0);
}

#[test]
fn children_sort_is_stable_and_case_insensitive() {
    let mk = |n: &str, k: NodeKind| WorkspaceNode {
        name: n.to_string(),
        path: format!("/w/{n}"),
        kind: k,
        children: None,
        size: None,
        mtime_ms: None,
    };
    let v = vec![mk("b", NodeKind::File), mk("B", NodeKind::File), mk("a", NodeKind::File), mk("z", NodeKind::Dir)];
    let s: Vec<String> = sort_children(v).into_iter().map(|n| n.name).collect();
    assert_eq!(s, vec!["z", "a", "b", "B"]);
}

#[test]
fn create_conflict_is_conflict_error() {
    let mut dir = Dir { names: vec!["exist.md".to_string()] };
    let err = create_entry(&mut dir, ROOT, "exist.md", NodeKind::File).err().unwrap();
    assert!(matches!(err, AppError::Conflict(_)));
}

#[test]
fn create_file_then_rename() {
    let mut dir = Dir { names: vec![] };
    let node = create_entry(&mut dir, ROOT, "新建.md", NodeKind::File).ok().unwrap();
    assert_eq!(node.path, format!("{ROOT}/新建.md"));
    assert!(dir.names.iter().any(|n| n == "新建.md"));
    let renamed = rename_entry(&mut dir, ROOT, "新建.md", "改名.md").ok().unwrap();
    assert_eq!(renamed.name, "改名.md");
    assert!(dir.names.iter().any(|n| n == "改名.md"));
    assert!(!dir.names.iter().any(|n| n == "新建.md"));
}

#[test]
fn invalid_names_rejected() {
    let mut dir = Dir { names: vec![] };
    for bad in ["", "a/b", "a:b", "a?b"] {
        assert!(create_entry(&mut dir, ROOT, bad, NodeKind::File).is_err(), "应拒绝: {bad}");
    }
    assert!(dir.names.is_empty());
}

#[test]
fn name_checks_and_messages() {
    assert!(validate_name("ok.md").is_ok());
    match validate_name("   ") {
        Err(e) => assert_eq!(e.message(), "invalid argument: 名称不能为空"),
        Ok(()) => panic!("blank name accepted"),
    }
    match validate_name("a|b") {
        Err(e) => assert_eq!(e.message(), "invalid argument: 名称含非法字符: a|b"),
        Ok(()) => panic!("illegal name accepted"),
    }
    match check_create("/w/missing", "x.md", false, false) {
        Err(e) => assert_eq!(e.message(), "path not found: 父目录不存在: /w/missing"),
        Ok(()) => panic!(),
    }
    match check_rename("/w/a.md", "b.md", true, false, false) {
        Err(e) => assert_eq!(e.message(), "invalid argument: 没有父目录"),
        Ok(()) => panic!(),
    }
    match check_rename("/w/a.md", "b.md", false, true, false) {
        Err(e) => assert_eq!(e.message(), "path not found: 条目不存在: /w/a.md"),
        Ok(()) => panic!(),
    }
    assert!(check_rename("/w/a.md", "b.md", true, true, false).is_ok());
    assert!(is_ignored_dir(".git") && is_ignored_dir("__pycache__") && !is_ignored_dir(".vscode"));
    assert!(is_skipped_file("~$a.docx") && !is_skipped_file("~a.docx"));
}

#[test]
fn new_nodes_and_delete_outcomes() {
    let d = entry_node("dir", "/w/dir".to_string(), NodeKind::Dir, 4096, 9);
    assert!(d.children.unwrap().is_empty());
    assert_eq!(d.size, None);
    assert_eq!(d.mtime_ms, Some(9));
    let f = entry_node("f.md", "/w/f.md".to_string(), NodeKind::File, 12, 9);
    assert!(f.children.is_none());
    assert_eq!(f.size, Some(12));
    assert!(check_delete("/w/f.md", true).is_ok());
    assert_eq!(check_delete("/w/g.md", false).err().unwrap().message(), "path not found: 条目不存在: /w/g.md");
    assert!(delete_outcome(None, true).is_ok());
    assert!(delete_outcome(Some("busy".to_string()), false).is_ok());
    assert_eq!(
        delete_outcome(Some("busy".to_string()), true).err().unwrap().message(),
        "io error: 移入回收站失败: busy"
    );
}
