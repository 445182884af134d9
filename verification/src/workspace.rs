//! The workspace tree shown beside the editor, and the rules for creating,
//! renaming and deleting its entries.
//!
//! The tree lists every entry except build/dependency/version-control
//! directories and Office lock files (`~$...`). Directories come first,
//! then files, each group ordered by lower-cased name. A global budget of
//! [`MAX_NODES`] entries, spent in listing order depth first, bounds the
//! tree when the root sits on a huge disk.
use vstd::prelude::*;
use crate::error::AppError;
use crate::fs_service::listed;
use crate::office::{lits, tag_views};
use crate::paths::{file_name, file_name_of};
use crate::sort::{
    SortKey, insert_pos, key_lt, keys_view, lemma_insert_pos_bound, lemma_sort_order_range, lemma_sort_order_sorted,
    permutes, sort_indices, sort_order, text_lt,
};
use crate::text::{lowercase, str_chars, str_to_lowercase, string_from_chars, trim, trim_chars};

verus! {

/// Most entries a workspace tree holds.
pub const MAX_NODES: usize = 20000;

/// Whether an entry is a file or a directory.
#[derive(Debug, Clone, Copy, PartialEq, Eq, Structural)]
pub enum NodeKind {
    File,
    Dir,
}

/// One node of the workspace tree. A directory has `children` (possibly
/// empty); a file has none and carries its size and modification time when
/// they could be read.
pub struct WorkspaceNode {
    pub name: String,
    pub path: String,
    pub kind: NodeKind,
    pub children: Option<Vec<WorkspaceNode>>,
    pub size: Option<u64>,
    pub mtime_ms: Option<i64>,
}

/// A directory entry as the file system listed it.
pub struct RawEntry {
    pub name: String,
    pub path: String,
    pub kind: RawKind,
}

/// What a listed entry is.
pub enum RawKind {
    /// A directory and its own listing, in listing order (empty when it was
    /// not read or could not be read).
    Dir(Vec<RawEntry>),
    /// A file, with its size and modification time in ms when its metadata
    /// could be read.
    File(Option<(u64, i64)>),
    /// An entry whose type could not be read.
    Unknown,
}

/// A tree node as plain values.
pub struct NodeView {
    pub name: Seq<char>,
    pub path: Seq<char>,
    pub is_dir: bool,
    pub children: Option<Seq<NodeView>>,
    pub size: Option<u64>,
    pub mtime_ms: Option<i64>,
}

pub open spec fn node_view(n: WorkspaceNode) -> NodeView
    decreases n, 0nat,
{
    NodeView {
        name: n.name@,
        path: n.path@,
        is_dir: n.kind is Dir,
        children: match n.children {
            Some(c) => Some(nodes_view(c@)),
            None => None,
        },
        size: n.size,
        mtime_ms: n.mtime_ms,
    }
}

pub open spec fn nodes_view(s: Seq<WorkspaceNode>) -> Seq<NodeView>
    decreases s, 1nat,
{
    if s.len() == 0 {
        seq![]
    } else {
        seq![node_view(s[0])] + nodes_view(s.subrange(1, s.len() as int))
    }
}

proof fn lemma_nodes_view(s: Seq<WorkspaceNode>)
    ensures
        nodes_view(s).len() == s.len(),
        forall|i: int| 0 <= i < s.len() ==> #[trigger] nodes_view(s)[i] == node_view(s[i]),
    decreases s.len(),
{
    if s.len() > 0 {
        let t = s.subrange(1, s.len() as int);
        lemma_nodes_view(t);
        assert forall|i: int| 0 <= i < s.len() implies #[trigger] nodes_view(s)[i] == node_view(s[i]) by {
            if i > 0 {
                assert(nodes_view(s)[i] == nodes_view(t)[i - 1]);
                assert(t[i - 1] == s[i]);
            }
        }
    }
}

/// Directories that never appear in the tree.
pub open spec fn ignored_dirs() -> Seq<Seq<char>> {
    lits(seq!["node_modules", "target", "dist", "__pycache__", ".git"])
}

fn ignored_dirs_vec() -> (r: Vec<&'static str>)
    ensures
        tag_views(r@) == ignored_dirs(),
{
    vec!["node_modules", "target", "dist", "__pycache__", ".git"]
}

/// Whether a directory of this name is left out of the tree.
pub fn is_ignored_dir(name: &str) -> (r: bool)
    ensures
        r == ignored_dirs().contains(name@),
{
    let v = str_chars(name);
    listed(v.as_slice(), &ignored_dirs_vec())
}

/// Office lock files (`~$...`) are left out of the tree.
pub open spec fn skipped_file(name: Seq<char>) -> bool {
    name.len() >= 2 && name[0] == '~' && name[1] == '$'
}

/// Whether a file of this name is left out of the tree.
pub fn is_skipped_file(name: &str) -> (r: bool)
    ensures
        r == skipped_file(name@),
{
    let v = str_chars(name);
    v.len() >= 2 && v[0] == '~' && v[1] == '$'
}

/// Characters no entry name may hold.
pub open spec fn illegal_char(c: char) -> bool {
    c == '\\' || c == '/' || c == ':' || c == '*' || c == '?' || c == '"' || c == '<' || c == '>' || c == '|'
}

pub open spec fn has_illegal_char(name: Seq<char>) -> bool {
    exists|k: int| 0 <= k < name.len() && illegal_char(#[trigger] name[k])
}

/// Validation of a new entry name: not blank, and none of `\ / : * ? " < > |`.
pub fn validate_name(name: &str) -> (r: Result<(), AppError>)
    ensures
        r is Ok <==> trim(name@).len() > 0 && !has_illegal_char(name@),
        r matches Err(e) ==> (if trim(name@).len() == 0 {
            e matches AppError::InvalidArg(m) && m@ == "名称不能为空"@
        } else {
            e matches AppError::InvalidArg(m) && m@ == "名称含非法字符: "@ + name@
        }),
{
    let v = str_chars(name);
    let t = trim_chars(v.as_slice());
    if t.len() == 0 {
        return Err(AppError::InvalidArg(String::from_str("名称不能为空")));
    }
    let mut k: usize = 0;
    while k < v.len()
        invariant
            k <= v@.len(),
            v@ == name@,
            trim(name@).len() > 0,
            forall|j: int| 0 <= j < k ==> !illegal_char(#[trigger] v@[j]),
        decreases v@.len() - k,
    {
        let c = v[k];
        if c == '\\' || c == '/' || c == ':' || c == '*' || c == '?' || c == '"' || c == '<' || c == '>' || c
            == '|' {
            assert(illegal_char(name@[k as int]));
            return Err(AppError::InvalidArg(String::from_str("名称含非法字符: ").concat(name)));
        }
        k = k + 1;
    }
    Ok(())
}

/// A file node as plain values.
pub open spec fn file_view(name: Seq<char>, path: Seq<char>, meta: Option<(u64, i64)>) -> NodeView {
    NodeView {
        name,
        path,
        is_dir: false,
        children: None,
        size: match meta {
            Some(m) => Some(m.0),
            None => None,
        },
        mtime_ms: match meta {
            Some(m) => Some(m.1),
            None => None,
        },
    }
}

/// The order of nodes in a directory: directories before files, then by
/// lower-cased name.
pub open spec fn node_key(n: NodeView) -> (nat, Seq<char>) {
    (if n.is_dir { 0nat } else { 1nat }, lowercase(n.name))
}

pub open spec fn node_keys(ns: Seq<NodeView>) -> Seq<(nat, Seq<char>)> {
    ns.map_values(|n: NodeView| node_key(n))
}

/// `ns` stably sorted by [`node_key`].
pub open spec fn sort_nodes(ns: Seq<NodeView>) -> Seq<NodeView> {
    let o = sort_order(node_keys(ns), ns.len());
    Seq::new(ns.len(), |i: int| ns[o[i] as int])
}

/// The children of a directory at `depth` listed as `es`, before sorting,
/// and the budget left: entries are taken in listing order while budget
/// remains, each kept entry spending one unit, a kept directory spending
/// further units on its own children first. Nothing is listed at or below
/// `max_depth`.
pub open spec fn build_entries(es: Seq<RawEntry>, depth: nat, max_depth: nat, budget: nat) -> (Seq<NodeView>, nat)
    decreases max_depth - depth, 0nat, es.len(),
{
    if depth >= max_depth || es.len() == 0 || budget == 0 {
        (seq![], budget)
    } else {
        let e = es[0];
        let rest = es.drop_first();
        match e.kind {
            RawKind::Unknown => build_entries(rest, depth, max_depth, budget),
            RawKind::Dir(sub) => {
                if ignored_dirs().contains(e.name@) {
                    build_entries(rest, depth, max_depth, budget)
                } else {
                    let d = build_dir(e.name@, e.path@, sub@, depth + 1, max_depth, (budget - 1) as nat);
                    let r = build_entries(rest, depth, max_depth, d.1);
                    (seq![d.0] + r.0, r.1)
                }
            },
            RawKind::File(meta) => {
                if skipped_file(e.name@) {
                    build_entries(rest, depth, max_depth, budget)
                } else {
                    let r = build_entries(rest, depth, max_depth, (budget - 1) as nat);
                    (seq![file_view(e.name@, e.path@, meta)] + r.0, r.1)
                }
            },
        }
    }
}

/// The node of a directory at `depth` listed as `es`, and the budget left.
pub open spec fn build_dir(name: Seq<char>, path: Seq<char>, es: Seq<RawEntry>, depth: nat, max_depth: nat, budget: nat) -> (NodeView, nat)
    decreases max_depth - depth, 1nat, es.len(),
{
    let r = build_entries(es, depth, max_depth, budget);
    (NodeView { name, path, is_dir: true, children: Some(sort_nodes(r.0)), size: None, mtime_ms: None }, r.1)
}

fn file_node(name: String, path: String, meta: Option<(u64, i64)>) -> (r: WorkspaceNode)
    ensures
        node_view(r) == file_view(name@, path@, meta),
{
    let (size, mtime_ms) = match meta {
        Some(m) => (Some(m.0), Some(m.1)),
        None => (None, None),
    };
    WorkspaceNode { name, path, kind: NodeKind::File, children: None, size, mtime_ms }
}

/// Sorts a directory's children: directories first, then by lower-cased
/// name; the sort is stable.
pub fn sort_children(children: Vec<WorkspaceNode>) -> (r: Vec<WorkspaceNode>)
    ensures
        nodes_view(r@) == sort_nodes(nodes_view(children@)),
{
    let n = children.len();
    let ghost cv = children@;
    let ghost nv = nodes_view(cv);
    proof {
        lemma_nodes_view(cv);
    }
    let mut keys: Vec<SortKey> = Vec::new();
    let mut i: usize = 0;
    while i < n
        invariant
            i <= n == cv.len(),
            children@ == cv,
            nv == nodes_view(cv),
            nv.len() == cv.len(),
            forall|j: int| 0 <= j < cv.len() ==> #[trigger] nv[j] == node_view(cv[j]),
            keys_view(keys@) =~= node_keys(nv).take(i as int),
        decreases n - i,
    {
        let c = &children[i];
        let rank: u128 = match c.kind {
            NodeKind::Dir => 0,
            NodeKind::File => 1,
        };
        let low = str_to_lowercase(c.name.as_str());
        let text = str_chars(low.as_str());
        let ghost before = keys_view(keys@);
        keys.push(SortKey { rank, text });
        proof {
            assert(nv[i as int] == node_view(cv[i as int]));
            assert(keys_view(keys@) =~= before.push(node_key(nv[i as int])));
        }
        i = i + 1;
    }
    assert(node_keys(nv).take(n as int) =~= node_keys(nv));
    let order = sort_indices(&keys);
    let ghost ov = order@.map_values(|x: usize| x as nat);
    proof {
        lemma_sort_order_sorted(node_keys(nv), n as nat);
        assert(ov.len() == n);
        assert forall|k: int| 0 <= k < n implies #[trigger] order@[k] < n && ov[k] == order@[k] as nat by {
            assert(ov[k] == order@[k] as nat);
        }
    }
    // Move the children into slots (last first) so that each can be taken
    // out once, in sorted order.
    let mut rest = children;
    let mut slots: Vec<Option<WorkspaceNode>> = Vec::new();
    while rest.len() > 0
        invariant
            rest@.len() + slots@.len() == n,
            rest@ == cv.take(rest@.len() as int),
            n == cv.len(),
            forall|j: int| 0 <= j < slots@.len() ==> #[trigger] slots@[j] == Some(cv[n - 1 - j]),
        decreases rest@.len(),
    {
        let x = rest.pop().unwrap();
        let ghost m = slots@.len();
        slots.push(Some(x));
        proof {
            assert(rest@ =~= cv.take(rest@.len() as int));
            assert(slots@[m as int] == Some(cv[n - 1 - m]));
        }
    }
    let mut out: Vec<WorkspaceNode> = Vec::new();
    let mut k: usize = 0;
    while k < n
        invariant
            k <= n == cv.len() == slots@.len() == order@.len(),
            ov == order@.map_values(|x: usize| x as nat),
            ov == sort_order(node_keys(nv), n as nat),
            permutes(ov, n as nat),
            forall|j: int| 0 <= j < n ==> #[trigger] order@[j] < n && ov[j] == order@[j] as nat,
            nv == nodes_view(cv),
            forall|j: int| 0 <= j < cv.len() ==> #[trigger] nv[j] == node_view(cv[j]),
            forall|j: int|
                0 <= j < n && !ov.take(k as int).contains(j as nat) ==> #[trigger] slots@[n - 1 - j] == Some(cv[j]),
            out@.len() == k,
            forall|m: int| 0 <= m < k ==> #[trigger] out@[m] == cv[ov[m] as int],
        decreases n - k,
    {
        let idx = order[k];
        let mut tmp: Option<WorkspaceNode> = None;
        proof {
            assert(!ov.take(k as int).contains(idx as nat)) by {
                if ov.take(k as int).contains(idx as nat) {
                    let m = choose|m: int| 0 <= m < k && ov.take(k as int)[m] == idx as nat;
                    assert(ov[m] == ov[k as int]);
                }
            }
            assert(slots@[n - 1 - idx] == Some(cv[idx as int]));
        }
        std::mem::swap(&mut tmp, &mut slots[n - 1 - idx]);
        proof {
            assert forall|j: int|
                0 <= j < n && !ov.take(k + 1).contains(j as nat) implies #[trigger] slots@[n - 1 - j] == Some(cv[j]) by {
                assert(ov.take(k + 1)[k as int] == idx as nat);
                if ov.take(k as int).contains(j as nat) {
                    let m = choose|m: int| 0 <= m < k && ov.take(k as int)[m] == j as nat;
                    assert(ov.take(k + 1)[m] == j as nat);
                }
            }
        }
        match tmp {
            Some(x) => {
                out.push(x);
            },
            None => {
                proof {
                    assert(false);
                }
            },
        }
        k = k + 1;
    }
    proof {
        lemma_nodes_view(out@);
        assert(nodes_view(out@) =~= sort_nodes(nv));
    }
    out
}

fn build_dir_exec(name: String, path: String, es: &Vec<RawEntry>, depth: usize, max_depth: usize, budget: &mut usize) -> (r: WorkspaceNode)
    ensures
        (node_view(r), *final(budget) as nat) == build_dir(name@, path@, es@, depth as nat, max_depth as nat, *old(budget) as nat),
    decreases max_depth - depth,
{
    let mut children: Vec<WorkspaceNode> = Vec::new();
    let ghost b0 = *budget as nat;
    let ghost total = build_entries(es@, depth as nat, max_depth as nat, b0);
    if depth < max_depth {
        let mut i: usize = 0;
        proof {
            assert(es@.skip(0) =~= es@);
            assert(nodes_view(children@) =~= Seq::<NodeView>::empty());
            assert(Seq::<NodeView>::empty() + total.0 =~= total.0);
        }
        while i < es.len() && *budget > 0
            invariant
                i <= es@.len(),
                depth < max_depth,
                total == build_entries(es@, depth as nat, max_depth as nat, b0),
                nodes_view(children@) + build_entries(es@.skip(i as int), depth as nat, max_depth as nat, *budget as nat).0
                    == total.0,
                build_entries(es@.skip(i as int), depth as nat, max_depth as nat, *budget as nat).1 == total.1,
            decreases es@.len() - i,
        {
            let ghost cur = es@.skip(i as int);
            let ghost before = nodes_view(children@);
            proof {
                assert(cur[0] == es@[i as int]);
                assert(cur.drop_first() =~= es@.skip(i + 1));
                lemma_nodes_view(children@);
            }
            let e = &es[i];
            match &e.kind {
                RawKind::Unknown => {},
                RawKind::Dir(sub) => {
                    if !is_ignored_dir(e.name.as_str()) {
                        *budget = *budget - 1;
                        let node = build_dir_exec(e.name.clone(), e.path.clone(), sub, depth + 1, max_depth, budget);
                        children.push(node);
                        proof {
                            lemma_nodes_view(children@);
                            assert(nodes_view(children@) =~= before + seq![node_view(node)]);
                        }
                    }
                },
                RawKind::File(meta) => {
                    if !is_skipped_file(e.name.as_str()) {
                        *budget = *budget - 1;
                        let node = file_node(e.name.clone(), e.path.clone(), *meta);
                        children.push(node);
                        proof {
                            lemma_nodes_view(children@);
                            assert(nodes_view(children@) =~= before + seq![node_view(node)]);
                        }
                    }
                },
            }
            i = i + 1;
        }
        proof {
            assert(build_entries(es@.skip(i as int), depth as nat, max_depth as nat, *budget as nat).0 =~= Seq::<NodeView>::empty());
            assert(nodes_view(children@) =~= total.0);
        }
        children = sort_children(children);
    } else {
        proof {
            assert(nodes_view(children@) =~= Seq::<NodeView>::empty());
            assert(sort_nodes(Seq::<NodeView>::empty()) =~= Seq::<NodeView>::empty());
        }
    }
    WorkspaceNode { name, path, kind: NodeKind::Dir, children: Some(children), size: None, mtime_ms: None }
}

/// The name the tree shows for its root: the root's last component, or the
/// whole path when it has none.
pub open spec fn root_name(root: Seq<char>) -> Seq<char> {
    match file_name(root) {
        Some(n) => n,
        None => root,
    }
}

/// The workspace tree of the directory `root` listed as `entries`.
pub open spec fn tree_spec(root: Seq<char>, entries: Seq<RawEntry>, max_depth: nat) -> NodeView {
    build_dir(root_name(root), root, entries, 0, max_depth, MAX_NODES as nat).0
}

/// Builds the workspace tree of `root` from its listing `entries` (each
/// directory entry carrying its own listing), at most `max_depth` levels
/// deep. A root that is not a directory is `NotFound`.
pub fn build_tree(root: &str, root_is_dir: bool, entries: &Vec<RawEntry>, max_depth: usize) -> (r: Result<WorkspaceNode, AppError>)
    ensures
        r is Ok <==> root_is_dir,
        r matches Ok(n) ==> node_view(n) == tree_spec(root@, entries@, max_depth as nat),
        r matches Err(e) ==> e matches AppError::NotFound(m) && m@ == "目录不存在: "@ + root@,
{
    if !root_is_dir {
        return Err(AppError::NotFound(String::from_str("目录不存在: ").concat(root)));
    }
    let name = match file_name_of(root) {
        Some(v) => string_from_chars(v.as_slice()),
        None => root.to_string(),
    };
    let mut budget = MAX_NODES;
    let node = build_dir_exec(name, root.to_string(), entries, 0, max_depth, &mut budget);
    Ok(node)
}

/// The depth a tree is listed to: 12 levels unless asked otherwise, and
/// always between 1 and 16.
pub fn tree_depth(max_depth: Option<usize>) -> (r: usize)
    ensures
        r == (match max_depth {
            Some(d) => if d < 1 { 1 } else if d > 16 { 16 } else { d },
            None => 12,
        }),
{
    match max_depth {
        Some(d) => if d < 1 { 1 } else if d > 16 { 16 } else { d },
        None => 12,
    }
}

/// What must hold before creating `name` in the directory `parent`, in order:
/// the name is valid, the parent is a directory, nothing of that name
/// exists there yet.
pub fn check_create(parent: &str, name: &str, parent_is_dir: bool, target_exists: bool) -> (r: Result<(), AppError>)
    ensures
        r is Ok <==> (trim(name@).len() > 0 && !has_illegal_char(name@) && parent_is_dir && !target_exists),
        r matches Err(e) ==> (if !(trim(name@).len() > 0 && !has_illegal_char(name@)) {
            validate_name_err(name@, e)
        } else if !parent_is_dir {
            e matches AppError::NotFound(m) && m@ == "父目录不存在: "@ + parent@
        } else {
            e matches AppError::Conflict(m) && m@ == "已存在同名条目: "@ + name@
        }),
{
    validate_name(name)?;
    if !parent_is_dir {
        return Err(AppError::NotFound(String::from_str("父目录不存在: ").concat(parent)));
    }
    if target_exists {
        return Err(AppError::Conflict(String::from_str("已存在同名条目: ").concat(name)));
    }
    Ok(())
}

/// The error [`validate_name`] gives for an invalid name.
pub open spec fn validate_name_err(name: Seq<char>, e: AppError) -> bool {
    if trim(name).len() == 0 {
        e matches AppError::InvalidArg(m) && m@ == "名称不能为空"@
    } else {
        e matches AppError::InvalidArg(m) && m@ == "名称含非法字符: "@ + name
    }
}

/// What must hold before renaming the entry at `path` to `new_name`, in order:
/// the name is valid, the entry exists, it has a parent directory, nothing
/// named `new_name` exists there yet.
pub fn check_rename(path: &str, new_name: &str, exists: bool, has_parent: bool, target_exists: bool) -> (r: Result<(), AppError>)
    ensures
        r is Ok <==> (trim(new_name@).len() > 0 && !has_illegal_char(new_name@) && exists && has_parent && !target_exists),
        r matches Err(e) ==> (if !(trim(new_name@).len() > 0 && !has_illegal_char(new_name@)) {
            validate_name_err(new_name@, e)
        } else if !exists {
            e matches AppError::NotFound(m) && m@ == "条目不存在: "@ + path@
        } else if !has_parent {
            e matches AppError::InvalidArg(m) && m@ == "没有父目录"@
        } else {
            e matches AppError::Conflict(m) && m@ == "已存在同名条目: "@ + new_name@
        }),
{
    validate_name(new_name)?;
    if !exists {
        return Err(AppError::NotFound(String::from_str("条目不存在: ").concat(path)));
    }
    if !has_parent {
        return Err(AppError::InvalidArg(String::from_str("没有父目录")));
    }
    if target_exists {
        return Err(AppError::Conflict(String::from_str("已存在同名条目: ").concat(new_name)));
    }
    Ok(())
}

/// The node of an entry just created or renamed: a directory has no
/// children listed yet, a file carries its size; both carry their
/// modification time.
pub fn entry_node(name: &str, path: String, kind: NodeKind, size: u64, mtime_ms: i64) -> (r: WorkspaceNode)
    ensures
        node_view(r) == (NodeView {
            name: name@,
            path: path@,
            is_dir: kind is Dir,
            children: if kind is Dir { Some(Seq::<NodeView>::empty()) } else { None },
            size: if kind is File { Some(size) } else { None },
            mtime_ms: Some(mtime_ms),
        }),
{
    let children = match kind {
        NodeKind::Dir => Some(Vec::new()),
        NodeKind::File => None,
    };
    let sz = match kind {
        NodeKind::File => Some(size),
        NodeKind::Dir => None,
    };
    let r = WorkspaceNode { name: name.to_string(), path, kind, children, size: sz, mtime_ms: Some(mtime_ms) };
    proof {
        if kind is Dir {
            assert(nodes_view(Seq::<WorkspaceNode>::empty()) =~= Seq::<NodeView>::empty());
        }
    }
    r
}

/// Guard run before deleting: the entry must exist.
pub fn check_delete(path: &str, exists: bool) -> (r: Result<(), AppError>)
    ensures
        r is Ok <==> exists,
        r matches Err(e) ==> e matches AppError::NotFound(m) && m@ == "条目不存在: "@ + path@,
{
    if exists {
        Ok(())
    } else {
        Err(AppError::NotFound(String::from_str("条目不存在: ").concat(path)))
    }
}

/// What a move to the recycle bin came to: success; or, after a reported
/// failure (`failure` is its text), success when the entry is gone anyway,
/// else an `Io` error naming the failure.
pub fn delete_outcome(failure: Option<String>, still_exists: bool) -> (r: Result<(), AppError>)
    ensures
        r is Ok <==> (failure is None || !still_exists),
        r matches Err(e) ==> e matches AppError::Io(m) && m@ == "移入回收站失败: "@ + failure->0@,
{
    match failure {
        None => Ok(()),
        Some(f) => {
            if !still_exists {
                Ok(())
            } else {
                Err(AppError::Io(String::from_str("移入回收站失败: ").concat(f.as_str())))
            }
        },
    }
}

/// A node may appear in the tree: no ignored directory, no lock file, and
/// the same for everything below it.
pub open spec fn shown(n: NodeView) -> bool
    decreases n, 0nat,
{
    &&& if n.is_dir { !ignored_dirs().contains(n.name) } else { !skipped_file(n.name) }
    &&& match n.children {
        Some(c) => all_shown(c),
        None => true,
    }
}

pub open spec fn all_shown(ns: Seq<NodeView>) -> bool
    decreases ns, 1nat,
{
    ns.len() == 0 || (shown(ns[0]) && all_shown(ns.subrange(1, ns.len() as int)))
}

/// Number of nodes in a forest, counting every level.
pub open spec fn tree_count(ns: Seq<NodeView>) -> nat
    decreases ns, 1nat,
{
    if ns.len() == 0 {
        0
    } else {
        1 + child_count(ns[0]) + tree_count(ns.subrange(1, ns.len() as int))
    }
}

/// Number of nodes below a node.
pub open spec fn child_count(n: NodeView) -> nat
    decreases n, 0nat,
{
    match n.children {
        Some(c) => tree_count(c),
        None => 0,
    }
}

proof fn lemma_all_shown(ns: Seq<NodeView>)
    ensures
        all_shown(ns) <==> forall|i: int| 0 <= i < ns.len() ==> #[trigger] shown(ns[i]),
    decreases ns.len(),
{
    if ns.len() > 0 {
        let t = ns.subrange(1, ns.len() as int);
        lemma_all_shown(t);
        assert(all_shown(ns) == (shown(ns[0]) && all_shown(t)));
        if forall|i: int| 0 <= i < ns.len() ==> #[trigger] shown(ns[i]) {
            assert forall|i: int| 0 <= i < t.len() implies #[trigger] shown(t[i]) by {
                assert(t[i] == ns[i + 1]);
                assert(shown(ns[i + 1]));
            }
            assert(shown(ns[0]));
        }
        if all_shown(ns) {
            assert forall|i: int| 0 <= i < ns.len() implies #[trigger] shown(ns[i]) by {
                if i > 0 {
                    assert(t[i - 1] == ns[i]);
                    assert(shown(t[i - 1]));
                }
            }
        }
    }
}

proof fn lemma_sort_nodes_basic(ns: Seq<NodeView>)
    ensures
        sort_nodes(ns).len() == ns.len(),
        forall|i: int|
            0 <= i < ns.len() ==> sort_order(node_keys(ns), ns.len())[i] < ns.len() && #[trigger] sort_nodes(ns)[i]
                == ns[sort_order(node_keys(ns), ns.len())[i] as int],
{
    lemma_sort_order_range(node_keys(ns), ns.len());
}

proof fn lemma_prepend_shown(x: NodeView, ns: Seq<NodeView>)
    ensures
        all_shown(seq![x] + ns) <==> shown(x) && all_shown(ns),
{
    let s = seq![x] + ns;
    assert(s[0] == x);
    assert(s.subrange(1, s.len() as int) =~= ns);
}

proof fn lemma_entries_shown(es: Seq<RawEntry>, depth: nat, max_depth: nat, budget: nat)
    ensures
        all_shown(build_entries(es, depth, max_depth, budget).0),
    decreases max_depth - depth, 0nat, es.len(),
{
    if depth >= max_depth || es.len() == 0 || budget == 0 {
        assert(all_shown(Seq::<NodeView>::empty()));
    } else {
        let e = es[0];
        let rest = es.drop_first();
        match e.kind {
            RawKind::Unknown => lemma_entries_shown(rest, depth, max_depth, budget),
            RawKind::Dir(sub) => {
                if ignored_dirs().contains(e.name@) {
                    lemma_entries_shown(rest, depth, max_depth, budget);
                } else {
                    let d = build_dir(e.name@, e.path@, sub@, depth + 1, max_depth, (budget - 1) as nat);
                    lemma_dir_shown(e.name@, e.path@, sub@, depth + 1, max_depth, (budget - 1) as nat);
                    lemma_entries_shown(rest, depth, max_depth, d.1);
                    lemma_prepend_shown(d.0, build_entries(rest, depth, max_depth, d.1).0);
                }
            },
            RawKind::File(meta) => {
                if skipped_file(e.name@) {
                    lemma_entries_shown(rest, depth, max_depth, budget);
                } else {
                    let r = build_entries(rest, depth, max_depth, (budget - 1) as nat);
                    lemma_entries_shown(rest, depth, max_depth, (budget - 1) as nat);
                    lemma_prepend_shown(file_view(e.name@, e.path@, meta), r.0);
                }
            },
        }
    }
}

proof fn lemma_dir_shown(name: Seq<char>, path: Seq<char>, es: Seq<RawEntry>, depth: nat, max_depth: nat, budget: nat)
    ensures
        all_shown(build_dir(name, path, es, depth, max_depth, budget).0.children->0),
        build_dir(name, path, es, depth, max_depth, budget).0.children is Some,
    decreases max_depth - depth, 1nat, es.len(),
{
    let ns = build_entries(es, depth, max_depth, budget).0;
    lemma_entries_shown(es, depth, max_depth, budget);
    lemma_all_shown(ns);
    lemma_sort_nodes_basic(ns);
    let r = sort_nodes(ns);
    let o = sort_order(node_keys(ns), ns.len());
    assert forall|i: int| 0 <= i < r.len() implies #[trigger] shown(r[i]) by {
        assert(r[i] == ns[o[i] as int]);
        assert(o[i] < ns.len());
        assert(shown(ns[o[i] as int]));
    }
    lemma_all_shown(r);
}

/// The tree never shows an ignored directory (`node_modules`, `target`,
/// `dist`, `__pycache__`, `.git`) or an Office lock file (`~$...`) below
/// its root.
pub proof fn lemma_tree_hides_noise(root: Seq<char>, entries: Seq<RawEntry>, max_depth: nat)
    ensures
        tree_spec(root, entries, max_depth).children is Some,
        all_shown(tree_spec(root, entries, max_depth).children->0),
{
    lemma_dir_shown(root_name(root), root, entries, 0, max_depth, MAX_NODES as nat);
}

/// In every directory, directories come before files, and within each
/// group the lower-cased names never decrease; the children are the
/// directory's kept entries, each once.
pub proof fn lemma_children_ordered(ns: Seq<NodeView>)
    ensures
        sort_nodes(ns).len() == ns.len(),
        permutes(sort_order(node_keys(ns), ns.len()), ns.len()),
        forall|i: int|
            0 <= i < ns.len() ==> #[trigger] sort_nodes(ns)[i] == ns[sort_order(node_keys(ns), ns.len())[i] as int],
        forall|i: int, j: int|
            0 <= i < j < ns.len() ==> !key_lt(node_key(#[trigger] sort_nodes(ns)[j]), node_key(#[trigger] sort_nodes(ns)[i])),
        forall|i: int, j: int|
            0 <= i < j < ns.len() && #[trigger] sort_nodes(ns)[j].is_dir ==> #[trigger] sort_nodes(ns)[i].is_dir,
        forall|i: int, j: int|
            0 <= i < j < ns.len() && #[trigger] sort_nodes(ns)[i].is_dir == #[trigger] sort_nodes(ns)[j].is_dir
                ==> !text_lt(lowercase(sort_nodes(ns)[j].name), lowercase(sort_nodes(ns)[i].name)),
{
    let keys = node_keys(ns);
    let o = sort_order(keys, ns.len());
    lemma_sort_order_sorted(keys, ns.len());
    lemma_sort_nodes_basic(ns);
    let r = sort_nodes(ns);
    assert forall|i: int, j: int| 0 <= i < j < ns.len() implies !key_lt(
        node_key(#[trigger] r[j]),
        node_key(#[trigger] r[i]),
    ) by {
        assert(!key_lt(keys[o[j] as int], keys[o[i] as int]));
        assert(keys[o[j] as int] == node_key(ns[o[j] as int]));
        assert(keys[o[i] as int] == node_key(ns[o[i] as int]));
    }
}

proof fn lemma_tree_count_concat(a: Seq<NodeView>, b: Seq<NodeView>)
    ensures
        tree_count(a + b) == tree_count(a) + tree_count(b),
    decreases a.len(),
{
    if a.len() == 0 {
        assert(a + b =~= b);
    } else {
        let s = a + b;
        assert(s[0] == a[0]);
        assert(s.subrange(1, s.len() as int) =~= a.subrange(1, a.len() as int) + b);
        lemma_tree_count_concat(a.subrange(1, a.len() as int), b);
    }
}

/// The nodes of `ns` at the positions `idx`, in that order.
pub open spec fn pick(ns: Seq<NodeView>, idx: Seq<nat>) -> Seq<NodeView> {
    Seq::new(idx.len(), |i: int| ns[idx[i] as int])
}

proof fn lemma_pick_concat(ns: Seq<NodeView>, a: Seq<nat>, b: Seq<nat>)
    ensures
        pick(ns, a + b) =~= pick(ns, a) + pick(ns, b),
{
}

proof fn lemma_count_sort_order(ns: Seq<NodeView>, keys: Seq<(nat, Seq<char>)>, n: nat)
    requires
        n <= ns.len(),
    ensures
        tree_count(pick(ns, sort_order(keys, n))) == tree_count(ns.take(n as int)),
    decreases n,
{
    if n == 0 {
        assert(pick(ns, sort_order(keys, 0)) =~= Seq::<NodeView>::empty());
        assert(ns.take(0) =~= Seq::<NodeView>::empty());
    } else {
        let m = (n - 1) as nat;
        let o = sort_order(keys, m);
        lemma_count_sort_order(ns, keys, m);
        lemma_insert_pos_bound(keys, o, keys[m as int]);
        let p = insert_pos(keys, o, keys[m as int]) as int;
        assert(sort_order(keys, n) == o.take(p) + seq![m] + o.skip(p));
        lemma_pick_concat(ns, o.take(p) + seq![m], o.skip(p));
        lemma_pick_concat(ns, o.take(p), seq![m]);
        lemma_pick_concat(ns, o.take(p), o.skip(p));
        assert(o =~= o.take(p) + o.skip(p));
        lemma_tree_count_concat(pick(ns, o.take(p)) + pick(ns, seq![m]), pick(ns, o.skip(p)));
        lemma_tree_count_concat(pick(ns, o.take(p)), pick(ns, seq![m]));
        lemma_tree_count_concat(pick(ns, o.take(p)), pick(ns, o.skip(p)));
        let one = pick(ns, seq![m]);
        assert(one =~= seq![ns[m as int]]);
        assert(ns.take(n as int) =~= ns.take(m as int) + seq![ns[m as int]]);
        lemma_tree_count_concat(ns.take(m as int), seq![ns[m as int]]);
        lemma_prepend_count(ns[m as int], Seq::<NodeView>::empty());
        assert(seq![ns[m as int]] + Seq::<NodeView>::empty() =~= seq![ns[m as int]]);
        assert(tree_count(Seq::<NodeView>::empty()) == 0);
    }
}

proof fn lemma_sort_nodes_count(ns: Seq<NodeView>)
    ensures
        tree_count(sort_nodes(ns)) == tree_count(ns),
{
    lemma_count_sort_order(ns, node_keys(ns), ns.len());
    lemma_sort_order_range(node_keys(ns), ns.len());
    assert(sort_nodes(ns) =~= pick(ns, sort_order(node_keys(ns), ns.len())));
    assert(ns.take(ns.len() as int) =~= ns);
}

proof fn lemma_prepend_count(x: NodeView, ns: Seq<NodeView>)
    ensures
        tree_count(seq![x] + ns) == 1 + child_count(x) + tree_count(ns),
{
    let s = seq![x] + ns;
    assert(s[0] == x);
    assert(s.subrange(1, s.len() as int) =~= ns);
}

proof fn lemma_entries_count(es: Seq<RawEntry>, depth: nat, max_depth: nat, budget: nat)
    ensures
        build_entries(es, depth, max_depth, budget).1 <= budget,
        tree_count(build_entries(es, depth, max_depth, budget).0) == budget - build_entries(es, depth, max_depth, budget).1,
    decreases max_depth - depth, 0nat, es.len(),
{
    if depth >= max_depth || es.len() == 0 || budget == 0 {
    } else {
        let e = es[0];
        let rest = es.drop_first();
        match e.kind {
            RawKind::Unknown => lemma_entries_count(rest, depth, max_depth, budget),
            RawKind::Dir(sub) => {
                if ignored_dirs().contains(e.name@) {
                    lemma_entries_count(rest, depth, max_depth, budget);
                } else {
                    let d = build_dir(e.name@, e.path@, sub@, depth + 1, max_depth, (budget - 1) as nat);
                    lemma_dir_count(e.name@, e.path@, sub@, depth + 1, max_depth, (budget - 1) as nat);
                    lemma_entries_count(rest, depth, max_depth, d.1);
                    lemma_prepend_count(d.0, build_entries(rest, depth, max_depth, d.1).0);
                }
            },
            RawKind::File(meta) => {
                if skipped_file(e.name@) {
                    lemma_entries_count(rest, depth, max_depth, budget);
                } else {
                    let r = build_entries(rest, depth, max_depth, (budget - 1) as nat);
                    lemma_entries_count(rest, depth, max_depth, (budget - 1) as nat);
                    lemma_prepend_count(file_view(e.name@, e.path@, meta), r.0);
                }
            },
        }
    }
}

proof fn lemma_dir_count(name: Seq<char>, path: Seq<char>, es: Seq<RawEntry>, depth: nat, max_depth: nat, budget: nat)
    ensures
        build_dir(name, path, es, depth, max_depth, budget).1 <= budget,
        child_count(build_dir(name, path, es, depth, max_depth, budget).0) == budget - build_dir(
            name,
            path,
            es,
            depth,
            max_depth,
            budget,
        ).1,
    decreases max_depth - depth, 1nat, es.len(),
{
    lemma_entries_count(es, depth, max_depth, budget);
    lemma_sort_nodes_count(build_entries(es, depth, max_depth, budget).0);
}

/// The tree holds at most [`MAX_NODES`] nodes below its root.
pub proof fn lemma_tree_bounded(root: Seq<char>, entries: Seq<RawEntry>, max_depth: nat)
    ensures
        child_count(tree_spec(root, entries, max_depth)) <= MAX_NODES,
{
    lemma_dir_count(root_name(root), root, entries, 0, max_depth, MAX_NODES as nat);
}

/// The directories left out of the tree are exactly `node_modules`,
/// `target`, `dist`, `__pycache__` and `.git`.
pub proof fn lemma_ignored_dirs_exactly(name: Seq<char>)
    ensures
        ignored_dirs().contains(name) <==> (name == "node_modules"@ || name == "target"@ || name == "dist"@
            || name == "__pycache__"@ || name == ".git"@),
{
    let d = ignored_dirs();
    if d.contains(name) {
        let k = choose|k: int| 0 <= k < d.len() && d[k] == name;
        assert(k == 0 || k == 1 || k == 2 || k == 3 || k == 4);
    }
    if name == "node_modules"@ {
        assert(d[0] == name);
    } else if name == "target"@ {
        assert(d[1] == name);
    } else if name == "dist"@ {
        assert(d[2] == name);
    } else if name == "__pycache__"@ {
        assert(d[3] == name);
    } else if name == ".git"@ {
        assert(d[4] == name);
    }
}

proof fn lemma_entries_keep_dirs(es: Seq<RawEntry>, depth: nat, max_depth: nat, budget: nat)
    requires
        depth < max_depth,
        build_entries(es, depth, max_depth, budget).1 > 0,
    ensures
        forall|i: int|
            0 <= i < es.len() && (#[trigger] es[i]).kind is Dir && !ignored_dirs().contains(es[i].name@) ==> exists|k: int|
                0 <= k < build_entries(es, depth, max_depth, budget).0.len()
                    && (#[trigger] build_entries(es, depth, max_depth, budget).0[k]).is_dir
                    && build_entries(es, depth, max_depth, budget).0[k].name == es[i].name@
                    && build_entries(es, depth, max_depth, budget).0[k].path == es[i].path@,
    decreases es.len(),
{
    lemma_entries_count(es, depth, max_depth, budget);
    if es.len() > 0 {
        let e = es[0];
        let rest = es.drop_first();
        let res = build_entries(es, depth, max_depth, budget).0;
        match e.kind {
            RawKind::Unknown => {
                lemma_entries_keep_dirs(rest, depth, max_depth, budget);
                assert forall|i: int|
                    0 <= i < es.len() && (#[trigger] es[i]).kind is Dir && !ignored_dirs().contains(es[i].name@) implies exists|k: int|
                        0 <= k < res.len() && (#[trigger] res[k]).is_dir && res[k].name == es[i].name@ && res[k].path == es[i].path@ by {
                    assert(rest[i - 1] == es[i]);
                }
            },
            RawKind::Dir(sub) => {
                if ignored_dirs().contains(e.name@) {
                    lemma_entries_keep_dirs(rest, depth, max_depth, budget);
                    assert forall|i: int|
                        0 <= i < es.len() && (#[trigger] es[i]).kind is Dir && !ignored_dirs().contains(es[i].name@) implies exists|k: int|
                            0 <= k < res.len() && (#[trigger] res[k]).is_dir && res[k].name == es[i].name@ && res[k].path == es[i].path@ by {
                        assert(rest[i - 1] == es[i]);
                    }
                } else {
                    let d = build_dir(e.name@, e.path@, sub@, depth + 1, max_depth, (budget - 1) as nat);
                    let r = build_entries(rest, depth, max_depth, d.1);
                    lemma_entries_keep_dirs(rest, depth, max_depth, d.1);
                    assert(res == seq![d.0] + r.0);
                    assert forall|i: int|
                        0 <= i < es.len() && (#[trigger] es[i]).kind is Dir && !ignored_dirs().contains(es[i].name@) implies exists|k: int|
                            0 <= k < res.len() && (#[trigger] res[k]).is_dir && res[k].name == es[i].name@ && res[k].path == es[i].path@ by {
                        if i == 0 {
                            assert(res[0] == d.0);
                        } else {
                            assert(rest[i - 1] == es[i]);
                            let k = choose|k: int| 0 <= k < r.0.len() && (#[trigger] r.0[k]).is_dir && r.0[k].name == rest[i - 1].name@
                                && r.0[k].path == rest[i - 1].path@;
                            assert(res[k + 1] == r.0[k]);
                        }
                    }
                }
            },
            RawKind::File(meta) => {
                if skipped_file(e.name@) {
                    lemma_entries_keep_dirs(rest, depth, max_depth, budget);
                    assert forall|i: int|
                        0 <= i < es.len() && (#[trigger] es[i]).kind is Dir && !ignored_dirs().contains(es[i].name@) implies exists|k: int|
                            0 <= k < res.len() && (#[trigger] res[k]).is_dir && res[k].name == es[i].name@ && res[k].path == es[i].path@ by {
                        assert(rest[i - 1] == es[i]);
                    }
                } else {
                    let r = build_entries(rest, depth, max_depth, (budget - 1) as nat);
                    lemma_entries_keep_dirs(rest, depth, max_depth, (budget - 1) as nat);
                    assert(res == seq![file_view(e.name@, e.path@, meta)] + r.0);
                    assert forall|i: int|
                        0 <= i < es.len() && (#[trigger] es[i]).kind is Dir && !ignored_dirs().contains(es[i].name@) implies exists|k: int|
                            0 <= k < res.len() && (#[trigger] res[k]).is_dir && res[k].name == es[i].name@ && res[k].path == es[i].path@ by {
                        if i > 0 {
                            assert(rest[i - 1] == es[i]);
                            let k = choose|k: int| 0 <= k < r.0.len() && (#[trigger] r.0[k]).is_dir && r.0[k].name == rest[i - 1].name@
                                && r.0[k].path == rest[i - 1].path@;
                            assert(res[k + 1] == r.0[k]);
                        }
                    }
                }
            },
        }
    }
}

proof fn lemma_entries_keep_files(es: Seq<RawEntry>, depth: nat, max_depth: nat, budget: nat)
    requires
        depth < max_depth,
        build_entries(es, depth, max_depth, budget).1 > 0,
    ensures
        forall|i: int|
            0 <= i < es.len() && (#[trigger] es[i]).kind is File && !skipped_file(es[i].name@) ==> exists|k: int|
                0 <= k < build_entries(es, depth, max_depth, budget).0.len()
                    && (#[trigger] build_entries(es, depth, max_depth, budget).0[k]).is_dir == false
                    && build_entries(es, depth, max_depth, budget).0[k].name == es[i].name@
                    && build_entries(es, depth, max_depth, budget).0[k].path == es[i].path@,
    decreases es.len(),
{
    lemma_entries_count(es, depth, max_depth, budget);
    if es.len() > 0 {
        let e = es[0];
        let rest = es.drop_first();
        let res = build_entries(es, depth, max_depth, budget).0;
        match e.kind {
            RawKind::Unknown => {
                lemma_entries_keep_files(rest, depth, max_depth, budget);
                assert forall|i: int|
                    0 <= i < es.len() && (#[trigger] es[i]).kind is File && !skipped_file(es[i].name@) implies exists|k: int|
                        0 <= k < res.len() && !(#[trigger] res[k]).is_dir && res[k].name == es[i].name@ && res[k].path == es[i].path@ by {
                    assert(rest[i - 1] == es[i]);
                }
            },
            RawKind::Dir(sub) => {
                if ignored_dirs().contains(e.name@) {
                    lemma_entries_keep_files(rest, depth, max_depth, budget);
                    assert forall|i: int|
                        0 <= i < es.len() && (#[trigger] es[i]).kind is File && !skipped_file(es[i].name@) implies exists|k: int|
                            0 <= k < res.len() && !(#[trigger] res[k]).is_dir && res[k].name == es[i].name@ && res[k].path == es[i].path@ by {
                        assert(rest[i - 1] == es[i]);
                    }
                } else {
                    let d = build_dir(e.name@, e.path@, sub@, depth + 1, max_depth, (budget - 1) as nat);
                    let r = build_entries(rest, depth, max_depth, d.1);
                    lemma_entries_keep_files(rest, depth, max_depth, d.1);
                    assert(res == seq![d.0] + r.0);
                    assert forall|i: int|
                        0 <= i < es.len() && (#[trigger] es[i]).kind is File && !skipped_file(es[i].name@) implies exists|k: int|
                            0 <= k < res.len() && !(#[trigger] res[k]).is_dir && res[k].name == es[i].name@ && res[k].path == es[i].path@ by {
                        if i > 0 {
                            assert(rest[i - 1] == es[i]);
                            let k = choose|k: int| 0 <= k < r.0.len() && !(#[trigger] r.0[k]).is_dir && r.0[k].name == rest[i - 1].name@
                                && r.0[k].path == rest[i - 1].path@;
                            assert(res[k + 1] == r.0[k]);
                        }
                    }
                }
            },
            RawKind::File(meta) => {
                if skipped_file(e.name@) {
                    lemma_entries_keep_files(rest, depth, max_depth, budget);
                    assert forall|i: int|
                        0 <= i < es.len() && (#[trigger] es[i]).kind is File && !skipped_file(es[i].name@) implies exists|k: int|
                            0 <= k < res.len() && !(#[trigger] res[k]).is_dir && res[k].name == es[i].name@ && res[k].path == es[i].path@ by {
                        assert(rest[i - 1] == es[i]);
                    }
                } else {
                    let r = build_entries(rest, depth, max_depth, (budget - 1) as nat);
                    lemma_entries_keep_files(rest, depth, max_depth, (budget - 1) as nat);
                    assert(res == seq![file_view(e.name@, e.path@, meta)] + r.0);
                    assert forall|i: int|
                        0 <= i < es.len() && (#[trigger] es[i]).kind is File && !skipped_file(es[i].name@) implies exists|k: int|
                            0 <= k < res.len() && !(#[trigger] res[k]).is_dir && res[k].name == es[i].name@ && res[k].path == es[i].path@ by {
                        if i == 0 {
                            assert(res[0] == file_view(e.name@, e.path@, meta));
                        } else {
                            assert(rest[i - 1] == es[i]);
                            let k = choose|k: int| 0 <= k < r.0.len() && !(#[trigger] r.0[k]).is_dir && r.0[k].name == rest[i - 1].name@
                                && r.0[k].path == rest[i - 1].path@;
                            assert(res[k + 1] == r.0[k]);
                        }
                    }
                }
            },
        }
    }
}

/// While the tree stays below its node budget and is at least one level
/// deep, every directory listed under the root whose name is not
/// `node_modules`, `target`, `dist`, `__pycache__` or `.git` is shown among
/// the root's children, under its own name and path.
pub proof fn lemma_tree_shows_other_dirs(root: Seq<char>, entries: Seq<RawEntry>, max_depth: nat)
    requires
        max_depth > 0,
        child_count(tree_spec(root, entries, max_depth)) < MAX_NODES,
    ensures
        forall|i: int|
            0 <= i < entries.len() && (#[trigger] entries[i]).kind is Dir && !(entries[i].name@ == "node_modules"@
                || entries[i].name@ == "target"@ || entries[i].name@ == "dist"@ || entries[i].name@ == "__pycache__"@
                || entries[i].name@ == ".git"@) ==> exists|k: int|
                0 <= k < tree_spec(root, entries, max_depth).children->0.len()
                    && (#[trigger] tree_spec(root, entries, max_depth).children->0[k]).is_dir
                    && tree_spec(root, entries, max_depth).children->0[k].name == entries[i].name@
                    && tree_spec(root, entries, max_depth).children->0[k].path == entries[i].path@,
{
    let b = MAX_NODES as nat;
    lemma_dir_count(root_name(root), root, entries, 0, max_depth, b);
    let ns = build_entries(entries, 0, max_depth, b).0;
    lemma_entries_keep_dirs(entries, 0, max_depth, b);
    lemma_children_ordered(ns);
    let o = sort_order(node_keys(ns), ns.len());
    let c = tree_spec(root, entries, max_depth).children->0;
    assert(c == sort_nodes(ns));
    assert forall|i: int|
        0 <= i < entries.len() && (#[trigger] entries[i]).kind is Dir && !(entries[i].name@ == "node_modules"@
            || entries[i].name@ == "target"@ || entries[i].name@ == "dist"@ || entries[i].name@ == "__pycache__"@
            || entries[i].name@ == ".git"@) implies exists|k: int|
            0 <= k < c.len() && (#[trigger] c[k]).is_dir && c[k].name == entries[i].name@ && c[k].path == entries[i].path@ by {
        lemma_ignored_dirs_exactly(entries[i].name@);
        let k = choose|k: int| 0 <= k < ns.len() && (#[trigger] ns[k]).is_dir && ns[k].name == entries[i].name@
            && ns[k].path == entries[i].path@;
        assert(o.contains(k as nat));
        let j = choose|j: int| 0 <= j < o.len() && o[j] == k as nat;
        assert(c[j] == ns[k]);
    }
}

/// While the tree stays below its node budget and is at least one level
/// deep, every file listed under the root whose name does not start with
/// `~$` is shown among the root's children, under its own name and path.
pub proof fn lemma_tree_shows_files(root: Seq<char>, entries: Seq<RawEntry>, max_depth: nat)
    requires
        max_depth > 0,
        child_count(tree_spec(root, entries, max_depth)) < MAX_NODES,
    ensures
        forall|i: int|
            0 <= i < entries.len() && (#[trigger] entries[i]).kind is File && !(entries[i].name@.len() >= 2
                && entries[i].name@[0] == '~' && entries[i].name@[1] == '$') ==> exists|k: int|
                0 <= k < tree_spec(root, entries, max_depth).children->0.len()
                    && !(#[trigger] tree_spec(root, entries, max_depth).children->0[k]).is_dir
                    && tree_spec(root, entries, max_depth).children->0[k].name == entries[i].name@
                    && tree_spec(root, entries, max_depth).children->0[k].path == entries[i].path@,
{
    let b = MAX_NODES as nat;
    lemma_dir_count(root_name(root), root, entries, 0, max_depth, b);
    let ns = build_entries(entries, 0, max_depth, b).0;
    lemma_entries_keep_files(entries, 0, max_depth, b);
    lemma_children_ordered(ns);
    let o = sort_order(node_keys(ns), ns.len());
    let c = tree_spec(root, entries, max_depth).children->0;
    assert(c == sort_nodes(ns));
    assert forall|i: int|
        0 <= i < entries.len() && (#[trigger] entries[i]).kind is File && !(entries[i].name@.len() >= 2
            && entries[i].name@[0] == '~' && entries[i].name@[1] == '$') implies exists|k: int|
            0 <= k < c.len() && !(#[trigger] c[k]).is_dir && c[k].name == entries[i].name@ && c[k].path == entries[i].path@ by {
        let k = choose|k: int| 0 <= k < ns.len() && !(#[trigger] ns[k]).is_dir && ns[k].name == entries[i].name@
            && ns[k].path == entries[i].path@;
        assert(o.contains(k as nat));
        let j = choose|j: int| 0 <= j < o.len() && o[j] == k as nat;
        assert(c[j] == ns[k]);
    }
}

} // verus!
