//! Paths as sequences of components, and the prefix relation between them
//! that `Path::starts_with` decides.
use vstd::prelude::*;
use crate::text::{chars_eq, chars_starts_with, slice_range, starts_with, str_chars};

verus! {

/// A path written the Unix way: it starts with `/`. Such a path separates
/// its components with `/` alone and has no prefix.
pub open spec fn unix_form(s: Seq<char>) -> bool {
    s.len() > 0 && s[0] == '/'
}

/// `\\?\`: a Windows verbatim path, where only `\` separates.
pub open spec fn verbatim_head() -> Seq<char> {
    seq!['\\', '\\', '?', '\\']
}

/// How a path separates its components: `0` Unix (`/`), `1` Windows (`/`
/// or `\`), `2` Windows verbatim (`\`).
pub open spec fn sep_mode(s: Seq<char>) -> nat {
    if unix_form(s) { 0 } else if starts_with(s, verbatim_head()) { 2 } else { 1 }
}

/// A path separator in the given mode.
pub open spec fn is_sep(c: char, mode: nat) -> bool {
    (c == '/' && mode != 2) || (c == '\\' && mode != 0)
}

/// Index of the first separator in `s`, or `s.len()`.
pub open spec fn first_sep(s: Seq<char>, mode: nat) -> nat
    decreases s.len(),
{
    if s.len() == 0 {
        0
    } else if is_sep(s[0], mode) {
        0
    } else {
        1 + first_sep(s.drop_first(), mode)
    }
}

/// Length of the Windows prefix that opens `s` (`Path`'s `Prefix`
/// component), 0 when there is none: `\\?\UNC\server\share`, `\\?\X:` (a
/// drive followed by a separator or nothing), `\\?\name`, `\\.\name`,
/// `\\server\share` (both parts non-empty) or a drive `X:`.
pub open spec fn prefix_len(s: Seq<char>) -> nat {
    if unix_form(s) {
        0
    } else if starts_with(s, seq!['\\', '\\', '?', '\\', 'U', 'N', 'C', '\\']) {
        let r = s.skip(8);
        let a = first_sep(r, 2);
        if a < r.len() {
            let share = first_sep(r.skip(a as int + 1), 2);
            if share > 0 { 8 + a + 1 + share } else { 8 + a }
        } else {
            8 + a
        }
    } else if starts_with(s, verbatim_head()) {
        if s.len() >= 6 && s[5] == ':' && (('a' <= s[4] && s[4] <= 'z') || ('A' <= s[4] && s[4] <= 'Z'))
            && (s.len() == 6 || s[6] == '/' || s[6] == '\\') {
            6
        } else {
            4 + first_sep(s.skip(4), 2)
        }
    } else if starts_with(s, seq!['\\', '\\', '.', '\\']) {
        4 + first_sep(s.skip(4), 1)
    } else if starts_with(s, seq!['\\', '\\']) {
        let r = s.skip(2);
        let a = first_sep(r, 1);
        if a > 0 && a < r.len() {
            let share = first_sep(r.skip(a as int + 1), 1);
            if share > 0 { 2 + a + 1 + share } else { 0 }
        } else {
            0
        }
    } else if s.len() >= 2 && s[1] == ':' && (('a' <= s[0] && s[0] <= 'z') || ('A' <= s[0] && s[0] <= 'Z')) {
        2
    } else {
        0
    }
}

/// Whether a separator stands right after the prefix: the root directory
/// written out. A Windows path may write it as `/` or `\`, a verbatim one
/// too.
pub open spec fn phys_root(s: Seq<char>) -> bool {
    let k = prefix_len(s);
    k < s.len() && (s[k as int] == '/' || (s[k as int] == '\\' && !unix_form(s)))
}

/// Whether the path has a root directory: one written out after its
/// prefix, or the implicit root of a `\\server\share` or `\\.\name` prefix.
pub open spec fn has_root(s: Seq<char>) -> bool {
    (prefix_len(s) > 0 && sep_mode(s) == 1 && starts_with(s, seq!['\\', '\\'])) || phys_root(s)
}

/// Where the ordinary components begin: after the prefix and after the
/// root directory when it is written out.
pub open spec fn body_start(s: Seq<char>) -> nat {
    prefix_len(s) + if phys_root(s) { 1nat } else { 0nat }
}

/// A relative path without prefix that opens with `.` alone keeps that `.`
/// as its first component (`CurDir`).
pub open spec fn lead_cur(s: Seq<char>) -> bool {
    prefix_len(s) == 0 && !has_root(s) && s.len() > 0 && s[0] == '.' && (s.len() == 1 || is_sep(s[1], sep_mode(s)))
}

/// The components that open a path: its prefix (`:` then its text), its
/// root directory (`/`), and a leading current directory (`.`).
pub open spec fn head(s: Seq<char>) -> Seq<Seq<char>> {
    let k = prefix_len(s);
    (if k > 0 { seq![seq![':'] + s.take(k as int)] } else { seq![] }) + (if has_root(s) { seq![seq!['/']] } else { seq![] })
        + (if lead_cur(s) { seq![seq!['.']] } else { seq![] })
}

/// A finished component between separators: none when empty; `.` is kept
/// (as the current directory, `.`) only in a verbatim path and dropped
/// elsewhere; any other text is an ordinary component (`n` then its name).
pub open spec fn seg(cur: Seq<char>, mode: nat) -> Seq<Seq<char>> {
    if cur.len() == 0 {
        seq![]
    } else if cur == seq!['.'] {
        if mode == 2 { seq![seq!['.']] } else { seq![] }
    } else {
        seq![seq!['n'] + cur]
    }
}

/// The components of the text `s` when the pending component so far is
/// `cur`: separators end a component (see [`seg`]).
pub open spec fn comps_acc(s: Seq<char>, cur: Seq<char>, mode: nat) -> Seq<Seq<char>>
    decreases s.len(),
{
    if s.len() == 0 {
        seg(cur, mode)
    } else if is_sep(s[0], mode) {
        seg(cur, mode) + comps_acc(s.drop_first(), seq![], mode)
    } else {
        comps_acc(s.drop_first(), cur.push(s[0]), mode)
    }
}

/// The components of a path text, as `Path::components` gives them: the
/// prefix, the root directory, a leading current directory, then the other
/// components. Each is tagged by its first character: `:` a prefix, `/`
/// the root, `.` the current directory, `n` an ordinary name; the text
/// after the tag is the component's own text.
pub open spec fn components(s: Seq<char>) -> Seq<Seq<char>> {
    head(s) + comps_acc(s.skip(body_start(s) as int), seq![], sep_mode(s))
}

proof fn lemma_comps_acc_tagged(s: Seq<char>, cur: Seq<char>, mode: nat)
    ensures
        forall|i: int| 0 <= i < comps_acc(s, cur, mode).len() ==> #[trigger] comps_acc(s, cur, mode)[i].len() >= 1,
    decreases s.len(),
{
    assert forall|i: int| 0 <= i < seg(cur, mode).len() implies #[trigger] seg(cur, mode)[i].len() >= 1 by {
        if cur != seq!['.'] {
            assert(seg(cur, mode)[i] == seq!['n'] + cur);
        }
    }
    if s.len() > 0 {
        if is_sep(s[0], mode) {
            lemma_comps_acc_tagged(s.drop_first(), seq![], mode);
            let a = seg(cur, mode);
            let b = comps_acc(s.drop_first(), seq![], mode);
            assert(comps_acc(s, cur, mode) == a + b);
            assert forall|i: int| 0 <= i < (a + b).len() implies #[trigger] (a + b)[i].len() >= 1 by {
                if i >= a.len() {
                    assert((a + b)[i] == b[i - a.len()]);
                } else {
                    assert((a + b)[i] == a[i]);
                }
            }
        } else {
            lemma_comps_acc_tagged(s.drop_first(), cur.push(s[0]), mode);
            assert(comps_acc(s, cur, mode) == comps_acc(s.drop_first(), cur.push(s[0]), mode));
        }
    } else {
        assert(comps_acc(s, cur, mode) == seg(cur, mode));
    }
}

/// Every component carries its tag, so none is empty.
pub proof fn lemma_components_tagged(s: Seq<char>)
    ensures
        forall|i: int| 0 <= i < components(s).len() ==> #[trigger] components(s)[i].len() >= 1,
{
    let k = body_start(s);
    lemma_comps_acc_tagged(s.skip(k as int), seq![], sep_mode(s));
    let a = head(s);
    let b = comps_acc(s.skip(k as int), seq![], sep_mode(s));
    assert forall|i: int| 0 <= i < (a + b).len() implies #[trigger] (a + b)[i].len() >= 1 by {
        if i >= a.len() {
            assert((a + b)[i] == b[i - a.len()]);
        } else {
            assert((a + b)[i] == a[i]);
        }
    }
}

/// The own text of each component (its tag dropped).
pub open spec fn comp_texts(c: Seq<Seq<char>>) -> Seq<Seq<char>> {
    c.map_values(|x: Seq<char>| x.drop_first())
}

/// Component-wise prefix: `p` lies at or below `base`.
pub open spec fn is_under(p: Seq<Seq<char>>, base: Seq<Seq<char>>) -> bool {
    base.len() <= p.len() && p.subrange(0, base.len() as int) == base
}

/// The views of a vector of character vectors.
pub open spec fn dv(v: Seq<Vec<char>>) -> Seq<Seq<char>> {
    v.map_values(|x: Vec<char>| x@)
}

pub proof fn lemma_is_under_trans(a: Seq<Seq<char>>, b: Seq<Seq<char>>, c: Seq<Seq<char>>)
    requires
        is_under(a, b),
        is_under(b, c),
    ensures
        is_under(a, c),
{
    assert(a.subrange(0, c.len() as int) =~= b.subrange(0, c.len() as int));
}

proof fn lemma_first_sep(s: Seq<char>, mode: nat, j: int)
    requires
        0 <= j <= s.len(),
        forall|k: int| 0 <= k < j ==> !is_sep(#[trigger] s[k], mode),
        j == s.len() || is_sep(s[j], mode),
    ensures
        first_sep(s, mode) == j,
    decreases j,
{
    if j > 0 {
        let t = s.drop_first();
        assert forall|k: int| 0 <= k < j - 1 implies !is_sep(#[trigger] t[k], mode) by {
            assert(t[k] == s[k + 1]);
        }
        if j < s.len() {
            assert(t[j - 1] == s[j]);
        }
        lemma_first_sep(t, mode, j - 1);
    }
}

fn sep_exec(c: char, mode: u8) -> (r: bool)
    ensures
        r == is_sep(c, mode as nat),
{
    (c == '/' && mode != 2) || (c == '\\' && mode != 0)
}

/// First separator at or after `start`, or `v.len()`.
fn first_sep_from(v: &[char], start: usize, mode: u8) -> (r: usize)
    requires
        start <= v@.len(),
    ensures
        start <= r <= v@.len(),
        r - start == first_sep(v@.skip(start as int), mode as nat),
{
    let mut j = start;
    while j < v.len() && !sep_exec(v[j], mode)
        invariant
            start <= j <= v@.len(),
            forall|k: int| start <= k < j ==> !is_sep(#[trigger] v@[k], mode as nat),
        decreases v@.len() - j,
    {
        j = j + 1;
    }
    proof {
        let t = v@.skip(start as int);
        assert forall|k: int| 0 <= k < j - start implies !is_sep(#[trigger] t[k], mode as nat) by {
            assert(t[k] == v@[k + start]);
        }
        if j < v@.len() {
            assert(t[j - start] == v@[j as int]);
        }
        lemma_first_sep(t, mode as nat, j - start);
    }
    j
}

fn prefix_len_exec(v: &[char]) -> (r: usize)
    ensures
        r == prefix_len(v@),
        r <= v@.len(),
{
    let n = v.len();
    if n > 0 && v[0] == '/' {
        return 0;
    }
    let vunc: Vec<char> = vec!['\\', '\\', '?', '\\', 'U', 'N', 'C', '\\'];
    let vhead: Vec<char> = vec!['\\', '\\', '?', '\\'];
    let dev: Vec<char> = vec!['\\', '\\', '.', '\\'];
    let unc: Vec<char> = vec!['\\', '\\'];
    proof {
        assert(vunc@ =~= seq!['\\', '\\', '?', '\\', 'U', 'N', 'C', '\\']);
        assert(vhead@ =~= verbatim_head());
        assert(dev@ =~= seq!['\\', '\\', '.', '\\']);
        assert(unc@ =~= seq!['\\', '\\']);
    }
    if chars_starts_with(v, vunc.as_slice()) {
        let a = first_sep_from(v, 8, 2);
        proof {
            assert(v@.skip(8).len() == n - 8);
        }
        if a < n {
            let sh = first_sep_from(v, a + 1, 2);
            proof {
                assert(v@.skip(8).skip(a - 8 + 1) =~= v@.skip(a + 1));
            }
            if sh > a + 1 { sh } else { a }
        } else {
            a
        }
    } else if chars_starts_with(v, vhead.as_slice()) {
        if n >= 6 && v[5] == ':' && (('a' <= v[4] && v[4] <= 'z') || ('A' <= v[4] && v[4] <= 'Z'))
            && (n == 6 || v[6] == '/' || v[6] == '\\') {
            6
        } else {
            first_sep_from(v, 4, 2)
        }
    } else if chars_starts_with(v, dev.as_slice()) {
        first_sep_from(v, 4, 1)
    } else if chars_starts_with(v, unc.as_slice()) {
        let a = first_sep_from(v, 2, 1);
        if a > 2 && a < n {
            let sh = first_sep_from(v, a + 1, 1);
            proof {
                assert(v@.skip(2).skip(a - 2 + 1) =~= v@.skip(a + 1));
            }
            if sh > a + 1 { sh } else { 0 }
        } else {
            0
        }
    } else if n >= 2 && v[1] == ':' && (('a' <= v[0] && v[0] <= 'z') || ('A' <= v[0] && v[0] <= 'Z')) {
        2
    } else {
        0
    }
}

/// Appends the finished component `cur` (see [`seg`]).
fn push_seg(out: &mut Vec<Vec<char>>, cur: Vec<char>, mode: u8)
    ensures
        dv(final(out)@) == dv(old(out)@) + seg(cur@, mode as nat),
{
    let ghost old_out = dv(out@);
    let ghost c = cur@;
    if cur.len() == 0 {
        assert(dv(out@) =~= old_out + seg(c, mode as nat));
    } else if cur.len() == 1 && cur[0] == '.' {
        assert(c =~= seq!['.']);
        if mode == 2 {
            let d: Vec<char> = vec!['.'];
            assert(d@ =~= seq!['.']);
            out.push(d);
        }
        assert(dv(out@) =~= old_out + seg(c, mode as nat));
    } else {
        proof {
            if c == seq!['.'] {
                assert(c[0] == '.');
            }
        }
        let mut cur = cur;
        let mut t: Vec<char> = vec!['n'];
        t.append(&mut cur);
        assert(t@ =~= seq!['n'] + c);
        out.push(t);
        assert(dv(out@) =~= old_out + seg(c, mode as nat));
    }
}

/// Splits a path text into its components (see [`components`]).
pub fn path_components(s: &str) -> (r: Vec<Vec<char>>)
    ensures
        dv(r@) == components(s@),
{
    let v = str_chars(s);
    let vhead: Vec<char> = vec!['\\', '\\', '?', '\\'];
    let unc: Vec<char> = vec!['\\', '\\'];
    proof {
        assert(vhead@ =~= verbatim_head());
        assert(unc@ =~= seq!['\\', '\\']);
    }
    let mode: u8 = if v.len() > 0 && v[0] == '/' {
        0
    } else if chars_starts_with(v.as_slice(), vhead.as_slice()) {
        2
    } else {
        1
    };
    let k = prefix_len_exec(v.as_slice());
    let mut out: Vec<Vec<char>> = Vec::new();
    if k > 0 {
        let mut p: Vec<char> = vec![':'];
        let mut t = slice_range(v.as_slice(), 0, k);
        p.append(&mut t);
        assert(p@ =~= seq![':'] + s@.take(k as int));
        out.push(p);
    }
    let implicit = k > 0 && mode == 1 && chars_starts_with(v.as_slice(), unc.as_slice());
    let phys = k < v.len() && (v[k] == '/' || (v[k] == '\\' && mode != 0));
    proof {
        assert(mode as nat == sep_mode(s@));
        assert(phys == phys_root(s@));
        assert(implicit || phys <==> has_root(s@));
    }
    if implicit || phys {
        let r: Vec<char> = vec!['/'];
        assert(r@ =~= seq!['/']);
        out.push(r);
    }
    let cur_first = k == 0 && !(implicit || phys) && v.len() > 0 && v[0] == '.' && (v.len() == 1 || sep_exec(v[1], mode));
    proof {
        assert(cur_first == lead_cur(s@));
    }
    if cur_first {
        let d: Vec<char> = vec!['.'];
        assert(d@ =~= seq!['.']);
        out.push(d);
    }
    let start = if phys { k + 1 } else { k };
    proof {
        assert(start == body_start(s@));
        assert(dv(out@) =~= head(s@));
        assert(v@.subrange(start as int, v@.len() as int) =~= s@.skip(start as int));
    }
    let mut cur: Vec<char> = Vec::new();
    let mut i: usize = start;
    while i < v.len()
        invariant
            start <= i <= v@.len(),
            v@ == s@,
            mode as nat == sep_mode(s@),
            dv(out@) + comps_acc(v@.subrange(i as int, v@.len() as int), cur@, mode as nat) == components(s@),
        decreases v@.len() - i,
    {
        let c = v[i];
        let ghost rest = v@.subrange(i as int, v@.len() as int);
        proof {
            assert(rest[0] == c);
            assert(rest.drop_first() =~= v@.subrange(i + 1, v@.len() as int));
        }
        if sep_exec(c, mode) {
            let ghost before = dv(out@);
            let done = cur;
            let ghost d = done@;
            push_seg(&mut out, done, mode);
            cur = Vec::new();
            assert(cur@ =~= Seq::<char>::empty());
            assert(before + comps_acc(rest, d, mode as nat) == before + (seg(d, mode as nat) + comps_acc(rest.drop_first(), seq![], mode as nat)));
            assert(before + (seg(d, mode as nat) + comps_acc(rest.drop_first(), seq![], mode as nat)) =~= dv(out@) + comps_acc(rest.drop_first(), cur@, mode as nat));
        } else {
            cur.push(c);
        }
        i = i + 1;
    }
    proof {
        assert(v@.subrange(i as int, v@.len() as int) =~= Seq::<char>::empty());
    }
    push_seg(&mut out, cur, mode);
    out
}

/// Whether the path with components `p` lies at or below the one with
/// components `base` (`Path::starts_with`).
pub fn comps_under(p: &Vec<Vec<char>>, base: &Vec<Vec<char>>) -> (r: bool)
    ensures
        r == is_under(dv(p@), dv(base@)),
{
    if base.len() > p.len() {
        return false;
    }
    let mut i: usize = 0;
    while i < base.len()
        invariant
            i <= base@.len() <= p@.len(),
            forall|k: int| 0 <= k < i ==> p@[k]@ == base@[k]@,
        decreases base@.len() - i,
    {
        if !chars_eq(p[i].as_slice(), base[i].as_slice()) {
            assert(dv(p@).subrange(0, base@.len() as int)[i as int] != dv(base@)[i as int]);
            return false;
        }
        i = i + 1;
    }
    assert(dv(p@).subrange(0, base@.len() as int) =~= dv(base@));
    true
}

/// Index of the last `c` in `s`, or -1.
pub open spec fn last_index(s: Seq<char>, c: char) -> int
    decreases s.len(),
{
    if s.len() == 0 {
        -1
    } else if s.last() == c {
        s.len() - 1
    } else {
        last_index(s.drop_last(), c)
    }
}

/// `Path::file_name`: the name of the last component when it is an
/// ordinary one other than `..`; none for a bare prefix or root.
pub open spec fn file_name(s: Seq<char>) -> Option<Seq<char>> {
    let c = components(s);
    if c.len() == 0 || c.last().len() == 0 || c.last()[0] != 'n' || c.last().drop_first() == seq!['.', '.'] {
        None
    } else {
        Some(c.last().drop_first())
    }
}

/// The extension of a file name: what follows its last `.`, unless that
/// dot starts the name or there is none.
pub open spec fn name_extension(n: Seq<char>) -> Option<Seq<char>> {
    let li = last_index(n, '.');
    if li <= 0 { None } else { Some(n.skip(li + 1)) }
}

/// The stem of a file name: what precedes its last `.` (see [`name_extension`]).
pub open spec fn name_stem(n: Seq<char>) -> Seq<char> {
    let li = last_index(n, '.');
    if li <= 0 { n } else { n.take(li) }
}

/// `Path::extension`.
pub open spec fn extension(s: Seq<char>) -> Option<Seq<char>> {
    match file_name(s) {
        Some(n) => name_extension(n),
        None => None,
    }
}

/// `Path::file_stem`.
pub open spec fn file_stem(s: Seq<char>) -> Option<Seq<char>> {
    match file_name(s) {
        Some(n) => Some(name_stem(n)),
        None => None,
    }
}

proof fn lemma_last_index(s: Seq<char>, c: char, j: int)
    requires
        -1 <= j < s.len(),
        forall|k: int| j < k < s.len() ==> s[k] != c,
        j == -1 || s[j] == c,
    ensures
        last_index(s, c) == j,
    decreases s.len(),
{
    if s.len() > 0 && j < s.len() - 1 {
        let t = s.drop_last();
        assert forall|k: int| j < k < t.len() implies t[k] != c by {
            assert(t[k] == s[k]);
        }
        if j >= 0 {
            assert(t[j] == s[j]);
        }
        lemma_last_index(t, c, j);
    }
}

pub proof fn lemma_last_index_bound(s: Seq<char>, c: char)
    ensures
        -1 <= last_index(s, c) < s.len(),
    decreases s.len(),
{
    if s.len() > 0 && s.last() != c {
        lemma_last_index_bound(s.drop_last(), c);
    }
}

/// Position of the last `c` in `v`, if any.
pub fn last_index_of(v: &[char], c: char) -> (r: Option<usize>)
    ensures
        match r {
            Some(i) => last_index(v@, c) == i as int,
            None => last_index(v@, c) == -1,
        },
        r matches Some(i) ==> i < v@.len(),
{
    let mut j = v.len();
    while j > 0 && v[j - 1] != c
        invariant
            j <= v@.len(),
            forall|k: int| j <= k < v@.len() ==> v@[k] != c,
        decreases j,
    {
        j = j - 1;
    }
    if j == 0 {
        proof {
            lemma_last_index(v@, c, -1);
        }
        None
    } else {
        proof {
            lemma_last_index(v@, c, j - 1);
        }
        Some(j - 1)
    }
}

/// `Path::file_name` of a path text.
pub fn file_name_of(path: &str) -> (r: Option<Vec<char>>)
    ensures
        match r {
            Some(v) => file_name(path@) == Some(v@),
            None => file_name(path@) is None,
        },
{
    let mut comps = path_components(path);
    let n = comps.len();
    if n == 0 {
        return None;
    }
    let last = comps.remove(n - 1);
    proof {
        assert(last@ == components(path@).last());
    }
    if last.len() == 0 || last[0] != 'n' {
        return None;
    }
    let name = slice_range(last.as_slice(), 1, last.len());
    assert(name@ =~= last@.drop_first());
    if name.len() == 2 && name[0] == '.' && name[1] == '.' {
        proof {
            assert(name@ =~= seq!['.', '.']);
        }
        return None;
    }
    proof {
        if name@ == seq!['.', '.'] {
            assert(name@[0] == '.' && name@[1] == '.');
        }
    }
    Some(name)
}

/// `Path::extension` of a path text.
pub fn extension_of(path: &str) -> (r: Option<Vec<char>>)
    ensures
        match r {
            Some(v) => extension(path@) == Some(v@),
            None => extension(path@) is None,
        },
{
    match file_name_of(path) {
        None => None,
        Some(n) => match last_index_of(n.as_slice(), '.') {
            Some(i) => {
                if i == 0 {
                    None
                } else {
                    let k = n.len() - i - 1;
                    Some(crate::text::slice_range(n.as_slice(), n.len() - k, n.len()))
                }
            },
            None => None,
        },
    }
}

/// `Path::file_stem` of a path text.
pub fn file_stem_of(path: &str) -> (r: Option<Vec<char>>)
    ensures
        match r {
            Some(v) => file_stem(path@) == Some(v@),
            None => file_stem(path@) is None,
        },
{
    match file_name_of(path) {
        None => None,
        Some(n) => match last_index_of(n.as_slice(), '.') {
            Some(i) => {
                if i == 0 {
                    Some(n)
                } else {
                    Some(crate::text::slice_range(n.as_slice(), 0, i))
                }
            },
            None => Some(n),
        },
    }
}

} // verus!
