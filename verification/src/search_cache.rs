//! The on-disk cache of text extracted from Office documents.
//!
//! An entry is a header line `v1 <mtime_ms> <size>` followed by the
//! extracted text. A read is valid only when the version tag and the
//! fingerprint `(mtime_ms, size)` of the source file both match; anything
//! else makes the entry stale. The cache directory is kept under a byte
//! budget by evicting the oldest entries first.
use vstd::prelude::*;
use crate::num::{
    decimal, decimal_chars, digit_value, lemma_decimal_digits, lemma_parse_decimal, parse_unsigned, parse_unsigned_exec,
};
use crate::office::{first_index, find_from, lemma_first_index};
use crate::sort::{
    SortKey, insert_pos, key_lt, keys_view, lemma_insert_pos_bound, lemma_sort_order_range, lemma_sort_order_sorted,
    permutes, sort_indices, sort_order,
};
use crate::text::{char_from_ascii, chars_eq, slice_range, str_chars, string_from_chars};

verus! {

/// The version tag that opens every entry header.
pub open spec fn version_tag() -> Seq<char> {
    seq!['v', '1']
}

/// The header line of an entry for a file with fingerprint `(ms, size)`.
pub open spec fn header_spec(ms: nat, size: nat) -> Seq<char> {
    version_tag() + seq![' '] + decimal(ms) + seq![' '] + decimal(size) + seq!['\n']
}

/// The text before and after the first `c`, when `s` holds one.
pub open spec fn split_once(s: Seq<char>, c: char) -> Option<(Seq<char>, Seq<char>)> {
    let i = first_index(s, c);
    if i < s.len() {
        Some((s.take(i as int), s.skip(i as int + 1)))
    } else {
        None
    }
}

/// The `k`-th space-separated field of `s` (fields may be empty).
pub open spec fn field(s: Seq<char>, k: nat) -> Option<Seq<char>>
    decreases k,
{
    if k == 0 {
        Some(s.take(first_index(s, ' ') as int))
    } else {
        match split_once(s, ' ') {
            None => None,
            Some(p) => field(p.1, (k - 1) as nat),
        }
    }
}

/// The body of a cached entry, when its header carries the version tag and
/// the fingerprint `(ms, size)`: the first line's first field is the tag,
/// the second and third parse as an unsigned 128-bit and 64-bit number equal
/// to `ms` and `size`; further fields are ignored.
pub open spec fn payload_spec(cached: Seq<char>, ms: nat, size: nat) -> Option<Seq<char>> {
    match split_once(cached, '\n') {
        None => None,
        Some(p) => {
            let head = p.0;
            let ok = match (field(head, 0), field(head, 1), field(head, 2)) {
                (Some(f0), Some(f1), Some(f2)) => f0 == version_tag() && parse_unsigned(f1, 10, u128::MAX as nat)
                    == Some(ms) && parse_unsigned(f2, 10, u64::MAX as nat) == Some(size),
                _ => false,
            };
            if ok {
                Some(p.1)
            } else {
                None
            }
        },
    }
}

fn split_once_chars(v: &[char], c: char) -> (r: Option<(Vec<char>, Vec<char>)>)
    ensures
        r is Some <==> split_once(v@, c) is Some,
        r matches Some(p) ==> split_once(v@, c) == Some((p.0@, p.1@)),
{
    let i = find_from(v, 0, c);
    proof {
        assert(v@.skip(0) =~= v@);
    }
    if i < v.len() {
        let a = slice_range(v, 0, i);
        let b = slice_range(v, i + 1, v.len());
        assert(a@ =~= v@.take(i as int));
        assert(b@ =~= v@.skip(i + 1));
        Some((a, b))
    } else {
        None
    }
}

fn field_chars(s: &[char], k: usize) -> (r: Option<Vec<char>>)
    ensures
        r is Some <==> field(s@, k as nat) is Some,
        r matches Some(f) ==> field(s@, k as nat) == Some(f@),
    decreases k,
{
    if k == 0 {
        let j = find_from(s, 0, ' ');
        proof {
            assert(s@.skip(0) =~= s@);
        }
        let f = slice_range(s, 0, j);
        assert(f@ =~= s@.take(j as int));
        Some(f)
    } else {
        match split_once_chars(s, ' ') {
            None => None,
            Some(p) => field_chars(p.1.as_slice(), k - 1),
        }
    }
}

/// The header line of an entry for a file with fingerprint `fp`
/// (`mtime_ms`, byte size).
pub fn header(fp: (u128, u64)) -> (r: String)
    ensures
        r@ == header_spec(fp.0 as nat, fp.1 as nat),
{
    let mut v: Vec<char> = Vec::new();
    v.push('v');
    v.push('1');
    v.push(' ');
    let mut a = decimal_chars(fp.0);
    v.append(&mut a);
    v.push(' ');
    let mut b = decimal_chars(fp.1 as u128);
    v.append(&mut b);
    v.push('\n');
    assert(v@ =~= header_spec(fp.0 as nat, fp.1 as nat));
    string_from_chars(v.as_slice())
}

/// What is written to the cache for a file with fingerprint `fp` whose
/// extracted text is `text`: the header line, then the text.
pub fn cache_entry(fp: (u128, u64), text: &str) -> (r: String)
    ensures
        r@ == header_spec(fp.0 as nat, fp.1 as nat) + text@,
{
    let h = header(fp);
    let mut v = str_chars(h.as_str());
    let mut t = str_chars(text);
    v.append(&mut t);
    string_from_chars(v.as_slice())
}

/// The body of the cached entry `cached` when its header is valid for the
/// fingerprint `fp` (see [`payload_spec`]), else `None`.
pub fn payload_if_valid(cached: &str, fp: (u128, u64)) -> (r: Option<String>)
    ensures
        r is Some <==> payload_spec(cached@, fp.0 as nat, fp.1 as nat) is Some,
        r matches Some(t) ==> payload_spec(cached@, fp.0 as nat, fp.1 as nat) == Some(t@),
{
    let v = str_chars(cached);
    let (head, body) = match split_once_chars(v.as_slice(), '\n') {
        None => return None,
        Some(p) => p,
    };
    let f0 = match field_chars(head.as_slice(), 0) {
        None => return None,
        Some(f) => f,
    };
    let tag: Vec<char> = vec!['v', '1'];
    assert(tag@ =~= version_tag());
    if !chars_eq(f0.as_slice(), tag.as_slice()) {
        return None;
    }
    let f1 = match field_chars(head.as_slice(), 1) {
        None => return None,
        Some(f) => f,
    };
    let ms = match parse_unsigned_exec(f1.as_slice(), 10, u128::MAX) {
        None => return None,
        Some(x) => x,
    };
    let f2 = match field_chars(head.as_slice(), 2) {
        None => return None,
        Some(f) => f,
    };
    let size = match parse_unsigned_exec(f2.as_slice(), 10, 18446744073709551615) {
        None => return None,
        Some(x) => x,
    };
    if ms == fp.0 && size == fp.1 as u128 {
        Some(string_from_chars(body.as_slice()))
    } else {
        None
    }
}

proof fn lemma_decimal_no_sep(n: nat)
    ensures
        forall|k: int| 0 <= k < decimal(n).len() ==> #[trigger] decimal(n)[k] != ' ' && decimal(n)[k] != '\n',
{
    lemma_decimal_digits(n);
    assert forall|k: int| 0 <= k < decimal(n).len() implies #[trigger] decimal(n)[k] != ' ' && decimal(n)[k]
        != '\n' by {
        assert(digit_value(decimal(n)[k], 10) is Some);
    }
}

/// A cache entry written for fingerprint `(ms, size)` reads back as exactly
/// the text that was written when the file's fingerprint is unchanged, and
/// is stale for any other fingerprint.
pub proof fn lemma_entry_round_trip(ms: u128, size: u64, text: Seq<char>, ms2: u128, size2: u64)
    ensures
        payload_spec(header_spec(ms as nat, size as nat) + text, ms2 as nat, size2 as nat) == if ms == ms2
            && size == size2 {
            Some(text)
        } else {
            None
        },
{
    let dm = decimal(ms as nat);
    let ds = decimal(size as nat);
    lemma_decimal_no_sep(ms as nat);
    lemma_decimal_no_sep(size as nat);
    lemma_decimal_digits(ms as nat);
    lemma_decimal_digits(size as nat);
    let head = version_tag() + seq![' '] + dm + seq![' '] + ds;
    let s = header_spec(ms as nat, size as nat) + text;
    assert(s =~= head + seq!['\n'] + text);
    assert forall|k: int| 0 <= k < head.len() implies s[k] != '\n' by {
        assert(s[k] == head[k]);
        if k >= 3 && k < 3 + dm.len() {
            assert(head[k] == dm[k - 3]);
        } else if k >= 4 + dm.len() {
            assert(head[k] == ds[k - 4 - dm.len()]);
        }
    }
    assert(s[head.len() as int] == '\n');
    lemma_first_index(s, '\n', head.len() as int);
    assert(s.take(head.len() as int) =~= head);
    assert(s.skip(head.len() as int + 1) =~= text);
    // first field: the tag
    assert(head[2] == ' ');
    lemma_first_index(head, ' ', 2);
    assert(head.take(2) =~= version_tag());
    let r1 = dm + seq![' '] + ds;
    assert(head.skip(3) =~= r1);
    assert(r1[dm.len() as int] == ' ');
    assert forall|k: int| 0 <= k < dm.len() implies r1[k] != ' ' by {
        assert(r1[k] == dm[k]);
    }
    lemma_first_index(r1, ' ', dm.len() as int);
    assert(r1.take(dm.len() as int) =~= dm);
    assert(r1.skip(dm.len() as int + 1) =~= ds);
    lemma_first_index(ds, ' ', ds.len() as int);
    assert(ds.take(ds.len() as int) =~= ds);
    assert(field(head, 0) == Some(version_tag()));
    assert(split_once(head, ' ') == Some((version_tag(), r1)));
    assert(field(r1, 0) == Some(dm));
    assert(field(head, 1) == Some(dm));
    assert(split_once(r1, ' ') == Some((dm, ds)));
    assert(field(ds, 0) == Some(ds));
    assert(field(r1, 1) == Some(ds));
    assert(field(head, 2) == Some(ds));
    lemma_parse_decimal(ms as nat, u128::MAX as nat);
    lemma_parse_decimal(size as nat, u64::MAX as nat);
}

/// Byte budget of the cache directory.
pub const MAX_CACHE_BYTES: u64 = 838860800;

/// Sum of a list of sizes.
pub open spec fn seq_total(s: Seq<u64>) -> nat
    decreases s.len(),
{
    if s.len() == 0 {
        0
    } else {
        seq_total(s.drop_last()) + s.last() as nat
    }
}

/// Sum of the sizes at the indices `idx`.
pub open spec fn sum_at(sizes: Seq<u64>, idx: Seq<nat>) -> nat
    decreases idx.len(),
{
    if idx.len() == 0 {
        0
    } else {
        sizes[idx[0] as int] as nat + sum_at(sizes, idx.drop_first())
    }
}

/// Entries ordered by modification time alone.
pub open spec fn mtime_keys(m: Seq<u128>) -> Seq<(nat, Seq<char>)> {
    m.map_values(|t: u128| (t as nat, Seq::<char>::empty()))
}

proof fn lemma_sum_at_concat(sizes: Seq<u64>, a: Seq<nat>, b: Seq<nat>)
    ensures
        sum_at(sizes, a + b) == sum_at(sizes, a) + sum_at(sizes, b),
    decreases a.len(),
{
    if a.len() == 0 {
        assert(a + b =~= b);
    } else {
        assert((a + b).drop_first() =~= a.drop_first() + b);
        lemma_sum_at_concat(sizes, a.drop_first(), b);
    }
}

proof fn lemma_seq_total_take(s: Seq<u64>, i: int)
    requires
        0 <= i < s.len(),
    ensures
        seq_total(s.take(i + 1)) == seq_total(s.take(i)) + s[i],
        seq_total(s.take(i + 1)) <= seq_total(s),
    decreases s.len() - i,
{
    assert(s.take(i + 1).drop_last() =~= s.take(i));
    if i + 1 < s.len() {
        lemma_seq_total_take(s, i + 1);
    } else {
        assert(s.take(i + 1) =~= s);
    }
}

/// Summing the sizes in the sorting order of the first `n` entries gives
/// the sum of those entries.
proof fn lemma_sum_at_sort_order(sizes: Seq<u64>, keys: Seq<(nat, Seq<char>)>, n: nat)
    requires
        n <= sizes.len(),
    ensures
        sum_at(sizes, sort_order(keys, n)) == seq_total(sizes.take(n as int)),
    decreases n,
{
    if n == 0 {
        assert(sizes.take(0) =~= Seq::<u64>::empty());
    } else {
        let m = (n - 1) as nat;
        let o = sort_order(keys, m);
        lemma_sum_at_sort_order(sizes, keys, m);
        lemma_insert_pos_bound(keys, o, keys[m as int]);
        let p = insert_pos(keys, o, keys[m as int]) as int;
        lemma_sum_at_concat(sizes, o.take(p) + seq![m], o.skip(p));
        lemma_sum_at_concat(sizes, o.take(p), seq![m]);
        lemma_sum_at_concat(sizes, o.take(p), o.skip(p));
        assert(o =~= o.take(p) + o.skip(p));
        assert(seq![m].drop_first() =~= Seq::<nat>::empty());
        assert(sum_at(sizes, Seq::<nat>::empty()) == 0);
        assert(sum_at(sizes, seq![m]) == sizes[m as int] as nat);
        assert(sort_order(keys, n) == o.take(p) + seq![m] + o.skip(p));
        assert(sizes.take(n as int).drop_last() =~= sizes.take(m as int));
        assert(sizes.take(n as int).last() == sizes[m as int]);
    }
}

/// One pass of cache eviction: the entries of the cache directory (their
/// sizes, and modification times at `plan`), oldest first, are removed one
/// by one while the total is over [`MAX_CACHE_BYTES`]. A failed removal
/// frees nothing and the pass goes on with the next entry.
pub struct CacheGc {
    sizes: Vec<u64>,
    order: Vec<usize>,
    pos: usize,
    total: u64,
}

impl CacheGc {
    /// Sizes of the entries.
    pub closed spec fn sizes(&self) -> Seq<u64> {
        self.sizes@
    }

    /// Entry indices, oldest first.
    pub closed spec fn order(&self) -> Seq<nat> {
        self.order@.map_values(|i: usize| i as nat)
    }

    /// How many entries of `order` were already dealt with.
    pub closed spec fn pos(&self) -> nat {
        self.pos as nat
    }

    /// Bytes still held by the cache.
    pub closed spec fn total(&self) -> nat {
        self.total as nat
    }

    #[verifier::type_invariant]
    spec fn wf(&self) -> bool {
        &&& self.order@.len() == self.sizes@.len()
        &&& self.pos <= self.order@.len()
        &&& forall|k: int| 0 <= k < self.order@.len() ==> #[trigger] self.order@[k] < self.sizes@.len()
        &&& self.total >= sum_at(self.sizes@, self.order().skip(self.pos as int))
    }

    /// The entry to remove next, if the cache is over budget and entries
    /// are left.
    pub open spec fn victim(&self) -> Option<nat> {
        if self.total() <= MAX_CACHE_BYTES || self.pos() >= self.order().len() {
            None
        } else {
            Some(self.order()[self.pos() as int])
        }
    }

    /// Starts a pass over entries with sizes `sizes` and modification times
    /// `mtimes` (stable order: equal times keep their listing order).
    pub fn plan(sizes: Vec<u64>, mtimes: &Vec<u128>) -> (r: CacheGc)
        requires
            sizes@.len() == mtimes@.len(),
            seq_total(sizes@) <= u64::MAX,
        ensures
            r.sizes() == sizes@,
            r.total() == seq_total(sizes@),
            r.pos() == 0,
            r.order() == sort_order(mtime_keys(mtimes@), mtimes@.len() as nat),
    {
        let mut keys: Vec<SortKey> = Vec::new();
        let mut i: usize = 0;
        while i < mtimes.len()
            invariant
                i <= mtimes@.len(),
                keys_view(keys@) =~= mtime_keys(mtimes@).take(i as int),
            decreases mtimes@.len() - i,
        {
            let ghost before = keys_view(keys@);
            keys.push(SortKey { rank: mtimes[i], text: Vec::new() });
            proof {
                assert(keys_view(keys@) =~= before.push((mtimes@[i as int] as nat, Seq::<char>::empty())));
            }
            i = i + 1;
        }
        assert(mtime_keys(mtimes@).take(mtimes@.len() as int) =~= mtime_keys(mtimes@));
        let order = sort_indices(&keys);
        let mut total: u64 = 0;
        let mut j: usize = 0;
        proof {
            assert(sizes@.take(0) =~= Seq::<u64>::empty());
        }
        while j < sizes.len()
            invariant
                j <= sizes@.len(),
                total == seq_total(sizes@.take(j as int)),
                seq_total(sizes@) <= u64::MAX,
            decreases sizes@.len() - j,
        {
            proof {
                lemma_seq_total_take(sizes@, j as int);
            }
            total = total + sizes[j];
            j = j + 1;
        }
        proof {
            assert(sizes@.take(sizes@.len() as int) =~= sizes@);
            let ov = order@.map_values(|i: usize| i as nat);
            lemma_sort_order_range(mtime_keys(mtimes@), mtimes@.len() as nat);
            lemma_sum_at_sort_order(sizes@, mtime_keys(mtimes@), mtimes@.len() as nat);
            assert(ov.skip(0) =~= ov);
            assert forall|k: int| 0 <= k < order@.len() implies #[trigger] order@[k] < sizes@.len() by {
                assert(ov[k] == order@[k] as nat);
            }
        }
        CacheGc { sizes, order, pos: 0, total }
    }

    /// The entry to remove next ([`CacheGc::victim`]).
    pub fn next_victim(&self) -> (r: Option<usize>)
        ensures
            r is Some <==> self.victim() is Some,
            r matches Some(i) ==> self.victim() == Some(i as nat) && i < self.sizes().len(),
    {
        proof {
            use_type_invariant(self);
        }
        if self.total <= MAX_CACHE_BYTES || self.pos >= self.order.len() {
            None
        } else {
            Some(self.order[self.pos])
        }
    }

    /// Records what became of the current victim: a removed entry no longer
    /// counts toward the total.
    pub fn record(&mut self, removed: bool)
        requires
            old(self).pos() < old(self).order().len(),
        ensures
            final(self).sizes() == old(self).sizes(),
            final(self).order() == old(self).order(),
            final(self).pos() == old(self).pos() + 1,
            final(self).total() == if removed {
                old(self).total() - old(self).sizes()[old(self).order()[old(self).pos() as int] as int]
            } else {
                old(self).total() as int
            },
    {
        proof {
            use_type_invariant(&*self);
        }
        let ghost ov = self.order();
        let ghost rest = ov.skip(self.pos as int);
        proof {
            assert(rest.drop_first() =~= ov.skip(self.pos + 1));
            assert(rest[0] == ov[self.pos as int]);
            assert(ov[self.pos as int] == self.order@[self.pos as int] as nat);
            assert(ov.len() == self.order@.len());
        }
        let len = self.order.len();
        let i = self.order[self.pos];
        assert(self.pos < len);
        self.pos = self.pos + 1;
        if removed {
            self.total = self.total - self.sizes[i];
        }
    }
}

/// Eviction goes from the oldest entry to the newest: a pass visits every
/// entry exactly once, never an entry before an older one, and entries of
/// equal age in their listing order.
pub proof fn lemma_gc_oldest_first(mtimes: Seq<u128>)
    ensures
        permutes(sort_order(mtime_keys(mtimes), mtimes.len()), mtimes.len()),
        forall|i: int, j: int|
            0 <= i < j < mtimes.len() ==> mtimes[#[trigger] sort_order(mtime_keys(mtimes), mtimes.len())[i] as int]
                <= mtimes[#[trigger] sort_order(mtime_keys(mtimes), mtimes.len())[j] as int],
        forall|i: int, j: int|
            0 <= i < j < mtimes.len() && mtimes[sort_order(mtime_keys(mtimes), mtimes.len())[i] as int]
                == mtimes[sort_order(mtime_keys(mtimes), mtimes.len())[j] as int] ==> #[trigger] sort_order(
                mtime_keys(mtimes),
                mtimes.len(),
            )[i] < #[trigger] sort_order(mtime_keys(mtimes), mtimes.len())[j],
{
    let keys = mtime_keys(mtimes);
    let n = mtimes.len();
    let o = sort_order(keys, n);
    lemma_sort_order_sorted(keys, n);
    assert forall|i: int, j: int| 0 <= i < j < n implies mtimes[#[trigger] o[i] as int] <= mtimes[#[trigger] o[j] as int] by {
        assert(!key_lt(keys[o[j] as int], keys[o[i] as int]));
        assert(o[i] < n && o[j] < n);
    }
    assert forall|i: int, j: int| 0 <= i < j < n && mtimes[o[i] as int] == mtimes[o[j] as int] implies #[trigger] o[i]
        < #[trigger] o[j] by {
        assert(o[i] < n && o[j] < n);
        assert(keys[o[i] as int] == keys[o[j] as int]);
    }
}

/// Where the cache lives: a directory chosen by a test overrides the
/// platform default.
pub struct CacheRoot {
    test_root: Option<String>,
}

impl CacheRoot {
    /// The overriding directory, if one was set.
    pub closed spec fn override_root(&self) -> Option<Seq<char>> {
        match self.test_root {
            Some(d) => Some(d@),
            None => None,
        }
    }

    /// No override: the platform default applies.
    pub fn new() -> (r: CacheRoot)
        ensures
            r.override_root() is None,
    {
        CacheRoot { test_root: None }
    }

    /// Redirects the cache to `dir`, so that tests never touch the user's
    /// cache.
    pub fn set_test_cache_root(&mut self, dir: &str)
        ensures
            final(self).override_root() == Some(dir@),
    {
        self.test_root = Some(dir.to_string());
    }

    /// The cache directory: the override if set, else `default_root` (the
    /// platform cache directory joined with `mkdown/search-cache`, if the
    /// platform has one).
    pub fn cache_root(&self, default_root: Option<String>) -> (r: Option<String>)
        ensures
            match self.override_root() {
                Some(o) => r matches Some(x) && x@ == o,
                None => r == default_root,
            },
    {
        match &self.test_root {
            Some(d) => Some(d.clone()),
            None => default_root,
        }
    }
}

/// A hex digit, lower case.
pub open spec fn hex_digit(d: nat) -> char {
    if d < 10 {
        (('0' as u32) + d) as char
    } else {
        (('a' as u32) + d - 10) as char
    }
}

/// The `k` lowest hex digits of `h`, most significant first, zero-padded.
pub open spec fn hex_pad(h: nat, k: nat) -> Seq<char>
    decreases k,
{
    if k == 0 {
        seq![]
    } else {
        hex_pad(h / 16, (k - 1) as nat).push(hex_digit(h % 16))
    }
}

fn hex_pad_chars(h: u64, k: usize) -> (r: Vec<char>)
    ensures
        r@ == hex_pad(h as nat, k as nat),
    decreases k,
{
    if k == 0 {
        Vec::new()
    } else {
        let mut v = hex_pad_chars(h / 16, k - 1);
        let d = (h % 16) as u8;
        let c = if d < 10 {
            char_from_ascii(48 + d)
        } else {
            char_from_ascii(87 + d)
        };
        v.push(c);
        proof {
            vstd::utf8::char_u32_cast(c, c as u32);
        }
        assert(v@ =~= hex_pad(h as nat, k as nat));
        v
    }
}

/// The name of the cache entry of a file whose lower-cased path hashes to
/// `hash`: the hash as 16 lower-case hex digits.
pub fn entry_name(hash: u64) -> (r: String)
    ensures
        r@ == hex_pad(hash as nat, 16),
{
    let v = hex_pad_chars(hash, 16);
    string_from_chars(v.as_slice())
}

} // verus!
