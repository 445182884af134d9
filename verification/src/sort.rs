//! Stable ordering by keys made of a number and a text, the order used for
//! zip part names, workspace tree children and cache eviction.
use vstd::prelude::*;

verus! {

/// Character sequences in lexicographic order of code points, which is the
/// order of `String`'s `Ord` (UTF-8 preserves code point order).
pub open spec fn text_lt(a: Seq<char>, b: Seq<char>) -> bool
    decreases a.len(),
{
    if a.len() == 0 {
        b.len() > 0
    } else if b.len() == 0 {
        false
    } else if a[0] != b[0] {
        (a[0] as u32) < (b[0] as u32)
    } else {
        text_lt(a.drop_first(), b.drop_first())
    }
}

/// A sort key: first a number, then a text.
pub struct SortKey {
    pub rank: u128,
    pub text: Vec<char>,
}

pub open spec fn key_view(k: SortKey) -> (nat, Seq<char>) {
    (k.rank as nat, k.text@)
}

pub open spec fn keys_view(ks: Seq<SortKey>) -> Seq<(nat, Seq<char>)> {
    ks.map_values(|k: SortKey| key_view(k))
}

/// Strictly smaller key: smaller number, or equal number and smaller text.
pub open spec fn key_lt(a: (nat, Seq<char>), b: (nat, Seq<char>)) -> bool {
    a.0 < b.0 || (a.0 == b.0 && text_lt(a.1, b.1))
}

/// Where a stable insertion puts key `x` into the index list `ord`: before
/// the first entry whose key is strictly greater.
pub open spec fn insert_pos(keys: Seq<(nat, Seq<char>)>, ord: Seq<nat>, x: (nat, Seq<char>)) -> nat
    decreases ord.len(),
{
    if ord.len() == 0 {
        0
    } else if key_lt(x, keys[ord[0] as int]) {
        0
    } else {
        1 + insert_pos(keys, ord.drop_first(), x)
    }
}

/// The stable sorting order of the first `n` keys, as indices: insertion
/// sort, each key placed after all keys not greater than it.
pub open spec fn sort_order(keys: Seq<(nat, Seq<char>)>, n: nat) -> Seq<nat>
    decreases n,
{
    if n == 0 {
        seq![]
    } else {
        let o = sort_order(keys, (n - 1) as nat);
        let p = insert_pos(keys, o, keys[n - 1]) as int;
        o.take(p) + seq![(n - 1) as nat] + o.skip(p)
    }
}

fn text_lt_exec(a: &[char], b: &[char]) -> (r: bool)
    ensures
        r == text_lt(a@, b@),
{
    let mut i: usize = 0;
    proof {
        assert(a@.skip(0) =~= a@);
        assert(b@.skip(0) =~= b@);
    }
    while i < a.len() && i < b.len() && a[i] == b[i]
        invariant
            i <= a@.len(),
            i <= b@.len(),
            text_lt(a@.skip(i as int), b@.skip(i as int)) == text_lt(a@, b@),
        decreases a@.len() - i,
    {
        proof {
            assert(a@.skip(i as int).drop_first() =~= a@.skip(i + 1));
            assert(b@.skip(i as int).drop_first() =~= b@.skip(i + 1));
            assert(a@.skip(i as int)[0] == a@[i as int]);
            assert(b@.skip(i as int)[0] == b@[i as int]);
        }
        i = i + 1;
    }
    proof {
        if i < a@.len() {
            assert(a@.skip(i as int)[0] == a@[i as int]);
        }
        if i < b@.len() {
            assert(b@.skip(i as int)[0] == b@[i as int]);
        }
    }
    if i == a.len() {
        i < b.len()
    } else if i == b.len() {
        false
    } else {
        (a[i] as u32) < (b[i] as u32)
    }
}

fn key_lt_exec(a: &SortKey, b: &SortKey) -> (r: bool)
    ensures
        r == key_lt(key_view(*a), key_view(*b)),
{
    a.rank < b.rank || (a.rank == b.rank && text_lt_exec(a.text.as_slice(), b.text.as_slice()))
}

proof fn lemma_insert_pos(keys: Seq<(nat, Seq<char>)>, ord: Seq<nat>, x: (nat, Seq<char>), p: int)
    requires
        0 <= p <= ord.len(),
        forall|k: int| 0 <= k < p ==> !key_lt(x, keys[#[trigger] ord[k] as int]),
        p == ord.len() || key_lt(x, keys[ord[p] as int]),
    ensures
        insert_pos(keys, ord, x) == p,
    decreases p,
{
    if p > 0 {
        let t = ord.drop_first();
        assert(!key_lt(x, keys[ord[0] as int]));
        assert forall|k: int| 0 <= k < p - 1 implies !key_lt(x, keys[#[trigger] t[k] as int]) by {
            assert(t[k] == ord[k + 1]);
        }
        if p < ord.len() {
            assert(t[p - 1] == ord[p]);
        }
        lemma_insert_pos(keys, t, x, p - 1);
    }
}

/// The stable sorting order of `keys`: `r[0]` is the index of the smallest
/// key, equal keys keep their relative order.
pub fn sort_indices(keys: &Vec<SortKey>) -> (r: Vec<usize>)
    ensures
        r@.len() == keys@.len(),
        r@.map_values(|i: usize| i as nat) == sort_order(keys_view(keys@), keys@.len() as nat),
{
    let ghost kv = keys_view(keys@);
    let mut ord: Vec<usize> = Vec::new();
    let mut n: usize = 0;
    while n < keys.len()
        invariant
            n <= keys@.len(),
            kv == keys_view(keys@),
            ord@.len() == n,
            ord@.map_values(|i: usize| i as nat) == sort_order(kv, n as nat),
            forall|k: int| 0 <= k < ord@.len() ==> ord@[k] < n,
        decreases keys@.len() - n,
    {
        let ghost ov = ord@.map_values(|i: usize| i as nat);
        let mut p: usize = 0;
        while p < ord.len() && !key_lt_exec(&keys[n], &keys[ord[p]])
            invariant
                p <= ord@.len(),
                n < keys@.len(),
                kv == keys_view(keys@),
                ov == ord@.map_values(|i: usize| i as nat),
                forall|k: int| 0 <= k < ord@.len() ==> ord@[k] < n,
                forall|k: int| 0 <= k < p ==> !key_lt(kv[n as int], kv[#[trigger] ov[k] as int]),
            decreases ord@.len() - p,
        {
            proof {
                assert(ov[p as int] == ord@[p as int] as nat);
            }
            p = p + 1;
        }
        proof {
            if p < ord@.len() {
                assert(ov[p as int] == ord@[p as int] as nat);
            }
            lemma_insert_pos(kv, ov, kv[n as int], p as int);
            assert(kv[n as int] == key_view(keys@[n as int]));
        }
        ord.insert(p, n);
        proof {
            let nv = ord@.map_values(|i: usize| i as nat);
            assert(nv =~= ov.take(p as int) + seq![n as nat] + ov.skip(p as int));
            assert(sort_order(kv, (n + 1) as nat) == ov.take(p as int) + seq![n as nat] + ov.skip(p as int));
        }
        n = n + 1;
    }
    ord
}

/// The sorting order of `n` keys lists `n` indices, each below `n`.
pub proof fn lemma_sort_order_range(keys: Seq<(nat, Seq<char>)>, n: nat)
    ensures
        sort_order(keys, n).len() == n,
        forall|k: int| 0 <= k < n ==> #[trigger] sort_order(keys, n)[k] < n,
    decreases n,
{
    if n > 0 {
        let o = sort_order(keys, (n - 1) as nat);
        lemma_sort_order_range(keys, (n - 1) as nat);
        lemma_insert_pos_bound(keys, o, keys[n - 1]);
        let p = insert_pos(keys, o, keys[n - 1]) as int;
        let r = o.take(p) + seq![(n - 1) as nat] + o.skip(p);
        assert forall|k: int| 0 <= k < n implies #[trigger] r[k] < n by {
            if k < p {
                assert(r[k] == o[k]);
            } else if k > p {
                assert(r[k] == o[k - 1]);
            }
        }
    }
}

pub proof fn lemma_insert_pos_bound(keys: Seq<(nat, Seq<char>)>, ord: Seq<nat>, x: (nat, Seq<char>))
    ensures
        insert_pos(keys, ord, x) <= ord.len(),
    decreases ord.len(),
{
    if ord.len() > 0 && !key_lt(x, keys[ord[0] as int]) {
        lemma_insert_pos_bound(keys, ord.drop_first(), x);
    }
}

/// `o` lists the indices of keys in non-decreasing key order.
pub open spec fn sorted_by(keys: Seq<(nat, Seq<char>)>, o: Seq<nat>) -> bool {
    forall|i: int, j: int|
        0 <= i < j < o.len() ==> !key_lt(#[trigger] keys[o[j] as int], #[trigger] keys[o[i] as int])
}

/// Equal keys appear in `o` in the order of their indices.
pub open spec fn stable_by(keys: Seq<(nat, Seq<char>)>, o: Seq<nat>) -> bool {
    forall|i: int, j: int|
        0 <= i < j < o.len() && keys[o[i] as int] == keys[o[j] as int] ==> #[trigger] o[i] < #[trigger] o[j]
}

/// `o` lists each index below `n` exactly once.
pub open spec fn permutes(o: Seq<nat>, n: nat) -> bool {
    &&& o.len() == n
    &&& forall|k: int| 0 <= k < o.len() ==> #[trigger] o[k] < n
    &&& forall|i: int, j: int| 0 <= i < j < o.len() ==> #[trigger] o[i] != #[trigger] o[j]
    &&& forall|x: nat| x < n ==> #[trigger] o.contains(x)
}

proof fn lemma_text_lt_irrefl(a: Seq<char>)
    ensures
        !text_lt(a, a),
    decreases a.len(),
{
    if a.len() > 0 {
        lemma_text_lt_irrefl(a.drop_first());
    }
}

proof fn lemma_text_lt_trans(a: Seq<char>, b: Seq<char>, c: Seq<char>)
    requires
        text_lt(a, b),
        text_lt(b, c),
    ensures
        text_lt(a, c),
    decreases a.len(),
{
    if a.len() > 0 && b.len() > 0 && c.len() > 0 && a[0] == b[0] && b[0] == c[0] {
        lemma_text_lt_trans(a.drop_first(), b.drop_first(), c.drop_first());
    }
}

proof fn lemma_text_lt_total(a: Seq<char>, b: Seq<char>)
    ensures
        a == b || text_lt(a, b) || text_lt(b, a),
    decreases a.len(),
{
    if a.len() == 0 && b.len() == 0 {
        assert(a =~= b);
    } else if a.len() > 0 && b.len() > 0 && a[0] == b[0] {
        lemma_text_lt_total(a.drop_first(), b.drop_first());
        if a.drop_first() == b.drop_first() {
            assert(a.drop_first().len() == a.len() - 1 && b.drop_first().len() == b.len() - 1);
            assert forall|k: int| 0 <= k < a.len() implies a[k] == b[k] by {
                if k > 0 {
                    assert(a[k] == a.drop_first()[k - 1]);
                    assert(b[k] == b.drop_first()[k - 1]);
                }
            }
            assert(a =~= b);
        }
    } else if a.len() > 0 && b.len() > 0 {
        vstd::utf8::char_u32_cast(a[0], a[0] as u32);
        vstd::utf8::char_u32_cast(b[0], b[0] as u32);
    }
}

/// `key_lt` is a strict total order: irreflexive, transitive, and any two
/// different keys are comparable.
pub proof fn lemma_key_lt_order(a: (nat, Seq<char>), b: (nat, Seq<char>), c: (nat, Seq<char>))
    ensures
        !key_lt(a, a),
        key_lt(a, b) && key_lt(b, c) ==> key_lt(a, c),
        a == b || key_lt(a, b) || key_lt(b, a),
{
    lemma_text_lt_irrefl(a.1);
    if key_lt(a, b) && key_lt(b, c) && a.0 == b.0 && b.0 == c.0 {
        lemma_text_lt_trans(a.1, b.1, c.1);
    }
    lemma_text_lt_total(a.1, b.1);
}

proof fn lemma_insert_pos_props(keys: Seq<(nat, Seq<char>)>, ord: Seq<nat>, x: (nat, Seq<char>))
    ensures
        insert_pos(keys, ord, x) <= ord.len(),
        forall|k: int| 0 <= k < insert_pos(keys, ord, x) ==> !key_lt(x, keys[#[trigger] ord[k] as int]),
        insert_pos(keys, ord, x) < ord.len() ==> key_lt(x, keys[ord[insert_pos(keys, ord, x) as int] as int]),
    decreases ord.len(),
{
    if ord.len() > 0 && !key_lt(x, keys[ord[0] as int]) {
        let t = ord.drop_first();
        lemma_insert_pos_props(keys, t, x);
        assert forall|k: int| 0 <= k < insert_pos(keys, ord, x) implies !key_lt(x, keys[#[trigger] ord[k] as int]) by {
            if k > 0 {
                assert(ord[k] == t[k - 1]);
            }
        }
        if insert_pos(keys, ord, x) < ord.len() {
            assert(ord[insert_pos(keys, ord, x) as int] == t[insert_pos(keys, t, x) as int]);
        }
    }
}

/// The stable sorting order of `n` keys is a permutation of the indices
/// below `n` that lists the keys in non-decreasing order, equal keys in
/// the order of their indices.
pub proof fn lemma_sort_order_sorted(keys: Seq<(nat, Seq<char>)>, n: nat)
    requires
        n <= keys.len(),
    ensures
        permutes(sort_order(keys, n), n),
        sorted_by(keys, sort_order(keys, n)),
        stable_by(keys, sort_order(keys, n)),
    decreases n,
{
    if n == 0 {
        return;
    }
    let m = (n - 1) as nat;
    let o = sort_order(keys, m);
    lemma_sort_order_sorted(keys, m);
    let x = keys[m as int];
    lemma_insert_pos_props(keys, o, x);
    let p = insert_pos(keys, o, x) as int;
    let r = o.take(p) + seq![m] + o.skip(p);
    assert(r == sort_order(keys, n));
    assert(r.len() == n);
    assert forall|k: int| 0 <= k < r.len() implies (k < p ==> r[k] == o[k]) && (k == p ==> r[k] == m) && (k > p
        ==> r[k] == o[k - 1]) by {}
    assert forall|k: int| 0 <= k < r.len() implies #[trigger] r[k] < n by {
        if k < p {
            assert(r[k] == o[k]);
        } else if k > p {
            assert(r[k] == o[k - 1]);
        }
    }
    assert forall|i: int, j: int| 0 <= i < j < r.len() implies #[trigger] r[i] != #[trigger] r[j] by {
        if i < p && j < p {
            assert(o[i] != o[j]);
        } else if i > p && j > p {
            assert(o[i - 1] != o[j - 1]);
        } else if i < p && j > p {
            assert(o[i] != o[j - 1]);
        } else if i == p {
            assert(o[j - 1] < m);
        } else {
            assert(o[i] < m);
        }
    }
    assert forall|y: nat| y < n implies #[trigger] r.contains(y) by {
        if y == m {
            assert(r[p] == y);
        } else {
            assert(o.contains(y));
            let k = choose|k: int| 0 <= k < o.len() && o[k] == y;
            if k < p {
                assert(r[k] == y);
            } else {
                assert(r[k + 1] == y);
            }
        }
    }
    assert forall|i: int, j: int| 0 <= i < j < r.len() implies !key_lt(
        #[trigger] keys[r[j] as int],
        #[trigger] keys[r[i] as int],
    ) by {
        if j < p || i > p || (i < p && j > p) {
            let oi = if i < p { i } else { i - 1 };
            let oj = if j < p { j } else { j - 1 };
            assert(r[i] == o[oi] && r[j] == o[oj]);
            assert(!key_lt(keys[o[oj] as int], keys[o[oi] as int]));
        } else if j == p {
            assert(r[i] == o[i]);
            assert(!key_lt(x, keys[o[i] as int]));
        } else {
            // i == p < j: x is below the key at p, which is not above the key at j - 1
            assert(r[j] == o[j - 1]);
            let kp = keys[o[p] as int];
            let kj = keys[o[j - 1] as int];
            if p < j - 1 {
                assert(!key_lt(keys[o[j - 1] as int], keys[o[p] as int]));
            }
            lemma_key_lt_order(x, kp, kj);
            lemma_key_lt_order(kj, kp, x);
            lemma_key_lt_order(x, kj, x);
            lemma_key_lt_order(kp, kj, kp);
        }
    }
    assert forall|i: int, j: int|
        0 <= i < j < r.len() && keys[r[i] as int] == keys[r[j] as int] implies #[trigger] r[i] < #[trigger] r[j] by {
        if j < p || i > p || (i < p && j > p) {
            let oi = if i < p { i } else { i - 1 };
            let oj = if j < p { j } else { j - 1 };
            assert(r[i] == o[oi] && r[j] == o[oj]);
        } else if j == p {
            assert(r[i] == o[i]);
        } else {
            assert(r[j] == o[j - 1]);
            let kp = keys[o[p] as int];
            let kj = keys[o[j - 1] as int];
            if p < j - 1 {
                assert(!key_lt(keys[o[j - 1] as int], keys[o[p] as int]));
            }
            lemma_key_lt_order(x, kp, kj);
            lemma_key_lt_order(kj, kp, x);
            lemma_key_lt_order(x, x, x);
        }
    }
}

} // verus!
