//! Plain text out of Office documents, for full-text search.
//!
//! OOXML packages (`.docx`, `.xlsx`, `.pptx`) are zip archives of XML parts:
//! the text parts are cut into lines at paragraph/row/shape boundaries,
//! tags are dropped and entities decoded. Legacy OLE documents (`.doc`,
//! `.xls`, `.ppt`) are scanned as UTF-16LE for runs of text. Each produced
//! line is one displayable line; for Office documents a line number is a
//! paragraph or cell number.
use vstd::prelude::*;
use crate::num::{parse_unsigned, parse_unsigned_exec};
use crate::paths::{extension, extension_of};
use crate::sort::{SortKey, keys_view, lemma_sort_order_range, sort_indices, sort_order};
use vstd::utf8::{decode_utf8, valid_utf8};
use crate::text::{
    char_from_u32, char_is_control, char_is_whitespace, is_ctrl, is_ws, slice_range,
    str_chars, str_from_utf8, str_to_lowercase, lowercase, string_from_chars, trim, trim_bounds,
    trim_start, trim_end, starts_with, ends_with, chars_starts_with, chars_ends_with,
};

verus! {

/// Index of the first `c` in `s`, or `s.len()` when there is none.
pub open spec fn first_index(s: Seq<char>, c: char) -> nat
    decreases s.len(),
{
    if s.len() == 0 {
        0
    } else if s[0] == c {
        0
    } else {
        1 + first_index(s.drop_first(), c)
    }
}

pub proof fn lemma_first_index(s: Seq<char>, c: char, j: int)
    requires
        0 <= j <= s.len(),
        forall|k: int| 0 <= k < j ==> s[k] != c,
        j == s.len() || s[j] == c,
    ensures
        first_index(s, c) == j,
    decreases j,
{
    if j > 0 {
        let t = s.drop_first();
        assert forall|k: int| 0 <= k < j - 1 implies t[k] != c by {
            assert(t[k] == s[k + 1]);
        }
        if j < s.len() {
            assert(t[j - 1] == s[j]);
        }
        lemma_first_index(t, c, j - 1);
    }
}

pub proof fn lemma_first_index_bound(s: Seq<char>, c: char)
    ensures
        first_index(s, c) <= s.len(),
        first_index(s, c) < s.len() ==> s[first_index(s, c) as int] == c,
        forall|k: int| 0 <= k < first_index(s, c) ==> s[k] != c,
    decreases s.len(),
{
    if s.len() > 0 && s[0] != c {
        let t = s.drop_first();
        lemma_first_index_bound(t, c);
        assert forall|k: int| 0 <= k < first_index(s, c) implies s[k] != c by {
            if k > 0 {
                assert(s[k] == t[k - 1]);
            }
        }
    }
}

/// First position `j >= start` with `v[j] == c`, or `v.len()`.
pub fn find_from(v: &[char], start: usize, c: char) -> (r: usize)
    requires
        start <= v@.len(),
    ensures
        start <= r <= v@.len(),
        r - start == first_index(v@.skip(start as int), c),
        r < v@.len() ==> v@[r as int] == c,
        forall|k: int| start <= k < r ==> v@[k] != c,
{
    let mut j = start;
    while j < v.len() && v[j] != c
        invariant
            start <= j <= v@.len(),
            forall|k: int| start <= k < j ==> v@[k] != c,
        decreases v@.len() - j,
    {
        j = j + 1;
    }
    proof {
        let t = v@.skip(start as int);
        assert forall|k: int| 0 <= k < j - start implies t[k] != c by {
            assert(t[k] == v@[k + start]);
        }
        if j < v@.len() {
            assert(t[j - start] == v@[j as int]);
        }
        lemma_first_index(t, c, j - start);
    }
    j
}

/// Number of bytes in the UTF-8 encoding of `c`.
pub open spec fn utf8_width(c: char) -> nat {
    let u = c as u32;
    if u < 0x80 { 1 } else if u < 0x800 { 2 } else if u < 0x10000 { 3 } else { 4 }
}

/// Number of bytes in the UTF-8 encoding of `s`.
pub open spec fn utf8_len(s: Seq<char>) -> nat
    decreases s.len(),
{
    if s.len() == 0 { 0 } else { utf8_len(s.drop_last()) + utf8_width(s.last()) }
}

proof fn lemma_utf8_len_mono(s: Seq<char>, i: int)
    requires
        0 <= i <= s.len(),
    ensures
        utf8_len(s.take(i)) <= utf8_len(s),
    decreases s.len() - i,
{
    if i < s.len() {
        lemma_utf8_len_mono(s.drop_last(), i);
        assert(s.drop_last().take(i) =~= s.take(i));
    } else {
        assert(s.take(i) =~= s);
    }
}

/// Whether the UTF-8 encoding of `v[a..b]` takes at most `limit` bytes.
fn utf8_len_at_most(v: &[char], a: usize, b: usize, limit: usize) -> (r: bool)
    requires
        a <= b <= v@.len(),
        limit < 1000,
    ensures
        r == (utf8_len(v@.subrange(a as int, b as int)) <= limit),
{
    let mut acc: usize = 0;
    let mut k = a;
    while k < b
        invariant
            a <= k <= b <= v@.len(),
            acc == utf8_len(v@.subrange(a as int, k as int)),
            acc <= limit,
            limit < 1000,
        decreases b - k,
    {
        let u = v[k] as u32;
        let w: usize = if u < 0x80 { 1 } else if u < 0x800 { 2 } else if u < 0x10000 { 3 } else { 4 };
        proof {
            let s = v@.subrange(a as int, k + 1);
            assert(s.drop_last() =~= v@.subrange(a as int, k as int));
            assert(s.last() == v@[k as int]);
        }
        if acc + w > limit {
            proof {
                lemma_utf8_len_mono(v@.subrange(a as int, b as int), k + 1 - a);
                assert(v@.subrange(a as int, b as int).take(k + 1 - a) =~= v@.subrange(a as int, k + 1));
            }
            return false;
        }
        acc = acc + w;
        k = k + 1;
    }
    true
}

/// The character an entity `&...;` stands for: the five XML entities,
/// `&nbsp;`, and numeric references in hex (`&#x..;`, `&#X..;`) or decimal
/// (`&#..;`) that name a character. Anything else stands for nothing.
pub open spec fn entity_char(ent: Seq<char>) -> Option<char> {
    if ent == "&amp;"@ {
        Some('&')
    } else if ent == "&lt;"@ {
        Some('<')
    } else if ent == "&gt;"@ {
        Some('>')
    } else if ent == "&quot;"@ {
        Some('"')
    } else if ent == "&apos;"@ {
        Some('\'')
    } else if ent == "&nbsp;"@ {
        Some(' ')
    } else {
        let hex = if ent.len() >= 4 && (starts_with(ent, "&#x"@) || starts_with(ent, "&#X"@)) {
            parse_unsigned(ent.subrange(3, ent.len() - 1), 16, u32::MAX as nat)
        } else {
            None
        };
        let dec = if ent.len() >= 3 && starts_with(ent, "&#"@) {
            parse_unsigned(ent.subrange(2, ent.len() - 1), 10, u32::MAX as nat)
        } else {
            None
        };
        let cp = if hex is Some { hex } else { dec };
        match cp {
            Some(v) => if v <= 0xD7FF || (0xE000 <= v && v <= 0x10FFFF) {
                Some(v as char)
            } else {
                None
            },
            None => None,
        }
    }
}

pub open spec fn opt_char(c: Option<char>) -> Seq<char> {
    match c {
        Some(x) => seq![x],
        None => seq![],
    }
}

/// Entity decoding: each `&` that a `;` follows within ten bytes starts an
/// entity that is replaced by [`entity_char`]; any other `&` is kept.
pub open spec fn decode_entities_spec(s: Seq<char>) -> Seq<char>
    decreases s.len(),
{
    let p = first_index(s, '&') as int;
    if p >= s.len() {
        s
    } else {
        let tail = s.skip(p);
        let e = first_index(tail, ';') as int;
        if e < tail.len() && utf8_len(tail.take(e)) <= 10 {
            s.take(p) + opt_char(entity_char(tail.take(e + 1))) + decode_entities_spec(tail.skip(e + 1))
        } else {
            s.take(p) + seq!['&'] + decode_entities_spec(tail.skip(1))
        }
    }
}

fn lit(s: &str) -> (r: Vec<char>)
    ensures
        r@ == s@,
{
    str_chars(s)
}

fn chars_eq_lit(v: &[char], a: usize, b: usize, s: &str) -> (r: bool)
    requires
        a <= b <= v@.len(),
    ensures
        r == (v@.subrange(a as int, b as int) == s@),
{
    let l = lit(s);
    let sub = slice_range(v, a, b);
    crate::text::chars_eq(sub.as_slice(), l.as_slice())
}

/// [`entity_char`] of `v[a..b]`.
fn entity_char_exec(v: &[char], a: usize, b: usize) -> (r: Option<char>)
    requires
        a + 2 <= b <= v@.len(),
    ensures
        r == entity_char(v@.subrange(a as int, b as int)),
{
    let ghost ent = v@.subrange(a as int, b as int);
    if chars_eq_lit(v, a, b, "&amp;") {
        return Some('&');
    } else if chars_eq_lit(v, a, b, "&lt;") {
        return Some('<');
    } else if chars_eq_lit(v, a, b, "&gt;") {
        return Some('>');
    } else if chars_eq_lit(v, a, b, "&quot;") {
        return Some('"');
    } else if chars_eq_lit(v, a, b, "&apos;") {
        return Some('\'');
    } else if chars_eq_lit(v, a, b, "&nbsp;") {
        return Some(' ');
    }
    let n = b - a;
    proof {
        reveal_strlit("&#x");
        reveal_strlit("&#X");
        reveal_strlit("&#");
    }
    let hex = if n >= 4 && (chars_eq_lit(v, a, a + 3, "&#x") || chars_eq_lit(v, a, a + 3, "&#X")) {
        let digits = slice_range(v, a + 3, b - 1);
        proof {
            assert(digits@ =~= ent.subrange(3, ent.len() - 1));
            assert(ent.subrange(0, 3) =~= v@.subrange(a as int, a + 3));
        }
        parse_unsigned_exec(digits.as_slice(), 16, 0xFFFF_FFFF)
    } else {
        proof {
            if n >= 4 {
                assert(ent.subrange(0, 3) =~= v@.subrange(a as int, a + 3));
            }
        }
        None
    };
    let dec = if n >= 3 && chars_eq_lit(v, a, a + 2, "&#") {
        let digits = slice_range(v, a + 2, b - 1);
        proof {
            assert(digits@ =~= ent.subrange(2, ent.len() - 1));
            assert(ent.subrange(0, 2) =~= v@.subrange(a as int, a + 2));
        }
        parse_unsigned_exec(digits.as_slice(), 10, 0xFFFF_FFFF)
    } else {
        proof {
            if n >= 3 {
                assert(ent.subrange(0, 2) =~= v@.subrange(a as int, a + 2));
            }
        }
        None
    };
    let cp = if hex.is_some() { hex } else { dec };
    match cp {
        Some(x) => {
            if x <= 0xFFFF_FFFF {
                let r = char_from_u32(x as u32);
                proof {
                    if r is Some {
                        let c = r->0;
                        vstd::utf8::char_u32_cast(c, x as u32);
                        assert((x as nat) as char == c);
                    }
                }
                r
            } else {
                None
            }
        },
        None => None,
    }
}

/// Decodes the entities of `v` (see [`decode_entities_spec`]).
#[verifier::rlimit(40)]
pub fn decode_entities_chars(v: &[char]) -> (r: Vec<char>)
    ensures
        r@ == decode_entities_spec(v@),
{
    let mut out: Vec<char> = Vec::new();
    let mut i: usize = 0;
    proof {
        assert(v@.skip(0) =~= v@);
    }
    while i < v.len()
        invariant
            i <= v@.len(),
            out@ + decode_entities_spec(v@.skip(i as int)) == decode_entities_spec(v@),
        decreases v@.len() - i,
    {
        let ghost s = v@.skip(i as int);
        let p = find_from(v, i, '&');
        if p >= v.len() {
            let rest = slice_range(v, i, v.len());
            proof {
                assert(rest@ =~= s);
            }
            let ghost o = out@;
            out.extend_from_slice(rest.as_slice());
            assert(out@ =~= o + rest@);
            i = v.len();
            assert(v@.skip(i as int) =~= Seq::<char>::empty());
            assert(decode_entities_spec(Seq::<char>::empty()) =~= Seq::<char>::empty());
            assert(out@ + decode_entities_spec(v@.skip(i as int)) =~= o + decode_entities_spec(s));
        } else {
            let head = slice_range(v, i, p);
            let ghost tail = s.skip(p - i);
            proof {
                assert(head@ =~= s.take(p - i));
                assert(tail =~= v@.skip(p as int));
            }
            let e = find_from(v, p, ';');
            let ghost o = out@;
            out.extend_from_slice(head.as_slice());
            if e < v.len() && utf8_len_at_most(v, p, e, 10) {
                proof {
                    assert(tail.take(e - p) =~= v@.subrange(p as int, e as int));
                    assert(tail.take(e - p + 1) =~= v@.subrange(p as int, e + 1));
                    assert(tail.skip(e - p + 1) =~= v@.skip(e + 1));
                    assert(v@[p as int] == '&');
                    lemma_first_index_bound(v@.skip(p as int), ';');
                    assert(v@.skip(p as int)[0] == '&');
                }
                let ch = entity_char_exec(v, p, e + 1);
                match ch {
                    Some(c) => {
                        out.push(c);
                    },
                    None => {},
                }
                proof {
                    assert(out@ =~= o + s.take(p - i) + opt_char(entity_char(tail.take(e - p + 1))));
                }
                i = e + 1;
            } else {
                proof {
                    if e < v.len() {
                        assert(tail.take(e - p) =~= v@.subrange(p as int, e as int));
                    }
                    assert(tail.skip(1) =~= v@.skip(p + 1));
                }
                out.push('&');
                proof {
                    assert(out@ =~= o + s.take(p - i) + seq!['&']);
                }
                i = p + 1;
            }
        }
    }
    proof {
        assert(v@.skip(i as int) =~= Seq::<char>::empty());
        assert(out@ + Seq::<char>::empty() =~= out@);
    }
    out
}

/// Entity decoding on text (`&amp;` → `&`, `&#x41;` → `A`, ...).
pub fn decode_entities(s: &str) -> (r: String)
    ensures
        r@ == decode_entities_spec(s@),
{
    let v = str_chars(s);
    let d = decode_entities_chars(v.as_slice());
    string_from_chars(d.as_slice())
}

/// A space appended unless the text already ends with white space.
pub open spec fn push_space_spec(out: Seq<char>) -> Seq<char> {
    if out.len() > 0 && is_ws(out.last()) { out } else { out.push(' ') }
}

/// Leading `/` characters removed.
pub open spec fn strip_slashes(s: Seq<char>) -> Seq<char>
    decreases s.len(),
{
    if s.len() > 0 && s[0] == '/' { strip_slashes(s.drop_first()) } else { s }
}

/// The longest prefix without white space or `/`.
pub open spec fn name_prefix(s: Seq<char>) -> Seq<char>
    decreases s.len(),
{
    if s.len() > 0 && !is_ws(s[0]) && s[0] != '/' {
        seq![s[0]] + name_prefix(s.drop_first())
    } else {
        seq![]
    }
}

/// The element name of a tag's inside (`/w:p` and `w:p attr` name `w:p`).
pub open spec fn tag_name(tag: Seq<char>) -> Seq<char> {
    name_prefix(strip_slashes(tag))
}

/// Tags to text, from `rest` on, with `out` produced so far: a tag whose
/// name is in `tags` becomes a line break, comments, declarations and
/// processing instructions vanish, any other tag becomes a single space;
/// text is kept. An unterminated tag ends the text.
pub open spec fn xml_raw(rest: Seq<char>, out: Seq<char>, tags: Seq<Seq<char>>) -> Seq<char>
    decreases rest.len(),
{
    if rest.len() == 0 {
        out
    } else if rest[0] == '<' {
        let e = first_index(rest, '>') as int;
        if e >= rest.len() {
            out
        } else {
            let tag = trim_start(rest.subrange(1, e));
            let nxt = rest.skip(e + 1);
            if tag.len() > 0 && (tag[0] == '!' || tag[0] == '?') {
                xml_raw(nxt, out, tags)
            } else if tags.contains(tag_name(tag)) {
                xml_raw(nxt, out.push('\n'), tags)
            } else {
                xml_raw(nxt, push_space_spec(out), tags)
            }
        }
    } else {
        xml_raw(rest.drop_first(), out.push(rest[0]), tags)
    }
}

/// The text of an XML part (see [`xml_raw`]) with entities decoded.
pub open spec fn xml_text(xml: Seq<char>, tags: Seq<Seq<char>>) -> Seq<char> {
    decode_entities_spec(xml_raw(xml, seq![], tags))
}

pub open spec fn tag_views(tags: Seq<&str>) -> Seq<Seq<char>> {
    tags.map_values(|t: &str| t@)
}

pub proof fn lemma_decode_no_amp(s: Seq<char>)
    requires
        !s.contains('&'),
    ensures
        decode_entities_spec(s) == s,
{
    lemma_first_index_bound(s, '&');
    if first_index(s, '&') < s.len() {
        assert(s.contains('&'));
    }
}

/// Appends a space to `out` unless it ends with white space.
pub fn push_space(out: &mut Vec<char>)
    ensures
        final(out)@ == push_space_spec(old(out)@),
{
    let n = out.len();
    if n > 0 && char_is_whitespace(out[n - 1]) {
    } else {
        out.push(' ');
    }
}

proof fn lemma_strip_slashes_skip(s: Seq<char>, i: int)
    requires
        0 <= i <= s.len(),
        forall|k: int| 0 <= k < i ==> s[k] == '/',
    ensures
        strip_slashes(s) == strip_slashes(s.skip(i)),
    decreases i,
{
    if i == 0 {
        assert(s.skip(0) =~= s);
    } else {
        assert(s[0] == '/');
        let t = s.drop_first();
        assert forall|k: int| 0 <= k < i - 1 implies t[k] == '/' by {
            assert(t[k] == s[k + 1]);
        }
        lemma_strip_slashes_skip(t, i - 1);
        assert(t.skip(i - 1) =~= s.skip(i));
    }
}

proof fn lemma_name_prefix(s: Seq<char>, j: int)
    requires
        0 <= j <= s.len(),
        forall|k: int| 0 <= k < j ==> !is_ws(#[trigger] s[k]) && s[k] != '/',
        j == s.len() || is_ws(s[j]) || s[j] == '/',
    ensures
        name_prefix(s) == s.take(j),
    decreases j,
{
    if j == 0 {
        assert(s.take(0) =~= Seq::<char>::empty());
    } else {
        let t = s.drop_first();
        assert(!is_ws(s[0]) && s[0] != '/');
        assert forall|k: int| 0 <= k < j - 1 implies !is_ws(#[trigger] t[k]) && t[k] != '/' by {
            assert(t[k] == s[k + 1]);
        }
        if j < s.len() {
            assert(t[j - 1] == s[j]);
        }
        lemma_name_prefix(t, j - 1);
        assert(seq![s[0]] + t.take(j - 1) =~= s.take(j));
    }
}

/// The name of the tag whose inside is `v[a..b]`, after its leading white
/// space: bounds `[n0, n1)` of [`tag_name`] inside `v`.
fn tag_name_bounds(v: &[char], a: usize, b: usize) -> (r: (usize, usize))
    requires
        a <= b <= v@.len(),
    ensures
        a <= r.0 <= r.1 <= b,
        v@.subrange(r.0 as int, r.1 as int) == tag_name(v@.subrange(a as int, b as int)),
{
    let mut i = a;
    while i < b && v[i] == '/'
        invariant
            a <= i <= b <= v@.len(),
            forall|k: int| a <= k < i ==> v@[k] == '/',
        decreases b - i,
    {
        i = i + 1;
    }
    let ghost t = v@.subrange(a as int, b as int);
    proof {
        assert forall|k: int| 0 <= k < i - a implies t[k] == '/' by {
            assert(t[k] == v@[k + a]);
        }
        lemma_strip_slashes_skip(t, i - a);
        assert(t.skip(i - a) =~= v@.subrange(i as int, b as int));
        let u = v@.subrange(i as int, b as int);
        if u.len() > 0 {
            assert(u[0] == v@[i as int]);
        }
    }
    let mut j = i;
    while j < b && !char_is_whitespace(v[j]) && v[j] != '/'
        invariant
            i <= j <= b <= v@.len(),
            forall|k: int| i <= k < j ==> !is_ws(#[trigger] v@[k]) && v@[k] != '/',
        decreases b - j,
    {
        j = j + 1;
    }
    proof {
        let u = v@.subrange(i as int, b as int);
        assert forall|k: int| 0 <= k < j - i implies !is_ws(#[trigger] u[k]) && u[k] != '/' by {
            assert(u[k] == v@[k + i]);
        }
        if j < b {
            assert(u[j - i] == v@[j as int]);
        }
        lemma_name_prefix(u, j - i);
        assert(u.take(j - i) =~= v@.subrange(i as int, j as int));
    }
    (i, j)
}

/// Whether `v[a..b]` is one of `tags`.
fn tag_listed(v: &[char], a: usize, b: usize, tags: &[&str]) -> (r: bool)
    requires
        a <= b <= v@.len(),
    ensures
        r == tag_views(tags@).contains(v@.subrange(a as int, b as int)),
{
    let mut k: usize = 0;
    while k < tags.len()
        invariant
            k <= tags@.len(),
            a <= b <= v@.len(),
            forall|m: int| 0 <= m < k ==> tags@[m]@ != v@.subrange(a as int, b as int),
        decreases tags@.len() - k,
    {
        if chars_eq_lit(v, a, b, tags[k]) {
            assert(tag_views(tags@)[k as int] == v@.subrange(a as int, b as int));
            return true;
        }
        k = k + 1;
    }
    proof {
        if tag_views(tags@).contains(v@.subrange(a as int, b as int)) {
            let m = choose|m: int| 0 <= m < tags@.len() && tag_views(tags@)[m] == v@.subrange(a as int, b as int);
            assert(tags@[m]@ == v@.subrange(a as int, b as int));
        }
    }
    false
}

/// The tags-to-text pass of [`xml_to_text`], before entity decoding.
#[verifier::rlimit(60)]
pub fn xml_raw_chars(v: &[char], tags: &[&str]) -> (r: Vec<char>)
    ensures
        r@ == xml_raw(v@, seq![], tag_views(tags@)),
{
    let ghost tv = tag_views(tags@);
    let mut out: Vec<char> = Vec::new();
    let mut i: usize = 0;
    proof {
        assert(v@.skip(0) =~= v@);
    }
    while i < v.len()
        invariant
            i <= v@.len(),
            tv == tag_views(tags@),
            xml_raw(v@.skip(i as int), out@, tv) == xml_raw(v@, seq![], tv),
        decreases v@.len() - i,
    {
        let ghost rest = v@.skip(i as int);
        proof {
            assert(rest[0] == v@[i as int]);
        }
        if v[i] == '<' {
            let e = find_from(v, i, '>');
            if e >= v.len() {
                proof {
                    assert(xml_raw(rest, out@, tv) == out@);
                }
                return out;
            }
            proof {
                assert(rest.subrange(1, e - i) =~= v@.subrange(i + 1, e as int));
                assert(rest.skip(e - i + 1) =~= v@.skip(e + 1));
            }
            let (ta, tb) = trim_bounds(slice_range(v, i + 1, e).as_slice());
            let t0 = i + 1 + ta;
            let ghost tag = trim_start(v@.subrange(i + 1, e as int));
            proof {
                assert(tag =~= v@.subrange(t0 as int, e as int));
                if tag.len() > 0 {
                    assert(tag[0] == v@[t0 as int]);
                }
            }
            if t0 < e && (v[t0] == '!' || v[t0] == '?') {
            } else {
                let (n0, n1) = tag_name_bounds(v, t0, e);
                if tag_listed(v, n0, n1, tags) {
                    out.push('\n');
                } else {
                    push_space(&mut out);
                }
            }
            i = e + 1;
        } else {
            proof {
                assert(rest.drop_first() =~= v@.skip(i + 1));
            }
            out.push(v[i]);
            i = i + 1;
        }
    }
    proof {
        assert(v@.skip(i as int) =~= Seq::<char>::empty());
    }
    out
}

/// Minimal XML to text: tags named in `break_tags` become line breaks,
/// other tags a single space, comments and declarations vanish, text is
/// kept, then entities are decoded. No full XML parsing: the aim is text
/// that can be searched.
pub fn xml_to_text(xml: &str, break_tags: &[&str]) -> (r: String)
    ensures
        r@ == xml_text(xml@, tag_views(break_tags@)),
{
    let v = str_chars(xml);
    let raw = xml_raw_chars(v.as_slice(), break_tags);
    if crate::text::chars_contains(raw.as_slice(), '&') {
        let d = decode_entities_chars(raw.as_slice());
        string_from_chars(d.as_slice())
    } else {
        proof {
            lemma_decode_no_amp(raw@);
        }
        string_from_chars(raw.as_slice())
    }
}

/// The lines of a text: split at `\n`, each trimmed, empty ones dropped.
pub open spec fn nl_lines(rest: Seq<char>, cur: Seq<char>, acc: Seq<Seq<char>>) -> Seq<Seq<char>>
    decreases rest.len(),
{
    if rest.len() == 0 {
        acc + keep_line(cur)
    } else if rest[0] == '\n' {
        nl_lines(rest.drop_first(), seq![], acc + keep_line(cur))
    } else {
        nl_lines(rest.drop_first(), cur.push(rest[0]), acc)
    }
}

pub open spec fn keep_line(cur: Seq<char>) -> Seq<Seq<char>> {
    if trim(cur).len() > 0 { seq![trim(cur)] } else { seq![] }
}

pub open spec fn text_lines(s: Seq<char>) -> Seq<Seq<char>> {
    nl_lines(s, seq![], seq![])
}

pub open spec fn cv(v: Seq<Vec<char>>) -> Seq<Seq<char>> {
    v.map_values(|x: Vec<char>| x@)
}

pub open spec fn sv(v: Seq<String>) -> Seq<Seq<char>> {
    v.map_values(|x: String| x@)
}

fn keep_line_exec(out: &mut Vec<Vec<char>>, cur: &Vec<char>)
    ensures
        cv(final(out)@) == cv(old(out)@) + keep_line(cur@),
{
    let t = crate::text::trim_chars(cur.as_slice());
    if t.len() > 0 {
        let ghost o = cv(out@);
        out.push(t);
        assert(cv(out@) =~= o + seq![t@]);
    } else {
        assert(cv(out@) + Seq::<Seq<char>>::empty() =~= cv(out@));
    }
}

/// [`text_lines`] of `v`.
pub fn text_lines_exec(v: &[char]) -> (r: Vec<Vec<char>>)
    ensures
        cv(r@) == text_lines(v@),
{
    let mut out: Vec<Vec<char>> = Vec::new();
    let mut cur: Vec<char> = Vec::new();
    let mut i: usize = 0;
    proof {
        assert(v@.skip(0) =~= v@);
        assert(cv(out@) =~= Seq::<Seq<char>>::empty());
    }
    while i < v.len()
        invariant
            i <= v@.len(),
            nl_lines(v@.skip(i as int), cur@, cv(out@)) == text_lines(v@),
        decreases v@.len() - i,
    {
        proof {
            assert(v@.skip(i as int)[0] == v@[i as int]);
            assert(v@.skip(i as int).drop_first() =~= v@.skip(i + 1));
        }
        if v[i] == '\n' {
            keep_line_exec(&mut out, &cur);
            cur = Vec::new();
            assert(cur@ =~= Seq::<char>::empty());
        } else {
            cur.push(v[i]);
        }
        i = i + 1;
    }
    proof {
        assert(v@.skip(i as int) =~= Seq::<char>::empty());
    }
    keep_line_exec(&mut out, &cur);
    out
}

/// The OLE compound document signature `D0 CF 11 E0 A1 B1 1A E1`.
pub open spec fn is_ole_spec(b: Seq<u8>) -> bool {
    b.len() >= 8 && b[0] == 0xD0 && b[1] == 0xCF && b[2] == 0x11 && b[3] == 0xE0 && b[4] == 0xA1
        && b[5] == 0xB1 && b[6] == 0x1A && b[7] == 0xE1
}

/// Whether the bytes start with the OLE compound document signature.
pub fn is_ole(bytes: &[u8]) -> (r: bool)
    ensures
        r == is_ole_spec(bytes@),
{
    bytes.len() >= 8 && bytes[0] == 0xD0 && bytes[1] == 0xCF && bytes[2] == 0x11 && bytes[3] == 0xE0
        && bytes[4] == 0xA1 && bytes[5] == 0xB1 && bytes[6] == 0x1A && bytes[7] == 0xE1
}

/// Code units that binary OLE structures decode to: private use, the
/// non-characters U+FFFE and U+FFFF, and surrogates.
pub open spec fn is_junk_spec(u: u32) -> bool {
    (0xE000 <= u && u <= 0xF8FF) || u == 0xFFFE || u == 0xFFFF || (0xD800 <= u && u <= 0xDFFF)
}

/// Whether `c` is binary junk rather than text (see [`is_junk_spec`]).
pub fn is_junk_char(c: char) -> (r: bool)
    ensures
        r == is_junk_spec(c as u32),
{
    let u = c as u32;
    (0xE000 <= u && u <= 0xF8FF) || u == 0xFFFE || u == 0xFFFF || (0xD800 <= u && u <= 0xDFFF)
}

/// The OLE header sector: directory and sector tables, not text.
pub const OLE_HEADER_BYTES: usize = 512;

pub open spec fn is_ascii_seq(s: Seq<char>) -> bool {
    forall|k: int| 0 <= k < s.len() ==> (#[trigger] s[k] as u32) < 128
}

/// An OLE run is kept when, trimmed, it has at least 4 characters and is
/// not pure ASCII (short ASCII runs are format metadata).
pub open spec fn ole_flush(line: Seq<char>, lines: Seq<Seq<char>>) -> Seq<Seq<char>> {
    let t = trim(line);
    if t.len() >= 4 && !is_ascii_seq(t) { lines.push(t) } else { lines }
}

/// The UTF-16LE unit at byte `i`.
pub open spec fn unit_at(b: Seq<u8>, i: int) -> u32 {
    ((b[i] as u32) + (b[i + 1] as u32) * 256) as u32
}

/// The OLE scan from byte `i` on, with the current run `line` and the runs
/// kept so far: each UTF-16LE unit that is a character, neither control
/// nor junk, extends the run (white space as one space); any other unit
/// ends the run.
pub open spec fn ole_scan(b: Seq<u8>, i: int, line: Seq<char>, lines: Seq<Seq<char>>) -> Seq<Seq<char>>
    decreases b.len() - i,
{
    if 0 <= i && i + 1 < b.len() {
        let u = unit_at(b, i);
        if !is_junk_spec(u) && !is_ctrl(u as char) {
            if is_ws(u as char) {
                ole_scan(b, i + 2, push_space_spec(line), lines)
            } else {
                ole_scan(b, i + 2, line.push(u as char), lines)
            }
        } else {
            ole_scan(b, i + 2, seq![], ole_flush(line, lines))
        }
    } else {
        ole_flush(line, lines)
    }
}

/// The text runs of a legacy OLE document, after its header sector.
pub open spec fn ole_lines_spec(b: Seq<u8>) -> Seq<Seq<char>> {
    ole_scan(b, if b.len() > 512 { 512 } else { b.len() as int }, seq![], seq![])
}

fn ole_flush_exec(lines: &mut Vec<Vec<char>>, line: &Vec<char>)
    ensures
        cv(final(lines)@) == ole_flush(line@, cv(old(lines)@)),
{
    let t = crate::text::trim_chars(line.as_slice());
    if t.len() >= 4 {
        let mut ascii = true;
        let mut k: usize = 0;
        while k < t.len()
            invariant
                k <= t@.len(),
                ascii == (forall|m: int| 0 <= m < k ==> (#[trigger] t@[m] as u32) < 128),
            decreases t@.len() - k,
        {
            if (t[k] as u32) >= 128 {
                ascii = false;
            }
            k = k + 1;
        }
        if !ascii {
            let ghost o = cv(lines@);
            lines.push(t);
            assert(cv(lines@) =~= o.push(t@));
        }
    }
}

/// The text runs of a legacy OLE (Word/Excel/PowerPoint 97-2003) document:
/// its bytes after the header sector read as UTF-16LE, runs of text kept
/// when they pass [`ole_flush`].
pub fn ole_lines_chars(bytes: &[u8]) -> (r: Vec<Vec<char>>)
    ensures
        cv(r@) == ole_lines_spec(bytes@),
{
    let mut lines: Vec<Vec<char>> = Vec::new();
    let mut line: Vec<char> = Vec::new();
    let mut i: usize = if bytes.len() > OLE_HEADER_BYTES { OLE_HEADER_BYTES } else { bytes.len() };
    proof {
        assert(cv(lines@) =~= Seq::<Seq<char>>::empty());
        assert(line@ =~= Seq::<char>::empty());
    }
    while i < bytes.len() && bytes.len() - i > 1
        invariant
            i <= bytes@.len(),
            ole_scan(bytes@, i as int, line@, cv(lines@)) == ole_lines_spec(bytes@),
        decreases bytes@.len() - i,
    {
        let u: u32 = bytes[i] as u32 + (bytes[i + 1] as u32) * 256;
        let ghost uu = unit_at(bytes@, i as int);
        assert(u == uu);
        if u >= 0xD800 && u <= 0xDFFF {
            ole_flush_exec(&mut lines, &line);
            line = Vec::new();
            assert(line@ =~= Seq::<char>::empty());
        } else {
            match char_from_u32(u) {
                Some(c) => {
                    proof {
                        vstd::utf8::char_u32_cast(c, u);
                    }
                    if !char_is_control(c) && !is_junk_char(c) {
                        if char_is_whitespace(c) {
                            push_space(&mut line);
                        } else {
                            line.push(c);
                        }
                    } else {
                        ole_flush_exec(&mut lines, &line);
                        line = Vec::new();
                        assert(line@ =~= Seq::<char>::empty());
                    }
                },
                None => {
                    proof {
                        assert(false);
                    }
                },
            }
        }
        i = i + 2;
    }
    ole_flush_exec(&mut lines, &line);
    lines
}

/// The text runs of a legacy OLE document, as strings.
pub fn ole_lines(bytes: &[u8]) -> (r: Vec<String>)
    ensures
        sv(r@) == ole_lines_spec(bytes@),
{
    let v = ole_lines_chars(bytes);
    strings_of(&v)
}

/// The character vectors as strings.
pub fn strings_of(v: &Vec<Vec<char>>) -> (r: Vec<String>)
    ensures
        sv(r@) == cv(v@),
{
    let mut out: Vec<String> = Vec::new();
    let mut i: usize = 0;
    while i < v.len()
        invariant
            i <= v@.len(),
            sv(out@) == cv(v@).take(i as int),
        decreases v@.len() - i,
    {
        let ghost o = sv(out@);
        let s = string_from_chars(v[i].as_slice());
        out.push(s);
        assert(sv(out@) =~= o.push(s@));
        assert(cv(v@).take(i + 1) =~= cv(v@).take(i as int).push(v@[i as int]@));
        i = i + 1;
    }
    assert(cv(v@).take(v@.len() as int) =~= cv(v@));
    out
}

#[verifier::external_type_specification]
#[verifier::external_body]
#[verifier::reject_recursive_types(R)]
pub struct ExZipArchive<R>(zip::ZipArchive<R>);

#[verifier::external_type_specification]
#[verifier::external_body]
#[verifier::reject_recursive_types(T)]
pub struct ExCursor<T>(std::io::Cursor<T>);

/// Whether `zip::ZipArchive::new` accepts the bytes as a zip archive.
pub uninterp spec fn zip_opens(bytes: Seq<u8>) -> bool;

/// What `zip::ZipArchive::len` gives for the archive the bytes hold.
pub uninterp spec fn zip_count(bytes: Seq<u8>) -> nat;

/// The name of entry `i` (`by_index(i)` then `name`), when it can be read.
pub uninterp spec fn zip_entry_name(bytes: Seq<u8>, i: nat) -> Option<Seq<char>>;

/// The first `limit` bytes of the entry called `name` (`by_name`, then
/// `take(limit).read_to_end`), when it can be read.
pub uninterp spec fn zip_entry_data(bytes: Seq<u8>, name: Seq<char>, limit: nat) -> Option<Seq<u8>>;

/// The result of `String::from_utf8_lossy`.
pub uninterp spec fn utf8_lossy(bytes: Seq<u8>) -> Seq<char>;

/// `String::from_utf8_lossy`: the bytes as text, invalid sequences replaced.
#[verifier::external_body]
pub(crate) fn lossy_text(b: &[u8]) -> (r: String)
    ensures
        r@ == utf8_lossy(b@),
{
    String::from_utf8_lossy(b).into_owned()
}

/// A zip archive held in memory, with the bytes it was read from.
pub struct ZipPackage<'a> {
    archive: zip::ZipArchive<std::io::Cursor<&'a [u8]>>,
    bytes: &'a [u8],
}

impl<'a> ZipPackage<'a> {
    pub closed spec fn source(self) -> Seq<u8> {
        self.bytes@
    }

    /// `zip::ZipArchive::new` over the bytes: the archive, when they hold one.
    #[verifier::external_body]
    fn open(bytes: &'a [u8]) -> (r: Option<ZipPackage<'a>>)
        ensures
            r is Some <==> zip_opens(bytes@),
            r matches Some(p) ==> p.source() == bytes@,
    {
        match zip::ZipArchive::new(std::io::Cursor::new(bytes)) {
            Ok(archive) => Some(ZipPackage { archive, bytes }),
            Err(_) => None,
        }
    }

    /// `zip::ZipArchive::len`: the number of entries.
    #[verifier::external_body]
    fn count(&self) -> (r: usize)
        ensures
            r == zip_count(self.source()),
    {
        self.archive.len()
    }

    /// `zip::ZipArchive::by_index(i)` and the entry's `name`.
    #[verifier::external_body]
    fn entry_name(&mut self, i: usize) -> (r: Option<String>)
        ensures
            final(self).source() == old(self).source(),
            r is Some <==> zip_entry_name(old(self).source(), i as nat) is Some,
            r matches Some(s) ==> zip_entry_name(old(self).source(), i as nat) == Some(s@),
    {
        match self.archive.by_index(i) {
            Ok(f) => Some(f.name().to_string()),
            Err(_) => None,
        }
    }

    /// `zip::ZipArchive::by_name(name)` read through `take(limit)`.
    #[verifier::external_body]
    fn entry_data(&mut self, name: &str, limit: u64) -> (r: Option<Vec<u8>>)
        ensures
            final(self).source() == old(self).source(),
            r is Some <==> zip_entry_data(old(self).source(), name@, limit as nat) is Some,
            r matches Some(d) ==> zip_entry_data(old(self).source(), name@, limit as nat) == Some(d@),
    {
        match self.archive.by_name(name) {
            Ok(f) => {
                let mut buf: Vec<u8> = Vec::new();
                match std::io::Read::read_to_end(&mut std::io::Read::take(f, limit), &mut buf) {
                    Ok(_) => Some(buf),
                    Err(_) => None,
                }
            },
            Err(_) => None,
        }
    }
}

/// Upper bound on one XML part, against archives that would exhaust memory.
pub const MAX_PART_BYTES: u64 = 33554432;

pub open spec fn lits(s: Seq<&str>) -> Seq<Seq<char>> {
    tag_views(s)
}

/// Which parts of an OOXML package carry text, and the tags that end a line
/// in them: body, headers and footers of a `docx` (paragraph, soft break,
/// table row); shared strings (`si`) and sheets (`row`) of an `xlsx`; the
/// slides (`a:p`) of a `pptx`.
pub open spec fn part_tags(name: Seq<char>, ext: Seq<char>) -> Option<Seq<Seq<char>>> {
    if ext == "docx"@ {
        if name == "word/document.xml"@ || starts_with(name, "word/header"@) || starts_with(name, "word/footer"@) {
            Some(seq!["w:p"@, "w:br"@, "w:tr"@])
        } else {
            None
        }
    } else if ext == "xlsx"@ {
        if name == "xl/sharedStrings.xml"@ {
            Some(seq!["si"@])
        } else if starts_with(name, "xl/worksheets/sheet"@) && ends_with(name, ".xml"@) {
            Some(seq!["row"@])
        } else {
            None
        }
    } else if ext == "pptx"@ {
        if starts_with(name, "ppt/slides/slide"@) && ends_with(name, ".xml"@) {
            Some(seq!["a:p"@])
        } else {
            None
        }
    } else {
        None
    }
}

fn eq_lit(v: &[char], s: &str) -> (r: bool)
    ensures
        r == (v@ == s@),
{
    let l = lit(s);
    crate::text::chars_eq(v, l.as_slice())
}

/// The text parts of an OOXML package and their line-ending tags (see
/// [`part_tags`]).
pub fn part_spec(name: &[char], ext: &[char]) -> (r: Option<Vec<&'static str>>)
    ensures
        match r {
            Some(t) => part_tags(name@, ext@) == Some(tag_views(t@)),
            None => part_tags(name@, ext@) is None,
        },
{
    if eq_lit(ext, "docx") {
        if eq_lit(name, "word/document.xml") || chars_starts_with(name, lit("word/header").as_slice())
            || chars_starts_with(name, lit("word/footer").as_slice()) {
            let t = vec!["w:p", "w:br", "w:tr"];
            assert(tag_views(t@) =~= seq!["w:p"@, "w:br"@, "w:tr"@]);
            Some(t)
        } else {
            None
        }
    } else if eq_lit(ext, "xlsx") {
        if eq_lit(name, "xl/sharedStrings.xml") {
            let t = vec!["si"];
            assert(tag_views(t@) =~= seq!["si"@]);
            Some(t)
        } else if chars_starts_with(name, lit("xl/worksheets/sheet").as_slice()) && chars_ends_with(name, lit(".xml").as_slice()) {
            let t = vec!["row"];
            assert(tag_views(t@) =~= seq!["row"@]);
            Some(t)
        } else {
            None
        }
    } else if eq_lit(ext, "pptx") {
        if chars_starts_with(name, lit("ppt/slides/slide").as_slice()) && chars_ends_with(name, lit(".xml").as_slice()) {
            let t = vec!["a:p"];
            assert(tag_views(t@) =~= seq!["a:p"@]);
            Some(t)
        } else {
            None
        }
    } else {
        None
    }
}

/// The names of the archive's entries `0..n` that can be read, in order.
pub open spec fn present_names(bytes: Seq<u8>, n: nat) -> Seq<Seq<char>>
    decreases n,
{
    if n == 0 {
        seq![]
    } else {
        present_names(bytes, (n - 1) as nat) + match zip_entry_name(bytes, (n - 1) as nat) {
            Some(s) => seq![s],
            None => Seq::<Seq<char>>::empty(),
        }
    }
}

pub open spec fn name_keys(names: Seq<Seq<char>>) -> Seq<(nat, Seq<char>)> {
    names.map_values(|n: Seq<char>| (0nat, n))
}

/// The names in sorted (code point) order.
pub open spec fn sorted_names(names: Seq<Seq<char>>) -> Seq<Seq<char>> {
    sort_order(name_keys(names), names.len()).map_values(|i: nat| names[i as int])
}

/// The text of an XML part's bytes: decoded when valid UTF-8, decoded with
/// replacement characters otherwise.
pub open spec fn part_xml(d: Seq<u8>) -> Seq<char> {
    if valid_utf8(d) { decode_utf8(d) } else { utf8_lossy(d) }
}

/// The lines an OOXML part contributes.
pub open spec fn part_lines(bytes: Seq<u8>, ext: Seq<char>, name: Seq<char>) -> Seq<Seq<char>> {
    match part_tags(name, ext) {
        None => seq![],
        Some(tags) => match zip_entry_data(bytes, name, MAX_PART_BYTES as nat) {
            None => seq![],
            Some(d) => text_lines(xml_text(part_xml(d), tags)),
        },
    }
}

pub open spec fn parts_lines(bytes: Seq<u8>, ext: Seq<char>, names: Seq<Seq<char>>) -> Seq<Seq<char>>
    decreases names.len(),
{
    if names.len() == 0 {
        seq![]
    } else {
        parts_lines(bytes, ext, names.drop_last()) + part_lines(bytes, ext, names.last())
    }
}

/// The lines of an OOXML package: its text parts in name order, each cut
/// into lines.
pub open spec fn ooxml_lines_spec(bytes: Seq<u8>, ext: Seq<char>) -> Seq<Seq<char>> {
    if zip_opens(bytes) {
        parts_lines(bytes, ext, sorted_names(present_names(bytes, zip_count(bytes))))
    } else {
        seq![]
    }
}

/// A Word document's body (`word/document.xml`), headers
/// (`word/header...`) and footers (`word/footer...`) are its text parts:
/// each gives the lines of its XML text cut at paragraphs (`w:p`), soft
/// breaks (`w:br`) and table rows (`w:tr`).
pub proof fn lemma_docx_part_lines(bytes: Seq<u8>, name: Seq<char>)
    requires
        name == "word/document.xml"@ || starts_with(name, "word/header"@) || starts_with(name, "word/footer"@),
    ensures
        part_lines(bytes, "docx"@, name) == match zip_entry_data(bytes, name, MAX_PART_BYTES as nat) {
            None => Seq::<Seq<char>>::empty(),
            Some(d) => text_lines(xml_text(part_xml(d), seq!["w:p"@, "w:br"@, "w:tr"@])),
        },
{
}

/// The text parts of an Excel workbook are its shared strings
/// (`xl/sharedStrings.xml`, one line per string item `si`) and its sheets
/// (`xl/worksheets/sheet....xml`, one line per `row`); those of a
/// PowerPoint presentation are its slides (`ppt/slides/slide....xml`, one
/// line per paragraph `a:p`).
pub proof fn lemma_xlsx_pptx_parts(name: Seq<char>)
    ensures
        name == "xl/sharedStrings.xml"@ ==> part_tags(name, "xlsx"@) == Some(seq!["si"@]),
        starts_with(name, "xl/worksheets/sheet"@) && ends_with(name, ".xml"@) ==> part_tags(name, "xlsx"@) == Some(
            seq!["row"@],
        ),
        starts_with(name, "ppt/slides/slide"@) && ends_with(name, ".xml"@) ==> part_tags(name, "pptx"@) == Some(seq!["a:p"@]),
{
    reveal_strlit("docx");
    reveal_strlit("xlsx");
    reveal_strlit("pptx");
    reveal_strlit("xl/sharedStrings.xml");
    reveal_strlit("xl/worksheets/sheet");
    assert("xlsx"@ != "docx"@) by {
        assert("xlsx"@[0] != "docx"@[0]);
    }
    assert("pptx"@ != "docx"@ && "pptx"@ != "xlsx"@) by {
        assert("pptx"@[0] != "docx"@[0]);
        assert("pptx"@[0] != "xlsx"@[0]);
    }
    if starts_with(name, "xl/worksheets/sheet"@) && name == "xl/sharedStrings.xml"@ {
        assert(name[3] == "xl/worksheets/sheet"@[3]);
        assert(name[3] == "xl/sharedStrings.xml"@[3]);
    }
}

/// A document is read by its extension in lower case: `docx`, `xlsx` and
/// `pptx` as OOXML packages, `doc`, `xls` and `ppt` as OLE files (when the
/// bytes carry the OLE signature, else nothing).
pub proof fn lemma_formats_read(path: Seq<char>, bytes: Seq<u8>)
    requires
        extension(path) is Some,
    ensures
        lowercase(extension(path)->0) == "docx"@ || lowercase(extension(path)->0) == "xlsx"@
            || lowercase(extension(path)->0) == "pptx"@ ==> file_lines_spec(path, bytes) == ooxml_lines_spec(
            bytes,
            lowercase(extension(path)->0),
        ),
        lowercase(extension(path)->0) == "doc"@ || lowercase(extension(path)->0) == "xls"@
            || lowercase(extension(path)->0) == "ppt"@ ==> file_lines_spec(path, bytes) == (if is_ole_spec(bytes) {
            ole_lines_spec(bytes)
        } else {
            Seq::<Seq<char>>::empty()
        }),
{
    reveal_strlit("docx");
    reveal_strlit("xlsx");
    reveal_strlit("pptx");
    reveal_strlit("doc");
    reveal_strlit("xls");
    reveal_strlit("ppt");
    let x = lowercase(extension(path)->0);
    if x == "doc"@ || x == "xls"@ || x == "ppt"@ {
        assert(x.len() == 3);
    }
}

proof fn lemma_parts_lines_segment(bytes: Seq<u8>, ext: Seq<char>, names: Seq<Seq<char>>, i: int)
    requires
        0 <= i < names.len(),
    ensures
        parts_lines(bytes, ext, names.take(i)).len() + part_lines(bytes, ext, names[i]).len() <= parts_lines(bytes, ext, names).len(),
        parts_lines(bytes, ext, names).subrange(
            parts_lines(bytes, ext, names.take(i)).len() as int,
            (parts_lines(bytes, ext, names.take(i)).len() + part_lines(bytes, ext, names[i]).len()) as int,
        ) == part_lines(bytes, ext, names[i]),
    decreases names.len(),
{
    let a = parts_lines(bytes, ext, names.drop_last());
    let b = part_lines(bytes, ext, names.last());
    assert(parts_lines(bytes, ext, names) == a + b);
    if i == names.len() - 1 {
        assert(names.take(i) =~= names.drop_last());
        assert((a + b).subrange(a.len() as int, (a.len() + b.len()) as int) =~= b);
    } else {
        lemma_parts_lines_segment(bytes, ext, names.drop_last(), i);
        assert(names.drop_last().take(i) =~= names.take(i));
        assert(names.drop_last()[i] == names[i]);
        let off = parts_lines(bytes, ext, names.take(i)).len() as int;
        let l = part_lines(bytes, ext, names[i]).len() as int;
        assert((a + b).subrange(off, off + l) =~= a.subrange(off, off + l));
    }
}

/// The lines extracted from a Word document (extension `docx` in any
/// letter case) hold, together and in order, the lines of each of its
/// headers and footers as well as of its body, wherever the part can be
/// read.
pub proof fn lemma_docx_headers_footers_extracted(path: Seq<char>, bytes: Seq<u8>, i: int, name: Seq<char>, d: Seq<u8>)
    requires
        extension(path) is Some,
        lowercase(extension(path)->0) == "docx"@,
        zip_opens(bytes),
        0 <= i < sorted_names(present_names(bytes, zip_count(bytes))).len(),
        name == sorted_names(present_names(bytes, zip_count(bytes)))[i],
        name == "word/document.xml"@ || starts_with(name, "word/header"@) || starts_with(name, "word/footer"@),
        zip_entry_data(bytes, name, MAX_PART_BYTES as nat) == Some(d),
    ensures
        exists|off: int|
            0 <= off <= file_lines_spec(path, bytes).len() && text_lines(xml_text(part_xml(d), seq!["w:p"@, "w:br"@, "w:tr"@])).len()
                <= (#[trigger] file_lines_spec(path, bytes).skip(off)).len() && file_lines_spec(path, bytes).skip(off).take(
                text_lines(xml_text(part_xml(d), seq!["w:p"@, "w:br"@, "w:tr"@])).len() as int,
            ) == text_lines(xml_text(part_xml(d), seq!["w:p"@, "w:br"@, "w:tr"@])),
{
    let names = sorted_names(present_names(bytes, zip_count(bytes)));
    lemma_docx_part_lines(bytes, name);
    lemma_parts_lines_segment(bytes, "docx"@, names, i);
    assert(file_lines_spec(path, bytes) == parts_lines(bytes, "docx"@, names));
    let off = parts_lines(bytes, "docx"@, names.take(i)).len() as int;
    let f = file_lines_spec(path, bytes);
    let l = part_lines(bytes, "docx"@, name).len() as int;
    assert(f.skip(off).take(l) =~= f.subrange(off, off + l));
}

fn part_lines_exec(pkg: &mut ZipPackage, ext: &[char], name: &Vec<char>) -> (r: Vec<Vec<char>>)
    ensures
        final(pkg).source() == old(pkg).source(),
        cv(r@) == part_lines(old(pkg).source(), ext@, name@),
{
    match part_spec(name.as_slice(), ext) {
        None => Vec::new(),
        Some(tags) => {
            let ns = string_from_chars(name.as_slice());
            match pkg.entry_data(ns.as_str(), MAX_PART_BYTES) {
                None => Vec::new(),
                Some(d) => {
                    let xml = match str_from_utf8(d.as_slice()) {
                        Some(x) => x,
                        None => lossy_text(d.as_slice()),
                    };
                    let text = xml_to_text(xml.as_str(), tags.as_slice());
                    let tv = str_chars(text.as_str());
                    text_lines_exec(tv.as_slice())
                },
            }
        },
    }
}

/// The lines of an OOXML package held in `bytes` (see [`ooxml_lines_spec`]).
pub fn ooxml_lines(bytes: &[u8], ext: &[char]) -> (r: Vec<Vec<char>>)
    ensures
        cv(r@) == ooxml_lines_spec(bytes@, ext@),
{
    let mut pkg = match ZipPackage::open(bytes) {
        None => return Vec::new(),
        Some(p) => p,
    };
    let n = pkg.count();
    let mut names: Vec<Vec<char>> = Vec::new();
    let mut i: usize = 0;
    while i < n
        invariant
            i <= n,
            pkg.source() == bytes@,
            n == zip_count(bytes@),
            cv(names@) == present_names(bytes@, i as nat),
        decreases n - i,
    {
        let ghost o = cv(names@);
        match pkg.entry_name(i) {
            Some(s) => {
                let c = str_chars(s.as_str());
                names.push(c);
                assert(cv(names@) =~= o + seq![s@]);
            },
            None => {
                assert(cv(names@) =~= o + Seq::<Seq<char>>::empty());
            },
        }
        i = i + 1;
    }
    let ghost all = cv(names@);
    let mut keys: Vec<SortKey> = Vec::new();
    let mut k: usize = 0;
    while k < names.len()
        invariant
            k <= names@.len(),
            keys_view(keys@) == name_keys(cv(names@)).take(k as int),
        decreases names@.len() - k,
    {
        let ghost o = keys_view(keys@);
        let t = slice_range(names[k].as_slice(), 0, names[k].len());
        assert(t@ =~= names@[k as int]@);
        keys.push(SortKey { rank: 0, text: t });
        assert(keys_view(keys@) =~= o.push((0nat, names@[k as int]@)));
        assert(name_keys(cv(names@))[k as int] == (0nat, names@[k as int]@));
        assert(name_keys(cv(names@)).take(k + 1) =~= name_keys(cv(names@)).take(k as int).push((0nat, names@[k as int]@)));
        assert(keys_view(keys@) =~= name_keys(cv(names@)).take(k + 1));
        k = k + 1;
    }
    assert(name_keys(cv(names@)).take(names@.len() as int) =~= name_keys(cv(names@)));
    let ord = sort_indices(&keys);
    proof {
        lemma_sort_order_range(name_keys(all), all.len());
    }
    let ghost sorted = sorted_names(all);
    let mut out: Vec<Vec<char>> = Vec::new();
    let mut j: usize = 0;
    while j < ord.len()
        invariant
            j <= ord@.len(),
            ord@.len() == names@.len(),
            all == cv(names@),
            pkg.source() == bytes@,
            zip_opens(bytes@),
            all == present_names(bytes@, zip_count(bytes@)),
            sorted == sorted_names(all),
            ord@.map_values(|x: usize| x as nat) == sort_order(name_keys(all), all.len()),
            forall|m: int| 0 <= m < all.len() ==> #[trigger] sort_order(name_keys(all), all.len())[m] < all.len(),
            cv(out@) == parts_lines(bytes@, ext@, sorted.take(j as int)),
        decreases ord@.len() - j,
    {
        let ghost o = cv(out@);
        let idx = ord[j];
        proof {
            assert(ord@.map_values(|x: usize| x as nat)[j as int] == idx as nat);
            assert(idx < names@.len());
            assert(sorted[j as int] == all[idx as int]);
            assert(sorted.take(j + 1).drop_last() =~= sorted.take(j as int));
        }
        let part = part_lines_exec(&mut pkg, ext, &names[idx]);
        let ghost pv = cv(part@);
        let mut q: usize = 0;
        while q < part.len()
            invariant
                q <= part@.len(),
                cv(out@) == o + cv(part@).take(q as int),
            decreases part@.len() - q,
        {
            let ghost oo = cv(out@);
            let line = slice_range(part[q].as_slice(), 0, part[q].len());
            assert(line@ =~= part@[q as int]@);
            out.push(line);
            assert(cv(out@) =~= oo.push(line@));
            assert(cv(part@).take(q + 1) =~= cv(part@).take(q as int).push(part@[q as int]@));
            assert(cv(out@) =~= o + cv(part@).take(q + 1));
            q = q + 1;
        }
        assert(cv(part@).take(part@.len() as int) =~= cv(part@));
        j = j + 1;
    }
    assert(sorted.take(ord@.len() as int) =~= sorted);
    out
}

/// The lines a document of kind `ext` (lower case) with content `bytes`
/// yields: OOXML packages by their text parts, legacy OLE documents by
/// their UTF-16LE runs (only when the OLE signature is there).
pub open spec fn doc_lines_spec(ext: Seq<char>, bytes: Seq<u8>) -> Seq<Seq<char>> {
    if ext == "docx"@ || ext == "xlsx"@ || ext == "pptx"@ {
        ooxml_lines_spec(bytes, ext)
    } else if ext == "doc"@ || ext == "xls"@ || ext == "ppt"@ {
        if is_ole_spec(bytes) { ole_lines_spec(bytes) } else { seq![] }
    } else {
        seq![]
    }
}

/// The lines of the document at `path` whose content is `bytes`: its
/// extension in lower case selects the reader (see [`doc_lines_spec`]).
pub open spec fn file_lines_spec(path: Seq<char>, bytes: Seq<u8>) -> Seq<Seq<char>> {
    match extension(path) {
        Some(e) => doc_lines_spec(lowercase(e), bytes),
        None => seq![],
    }
}

fn doc_lines(path: &str, bytes: &[u8]) -> (r: Vec<Vec<char>>)
    ensures
        cv(r@) == file_lines_spec(path@, bytes@),
{
    let e = match extension_of(path) {
        None => return Vec::new(),
        Some(e) => e,
    };
    let es = string_from_chars(e.as_slice());
    let lower = str_to_lowercase(es.as_str());
    let ext = str_chars(lower.as_str());
    if eq_lit(ext.as_slice(), "docx") || eq_lit(ext.as_slice(), "xlsx") || eq_lit(ext.as_slice(), "pptx") {
        ooxml_lines(bytes, ext.as_slice())
    } else if eq_lit(ext.as_slice(), "doc") || eq_lit(ext.as_slice(), "xls") || eq_lit(ext.as_slice(), "ppt") {
        if is_ole(bytes) {
            ole_lines_chars(bytes)
        } else {
            Vec::new()
        }
    } else {
        Vec::new()
    }
}

/// All lines of the document at `path` with content `bytes`; nothing when
/// it yields no line (unsupported, damaged, encrypted or empty).
pub fn extract_lines(path: &str, bytes: &[u8]) -> (r: Option<Vec<String>>)
    ensures
        r is Some <==> file_lines_spec(path@, bytes@).len() > 0,
        r matches Some(v) ==> sv(v@) == file_lines_spec(path@, bytes@),
{
    let lines = doc_lines(path, bytes);
    if lines.len() > 0 {
        Some(strings_of(&lines))
    } else {
        None
    }
}

/// The lines a visitor receives when it stops after `limit` lines: the
/// first `limit` lines of the document at `path` with content `bytes`, in
/// order, and whether the document yields any line at all.
pub fn for_each_line(path: &str, bytes: &[u8], limit: usize) -> (r: (Vec<String>, bool))
    ensures
        sv(r.0@) == file_lines_spec(path@, bytes@).take(
            if limit < file_lines_spec(path@, bytes@).len() { limit as int } else { file_lines_spec(path@, bytes@).len() as int },
        ),
        r.1 == (file_lines_spec(path@, bytes@).len() > 0),
{
    let lines = doc_lines(path, bytes);
    let any = lines.len() > 0;
    let n = if limit < lines.len() { limit } else { lines.len() };
    let mut out: Vec<String> = Vec::new();
    let mut i: usize = 0;
    while i < n
        invariant
            i <= n <= lines@.len(),
            sv(out@) == cv(lines@).take(i as int),
        decreases n - i,
    {
        let ghost o = sv(out@);
        let s = string_from_chars(lines[i].as_slice());
        out.push(s);
        assert(sv(out@) =~= o.push(s@));
        assert(cv(lines@).take(i + 1) =~= cv(lines@).take(i as int).push(lines@[i as int]@));
        i = i + 1;
    }
    (out, any)
}

/// The lines joined, each followed by `\n`.
pub open spec fn join_lines(lines: Seq<Seq<char>>) -> Seq<char>
    decreases lines.len(),
{
    if lines.len() == 0 {
        seq![]
    } else {
        join_lines(lines.drop_last()) + lines.last() + seq!['\n']
    }
}

/// The whole text of the document at `path` with content `bytes`: its lines
/// each followed by `\n`; nothing when it yields no line.
pub fn extract_text(path: &str, bytes: &[u8]) -> (r: Option<String>)
    ensures
        r is Some <==> file_lines_spec(path@, bytes@).len() > 0,
        r matches Some(s) ==> s@ == join_lines(file_lines_spec(path@, bytes@)),
{
    let lines = doc_lines(path, bytes);
    if lines.len() == 0 {
        return None;
    }
    let mut out: Vec<char> = Vec::new();
    let mut i: usize = 0;
    while i < lines.len()
        invariant
            i <= lines@.len(),
            out@ == join_lines(cv(lines@).take(i as int)),
        decreases lines@.len() - i,
    {
        let ghost o = out@;
        out.extend_from_slice(lines[i].as_slice());
        out.push('\n');
        proof {
            assert(cv(lines@).take(i + 1).drop_last() =~= cv(lines@).take(i as int));
            assert(out@ =~= o + lines@[i as int]@ + seq!['\n']);
        }
        i = i + 1;
    }
    assert(cv(lines@).take(lines@.len() as int) =~= cv(lines@));
    Some(string_from_chars(out.as_slice()))
}

/// A line as the extraction hands it out: not empty, trimmed, one line.
pub open spec fn displayable(l: Seq<char>) -> bool {
    l.len() > 0 && trim(l) == l && !l.contains('\n')
}

pub open spec fn all_displayable(ls: Seq<Seq<char>>) -> bool {
    forall|i: int| 0 <= i < ls.len() ==> displayable(#[trigger] ls[i])
}

proof fn lemma_trim_start_props(s: Seq<char>)
    ensures
        trim_start(s).len() <= s.len(),
        trim_start(s) == s.subrange(s.len() - trim_start(s).len(), s.len() as int),
        trim_start(s).len() > 0 ==> !is_ws(trim_start(s)[0]),
    decreases s.len(),
{
    if s.len() > 0 && is_ws(s[0]) {
        lemma_trim_start_props(s.drop_first());
        let t = trim_start(s.drop_first());
        assert(s.drop_first().subrange(s.drop_first().len() - t.len(), s.drop_first().len() as int) =~= s.subrange(
            s.len() - t.len(),
            s.len() as int,
        ));
    } else {
        assert(s.subrange(0, s.len() as int) =~= s);
    }
}

proof fn lemma_trim_end_props(s: Seq<char>)
    ensures
        trim_end(s).len() <= s.len(),
        trim_end(s) == s.subrange(0, trim_end(s).len() as int),
        trim_end(s).len() > 0 ==> !is_ws(trim_end(s).last()),
    decreases s.len(),
{
    if s.len() > 0 && is_ws(s.last()) {
        lemma_trim_end_props(s.drop_last());
        let t = trim_end(s.drop_last());
        assert(s.drop_last().subrange(0, t.len() as int) =~= s.subrange(0, t.len() as int));
    } else {
        assert(s.subrange(0, s.len() as int) =~= s);
    }
}

/// `trim` keeps a contiguous part of its input, and trimming twice changes
/// nothing more.
proof fn lemma_trim(s: Seq<char>)
    ensures
        trim(trim(s)) == trim(s),
        forall|i: int| 0 <= i < trim(s).len() ==> s.contains(#[trigger] trim(s)[i]),
{
    let t = trim_start(s);
    let u = trim_end(t);
    lemma_trim_start_props(s);
    lemma_trim_end_props(t);
    let k = s.len() - t.len();
    assert forall|i: int| 0 <= i < u.len() implies s.contains(#[trigger] u[i]) by {
        assert(u[i] == t[i]);
        assert(t[i] == s[k + i]);
    }
    if u.len() > 0 {
        assert(u[0] == t[0]);
        assert(trim_start(u) == u);
        lemma_trim_end_props(u);
        assert(trim_end(u) == u);
    } else {
        assert(trim_start(u) == u);
    }
}

proof fn lemma_kept_displayable(cur: Seq<char>)
    requires
        !cur.contains('\n'),
    ensures
        all_displayable(keep_line(cur)),
{
    lemma_trim(cur);
    if trim(cur).len() > 0 {
        let t = trim(cur);
        if t.contains('\n') {
            let i = choose|i: int| 0 <= i < t.len() && t[i] == '\n';
            assert(cur.contains(t[i]));
        }
        assert(keep_line(cur)[0] == t);
    }
}

proof fn lemma_concat_displayable(a: Seq<Seq<char>>, b: Seq<Seq<char>>)
    requires
        all_displayable(a),
        all_displayable(b),
    ensures
        all_displayable(a + b),
{
    assert forall|i: int| 0 <= i < (a + b).len() implies displayable(#[trigger] (a + b)[i]) by {
        if i < a.len() {
            assert((a + b)[i] == a[i]);
        } else {
            assert((a + b)[i] == b[i - a.len()]);
        }
    }
}

proof fn lemma_nl_lines(rest: Seq<char>, cur: Seq<char>, acc: Seq<Seq<char>>)
    requires
        all_displayable(acc),
        !cur.contains('\n'),
    ensures
        all_displayable(nl_lines(rest, cur, acc)),
    decreases rest.len(),
{
    lemma_kept_displayable(cur);
    lemma_concat_displayable(acc, keep_line(cur));
    if rest.len() > 0 {
        if rest[0] == '\n' {
            lemma_nl_lines(rest.drop_first(), seq![], acc + keep_line(cur));
        } else {
            let c2 = cur.push(rest[0]);
            assert(!c2.contains('\n')) by {
                if c2.contains('\n') {
                    let i = choose|i: int| 0 <= i < c2.len() && c2[i] == '\n';
                    if i < cur.len() {
                        assert(cur[i] == c2[i]);
                    }
                }
            }
            lemma_nl_lines(rest.drop_first(), c2, acc);
        }
    }
}

proof fn lemma_parts_displayable(bytes: Seq<u8>, ext: Seq<char>, names: Seq<Seq<char>>)
    ensures
        all_displayable(parts_lines(bytes, ext, names)),
    decreases names.len(),
{
    if names.len() > 0 {
        lemma_parts_displayable(bytes, ext, names.drop_last());
        let name = names.last();
        match part_tags(name, ext) {
            None => {},
            Some(tags) => match zip_entry_data(bytes, name, MAX_PART_BYTES as nat) {
                None => {},
                Some(d) => {
                    lemma_nl_lines(xml_text(part_xml(d), tags), seq![], seq![]);
                },
            },
        }
        lemma_concat_displayable(parts_lines(bytes, ext, names.drop_last()), part_lines(bytes, ext, name));
    }
}

proof fn lemma_ole_scan_displayable(b: Seq<u8>, i: int, line: Seq<char>, lines: Seq<Seq<char>>)
    requires
        all_displayable(lines),
        !line.contains('\n'),
    ensures
        all_displayable(ole_scan(b, i, line, lines)),
    decreases b.len() - i,
{
    let t = trim(line);
    lemma_trim(line);
    assert(all_displayable(ole_flush(line, lines))) by {
        if t.len() >= 4 && !is_ascii_seq(t) {
            if t.contains('\n') {
                let k = choose|k: int| 0 <= k < t.len() && t[k] == '\n';
                assert(line.contains(t[k]));
            }
            assert forall|k: int| 0 <= k < lines.push(t).len() implies displayable(#[trigger] lines.push(t)[k]) by {
                if k < lines.len() {
                    assert(lines.push(t)[k] == lines[k]);
                }
            }
        }
    }
    if 0 <= i && i + 1 < b.len() {
        let u = unit_at(b, i);
        if !is_junk_spec(u) && !is_ctrl(u as char) {
            let next = if is_ws(u as char) { push_space_spec(line) } else { line.push(u as char) };
            assert(!next.contains('\n')) by {
                if next.contains('\n') {
                    let k = choose|k: int| 0 <= k < next.len() && next[k] == '\n';
                    if k < line.len() {
                        assert(next[k] == line[k]);
                    }
                }
            }
            lemma_ole_scan_displayable(b, i + 2, next, lines);
        } else {
            lemma_ole_scan_displayable(b, i + 2, seq![], ole_flush(line, lines));
        }
    }
}

/// Every line extracted from a document is one displayable line: not
/// empty, without surrounding white space, without a line break.
pub proof fn lemma_lines_displayable(path: Seq<char>, bytes: Seq<u8>)
    ensures
        all_displayable(file_lines_spec(path, bytes)),
{
    if zip_opens(bytes) {
        lemma_parts_displayable(bytes, lowercase(extension(path)->0), sorted_names(present_names(bytes, zip_count(bytes))));
    }
    lemma_ole_scan_displayable(bytes, if bytes.len() > 512 { 512 } else { bytes.len() as int }, seq![], seq![]);
}

} // verus!
