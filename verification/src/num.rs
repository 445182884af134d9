//! Unsigned integer text: parsing as `u32::from_str_radix` / `str::parse`
//! do it, and decimal formatting as `Display` does it.
use vstd::prelude::*;
use crate::text::char_from_ascii;

verus! {

/// The value of a digit character in base 10 or 16, if it is one.
pub open spec fn digit_value(c: char, radix: u32) -> Option<nat> {
    if '0' <= c && c <= '9' {
        Some((c as u32 - '0' as u32) as nat)
    } else if radix == 16 && 'a' <= c && c <= 'f' {
        Some((c as u32 - 'a' as u32 + 10) as nat)
    } else if radix == 16 && 'A' <= c && c <= 'F' {
        Some((c as u32 - 'A' as u32 + 10) as nat)
    } else {
        None
    }
}

pub open spec fn all_digits(s: Seq<char>, radix: u32) -> bool {
    forall|k: int| 0 <= k < s.len() ==> (#[trigger] digit_value(s[k], radix)) is Some
}

/// The number written by the digits `s` in base `radix`.
pub open spec fn digits_value(s: Seq<char>, radix: u32) -> nat
    decreases s.len(),
{
    if s.len() == 0 {
        0
    } else {
        digits_value(s.drop_last(), radix) * (radix as nat) + digit_value(s.last(), radix).unwrap_or(0)
    }
}

/// What parsing `s` as an unsigned number of base `radix` with largest
/// value `max` gives: an optional `+`, then at least one digit, and a value
/// that fits.
pub open spec fn parse_unsigned(s: Seq<char>, radix: u32, max: nat) -> Option<nat> {
    let d = if s.len() > 0 && s[0] == '+' { s.drop_first() } else { s };
    if d.len() > 0 && all_digits(d, radix) && digits_value(d, radix) <= max {
        Some(digits_value(d, radix))
    } else {
        None
    }
}

proof fn lemma_digits_value_mono(s: Seq<char>, radix: u32, i: int)
    requires
        radix == 10 || radix == 16,
        0 <= i <= s.len(),
    ensures
        digits_value(s.take(i), radix) <= digits_value(s, radix),
    decreases s.len() - i,
{
    if i < s.len() {
        lemma_digits_value_mono(s.drop_last(), radix, if i <= s.len() - 1 { i } else { s.len() - 1 });
        assert(s.drop_last().take(i) =~= s.take(i));
        let a = digits_value(s.drop_last(), radix);
        assert(a * (radix as nat) >= a) by (nonlinear_arith)
            requires radix >= 1;
    } else {
        assert(s.take(i) =~= s);
    }
}

fn digit_of(c: char, radix: u32) -> (r: Option<u32>)
    requires
        radix == 10 || radix == 16,
    ensures
        r is Some <==> digit_value(c, radix) is Some,
        r matches Some(d) ==> d == digit_value(c, radix).unwrap() && d < radix,
{
    if '0' <= c && c <= '9' {
        Some(c as u32 - '0' as u32)
    } else if radix == 16 && 'a' <= c && c <= 'f' {
        Some(c as u32 - 'a' as u32 + 10)
    } else if radix == 16 && 'A' <= c && c <= 'F' {
        Some(c as u32 - 'A' as u32 + 10)
    } else {
        None
    }
}

/// Parses `s` as an unsigned number of base `radix` (10 or 16) not above
/// `max`, with the rules of `u32::from_str_radix` and `str::parse`.
pub fn parse_unsigned_exec(s: &[char], radix: u32, max: u128) -> (r: Option<u128>)
    requires
        radix == 10 || radix == 16,
    ensures
        r is Some <==> parse_unsigned(s@, radix, max as nat) is Some,
        r matches Some(v) ==> parse_unsigned(s@, radix, max as nat) == Some(v as nat),
{
    let start: usize = if s.len() > 0 && s[0] == '+' { 1 } else { 0 };
    let ghost d = if s@.len() > 0 && s@[0] == '+' { s@.drop_first() } else { s@ };
    proof {
        assert(d =~= s@.subrange(start as int, s@.len() as int));
    }
    if start >= s.len() {
        return None;
    }
    let mut acc: u128 = 0;
    let mut i: usize = start;
    while i < s.len()
        invariant
            start <= i <= s@.len(),
            d == s@.subrange(start as int, s@.len() as int),
            d == (if s@.len() > 0 && s@[0] == '+' { s@.drop_first() } else { s@ }),
            radix == 10 || radix == 16,
            all_digits(d.take(i - start), radix),
            acc as nat == digits_value(d.take(i - start), radix),
            acc <= max,
        decreases s@.len() - i,
    {
        let ghost pre = d.take(i - start);
        let ghost nxt = d.take(i - start + 1);
        proof {
            assert(nxt.drop_last() =~= pre);
            assert(nxt.last() == s@[i as int]);
        }
        match digit_of(s[i], radix) {
            None => {
                proof {
                    assert(d[i - start] == s@[i as int]);
                    assert(digit_value(d[i - start], radix) is None);
                    assert(!all_digits(d, radix));
                }
                return None;
            },
            Some(dv) => {
                if dv as u128 > max {
                    proof {
                        assert(digits_value(nxt, radix) == acc * (radix as nat) + dv);
                        assert(acc * (radix as nat) >= 0) by (nonlinear_arith)
                            requires radix >= 1;
                        lemma_digits_value_mono(d, radix, i - start + 1);
                    }
                    return None;
                }
                if acc > (max - dv as u128) / (radix as u128) {
                    proof {
                        assert(digits_value(nxt, radix) == acc * (radix as nat) + dv);
                        assert(acc * (radix as nat) + dv > max) by (nonlinear_arith)
                            requires acc > (max - dv) / (radix as int), radix >= 1, dv <= max;
                        lemma_digits_value_mono(d, radix, i - start + 1);
                    }
                    return None;
                }
                proof {
                    assert(acc * (radix as nat) + dv <= max) by (nonlinear_arith)
                        requires acc <= (max - dv) / (radix as int), radix >= 1, dv <= max;
                    assert forall|k: int| 0 <= k < nxt.len() implies (#[trigger] digit_value(nxt[k], radix)) is Some by {
                        if k < pre.len() {
                            assert(nxt[k] == pre[k]);
                        }
                    }
                }
                acc = acc * (radix as u128) + dv as u128;
            },
        }
        i = i + 1;
    }
    proof {
        assert(d.take(d.len() as int) =~= d);
    }
    Some(acc)
}

/// Decimal digits of `n` (no leading zeros; "0" for zero).
pub open spec fn decimal(n: nat) -> Seq<char>
    decreases n,
{
    if n < 10 {
        seq![(('0' as u32) + n) as char]
    } else {
        decimal(n / 10).push((('0' as u32) + (n % 10)) as char)
    }
}

/// `Display` of an unsigned integer: its decimal digits.
pub fn decimal_chars(n: u128) -> (r: Vec<char>)
    ensures
        r@ == decimal(n as nat),
    decreases n,
{
    if n < 10 {
        let mut v: Vec<char> = Vec::new();
        v.push(char_from_ascii((48 + n) as u8));
        proof {
            assert(v@ =~= decimal(n as nat));
        }
        v
    } else {
        let mut v = decimal_chars(n / 10);
        v.push(char_from_ascii((48 + n % 10) as u8));
        proof {
            assert(v@ =~= decimal(n as nat));
        }
        v
    }
}

pub proof fn lemma_decimal_digits(n: nat)
    ensures
        decimal(n).len() > 0,
        all_digits(decimal(n), 10),
        digits_value(decimal(n), 10) == n,
        decimal(n)[0] != '+',
    decreases n,
{
    if n < 10 {
        let s = decimal(n);
        assert(s.drop_last() =~= Seq::<char>::empty());
        assert(digits_value(Seq::<char>::empty(), 10) == 0);
        assert(digit_value(s.last(), 10) == Some(n));
    } else {
        lemma_decimal_digits(n / 10);
        let s = decimal(n);
        let p = decimal(n / 10);
        assert(s.drop_last() =~= p);
        assert(digit_value(s.last(), 10) == Some(n % 10));
        assert((n / 10) * 10 + n % 10 == n) by (nonlinear_arith);
        assert forall|k: int| 0 <= k < s.len() implies (#[trigger] digit_value(s[k], 10)) is Some by {
            if k < p.len() {
                assert(s[k] == p[k]);
            }
        }
        assert(s[0] == p[0]);
    }
}

/// Parsing the decimal text of `n` gives `n` back, whenever `n` fits.
pub proof fn lemma_parse_decimal(n: nat, max: nat)
    requires
        n <= max,
    ensures
        parse_unsigned(decimal(n), 10, max) == Some(n),
{
    lemma_decimal_digits(n);
}

} // verus!
