//! Reading integers and comparing text.
use vstd::prelude::*;

verus! {

/// The UTF-8 bytes of `s`: what `str::len` counts.
pub open spec fn utf8_of(s: Seq<char>) -> Seq<u8> {
    vstd::utf8::encode_utf8(s)
}

pub open spec fn is_digit(b: u8) -> bool {
    48 <= b <= 57
}

pub open spec fn all_digits(b: Seq<u8>) -> bool {
    forall|i: int| 0 <= i < b.len() ==> is_digit(#[trigger] b[i])
}

/// The number that a run of decimal digits spells, most significant first.
pub open spec fn digits_value(b: Seq<u8>) -> nat
    decreases b.len(),
{
    if b.len() == 0 {
        0
    } else {
        digits_value(b.drop_last()) * 10 + (b.last() - 48) as nat
    }
}

/// A decimal integer: an optional `+` or `-`, then one digit or more, nothing else.
pub open spec fn decimal_of(b: Seq<u8>) -> Option<int> {
    let signed = b.len() > 0 && (b[0] == 43 || b[0] == 45);
    let digits = if signed { b.drop_first() } else { b };
    if digits.len() > 0 && all_digits(digits) {
        if signed && b[0] == 45 {
            Some(-digits_value(digits))
        } else {
            Some(digits_value(digits) as int)
        }
    } else {
        None
    }
}

/// The integer that `s` spells when it lies in `lo..=hi`.
pub open spec fn integer_in(s: Seq<char>, lo: int, hi: int) -> Option<int> {
    match decimal_of(utf8_of(s)) {
        Some(v) => if lo <= v <= hi {
            Some(v)
        } else {
            None
        },
        None => None,
    }
}

proof fn lemma_digits_value_grows(b: Seq<u8>, i: int)
    requires
        0 <= i <= b.len(),
    ensures
        digits_value(b.take(i)) <= digits_value(b),
    decreases b.len(),
{
    if i < b.len() {
        assert(b.drop_last().take(i) =~= b.take(i));
        lemma_digits_value_grows(b.drop_last(), i);
    } else {
        assert(b.take(i) =~= b);
    }
}

/// Reads a decimal integer from `s` in the way of `str::parse` for a signed
/// integer type whose values are `lo..=hi`.
pub fn parse_integer(s: &str, lo: i64, hi: i64) -> (r: Option<i64>)
    requires
        lo <= 0 <= hi,
    ensures
        r matches Some(v) ==> integer_in(s@, lo as int, hi as int) == Some(v as int),
        r is None ==> integer_in(s@, lo as int, hi as int) is None,
{
    let b = s.as_bytes();
    let n = b.len();
    assert(b@ == utf8_of(s@));
    let signed = n > 0 && (b[0] == 43u8 || b[0] == 45u8);
    let negative = signed && b[0] == 45u8;
    let start: usize = if signed { 1 } else { 0 };
    let ghost digits = if signed { b@.drop_first() } else { b@ };
    assert(digits =~= b@.subrange(start as int, n as int));
    if start == n {
        return None;
    }
    // the largest magnitude that the sign allows
    let bound: i128 = if negative { -(lo as i128) } else { hi as i128 };
    let mut acc: i128 = 0;
    let mut i: usize = start;
    while i < n
        invariant
            start <= i <= n,
            n == b@.len(),
            b@ == utf8_of(s@),
            signed == (n > 0 && (b@[0] == 43 || b@[0] == 45)),
            negative == (signed && b@[0] == 45),
            start == (if signed { 1usize } else { 0usize }),
            digits == (if signed { b@.drop_first() } else { b@ }),
            digits =~= b@.subrange(start as int, n as int),
            bound == (if negative { -lo } else { hi as int }),
            0 <= bound <= 0x8000_0000_0000_0000,
            acc == digits_value(digits.take(i - start)),
            acc <= bound,
            forall|k: int| 0 <= k < i - start ==> is_digit(#[trigger] digits[k]),
        decreases n - i,
    {
        let c = b[i];
        if c < 48u8 || c > 57u8 {
            assert(!is_digit(digits[i - start]));
            assert(!all_digits(digits));
            assert(decimal_of(b@) is None);
            return None;
        }
        let ghost before = digits.take(i - start);
        assert(digits.take(i - start + 1).drop_last() =~= before);
        acc = acc * 10 + (c - 48u8) as i128;
        i = i + 1;
        if acc > bound {
            proof {
                lemma_digits_value_grows(digits, i - start);
                assert(digits.take(digits.len() as int) =~= digits);
                assert(digits_value(digits) > bound);
                if all_digits(digits) {
                    if negative {
                        assert(decimal_of(b@) == Some(-digits_value(digits)));
                    } else {
                        assert(decimal_of(b@) == Some(digits_value(digits) as int));
                    }
                }
            }
            return None;
        }
    }
    assert(digits.take(i - start) =~= digits);
    assert(all_digits(digits));
    if negative {
        Some((-acc) as i64)
    } else {
        Some(acc as i64)
    }
}

/// Whether two texts hold the same characters.
pub fn same_text(a: &str, b: &str) -> (r: bool)
    ensures
        r == (a@ == b@),
{
    let n = a.unicode_len();
    if n != b.unicode_len() {
        return false;
    }
    let mut i: usize = 0;
    while i < n
        invariant
            n == a@.len(),
            n == b@.len(),
            i <= n,
            forall|k: int| 0 <= k < i ==> a@[k] == b@[k],
        decreases n - i,
    {
        if a.get_char(i) != b.get_char(i) {
            return false;
        }
        i = i + 1;
    }
    assert(a@ =~= b@);
    true
}

} // verus!
