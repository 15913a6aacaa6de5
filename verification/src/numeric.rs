//! Numeric syntax of raw readings.
//!
//! Every reading arrives as a string, and each numeric kind accepts exactly
//! what the target type's parse documents. A float reading is an optional
//! sign before either a special word (`inf`, `infinity`, `nan`, matched
//! case-insensitively) or a number: digits with an optional fraction, or a
//! dotted fraction alone, with an optional signed exponent. An index is
//! digits with an optional leading plus; an `i32` allows either sign.
//! Integer-typed fields are parsed exactly; float-typed fields are validated
//! and carried as text, to be turned into machine floats at unverified
//! edges.

use vstd::prelude::*;

verus! {

pub open spec fn is_digit_char(c: char) -> bool {
    '0' <= c && c <= '9'
}

pub open spec fn digit_val(c: char) -> nat {
    (c as nat - '0' as nat) as nat
}

/// A nonempty, all-digit string.
pub open spec fn is_digits(s: Seq<char>) -> bool {
    s.len() > 0 && forall|i: int| 0 <= i < s.len() ==> is_digit_char(#[trigger] s[i])
}

/// The value of a digit string read in base ten.
pub open spec fn digits_val(s: Seq<char>) -> nat
    decreases s.len(),
{
    if s.len() == 0 {
        0
    } else {
        digits_val(s.drop_last()) * 10 + digit_val(s.last())
    }
}

/// Reading more digits never shrinks the value.
pub proof fn lemma_digits_val_take_le(s: Seq<char>, i: int, j: int)
    requires
        0 <= i <= j <= s.len(),
    ensures
        digits_val(s.take(i)) <= digits_val(s.take(j)),
    decreases j - i,
{
    if i < j {
        lemma_digits_val_take_le(s, i, j - 1);
        assert(s.take(j).drop_last() =~= s.take(j - 1));
        assert(digits_val(s.take(j)) == digits_val(s.take(j - 1)) * 10 + digit_val(
            s.take(j).last(),
        ));
    }
}

/// Where the digit run that starts at `from` ends: the first position at or
/// after `from` holding a non-digit, or the length of the string.
pub open spec fn digits_end(s: Seq<char>, from: int) -> int
    decreases s.len() - from,
    when from <= s.len()
{
    if from >= s.len() {
        s.len() as int
    } else if !is_digit_char(s[from]) {
        from
    } else {
        digits_end(s, from + 1)
    }
}

/// What `digits_end` marks: digits up to it, and a non-digit (or the end)
/// at it.
pub proof fn lemma_digits_end(s: Seq<char>, from: int)
    requires
        0 <= from <= s.len(),
    ensures
        from <= digits_end(s, from) <= s.len(),
        forall|j: int| from <= j < digits_end(s, from) ==> is_digit_char(#[trigger] s[j]),
        digits_end(s, from) < s.len() ==> !is_digit_char(s[digits_end(s, from)]),
    decreases s.len() - from,
{
    if from < s.len() && is_digit_char(s[from]) {
        lemma_digits_end(s, from + 1);
    }
}

/// Parses a nonempty all-digit string into a `u64`; rejects anything else,
/// including values past `u64::MAX`.
pub fn parse_digits(s: &str) -> (r: Option<u64>)
    ensures
        r is Some <==> is_digits(s@) && digits_val(s@) <= u64::MAX,
        r matches Some(n) ==> n == digits_val(s@),
{
    let n = s.unicode_len();
    if n == 0 {
        return None;
    }
    let mut i: usize = 0;
    let mut acc: u64 = 0;
    while i < n
        invariant
            0 <= i <= n,
            n == s@.len(),
            forall|j: int| 0 <= j < i ==> is_digit_char(#[trigger] s@[j]),
            acc == digits_val(s@.take(i as int)),
        decreases n - i,
    {
        let c = s.get_char(i);
        if !('0' <= c && c <= '9') {
            assert(!is_digit_char(s@[i as int]));
            return None;
        }
        let d: u64 = (c as u32 - 48) as u64;
        assert(d == digit_val(s@[i as int]));
        assert(s@.take(i + 1).drop_last() =~= s@.take(i as int));
        assert(digits_val(s@.take(i + 1)) == acc * 10 + d);
        if acc > (u64::MAX - d) / 10 {
            proof {
                assert(acc * 10 + d > u64::MAX) by (nonlinear_arith)
                    requires
                        acc > (u64::MAX - d) / 10,
                        d <= 9,
                ;
                lemma_digits_val_take_le(s@, i + 1, n as int);
                assert(s@.take(n as int) =~= s@);
            }
            return None;
        }
        acc = acc * 10 + d;
        i += 1;
    }
    assert(s@.take(n as int) =~= s@);
    Some(acc)
}

/// An index text without its optional leading plus sign.
pub open spec fn index_body(s: Seq<char>) -> Seq<char> {
    if s.len() > 0 && s[0] == '+' {
        s.skip(1)
    } else {
        s
    }
}

/// Text form of an unsigned index, as the unsigned parses accept it: digits
/// with an optional leading plus.
pub open spec fn is_index_text(s: Seq<char>) -> bool {
    is_digits(index_body(s))
}

pub open spec fn index_val(s: Seq<char>) -> nat {
    digits_val(index_body(s))
}

/// Parses unsigned index text exactly: `Some` on `+?[0-9]+` within `u64`
/// range, `None` otherwise.
pub fn parse_u64(s: &str) -> (r: Option<u64>)
    ensures
        r is Some <==> is_index_text(s@) && index_val(s@) <= u64::MAX,
        r matches Some(n) ==> n == index_val(s@),
{
    let n = s.unicode_len();
    if n > 0 && s.get_char(0) == '+' {
        let body = s.substring_char(1, n);
        assert(body@ =~= s@.skip(1));
        parse_digits(body)
    } else {
        parse_digits(s)
    }
}

/// Text form of an `i32`, as `i32`'s parse accepts it: an optional sign
/// before digits, in range.
pub open spec fn is_i32_text(s: Seq<char>) -> bool {
    if s.len() > 0 && s[0] == '-' {
        is_digits(s.skip(1)) && digits_val(s.skip(1)) <= 0x8000_0000
    } else {
        is_index_text(s) && index_val(s) <= 0x7fff_ffff
    }
}

pub open spec fn i32_text_val(s: Seq<char>) -> int {
    if s.len() > 0 && s[0] == '-' {
        -(digits_val(s.skip(1)) as int)
    } else {
        index_val(s) as int
    }
}

/// Parses signed integer text exactly: `Some` on `[+-]?[0-9]+` within `i32`
/// range, `None` otherwise.
pub fn parse_i32(s: &str) -> (r: Option<i32>)
    ensures
        r is Some <==> is_i32_text(s@),
        r matches Some(n) ==> n as int == i32_text_val(s@),
{
    let n = s.unicode_len();
    if n > 0 && s.get_char(0) == '-' {
        let body = s.substring_char(1, n);
        assert(body@ =~= s@.skip(1));
        match parse_digits(body) {
            Some(m) => {
                if m <= 0x8000_0000 {
                    Some((-(m as i64)) as i32)
                } else {
                    None
                }
            },
            None => None,
        }
    } else {
        match parse_u64(s) {
            Some(m) => {
                if m <= 0x7fff_ffff {
                    Some(m as i32)
                } else {
                    None
                }
            },
            None => None,
        }
    }
}

/// Whether `a` reads as `b` when letter case is ignored; `b` is expected in
/// lower case.
pub open spec fn char_eq_ci(a: char, b: char) -> bool {
    a == b || ('A' <= a && a <= 'Z' && b as int == a as int + 32)
}

/// Whether `s` spells the lower-case word `w`, ignoring case.
pub open spec fn matches_word(s: Seq<char>, w: Seq<char>) -> bool {
    s.len() == w.len() && forall|i: int| 0 <= i < s.len() ==> char_eq_ci(#[trigger] s[i], w[i])
}

/// Decides `matches_word`.
fn matches_word_exec(s: &str, w: &str) -> (r: bool)
    ensures
        r == matches_word(s@, w@),
{
    let n = s.unicode_len();
    let m = w.unicode_len();
    if n != m {
        return false;
    }
    let mut i: usize = 0;
    while i < n
        invariant
            0 <= i <= n,
            n == s@.len(),
            n == w@.len(),
            forall|j: int| 0 <= j < i ==> char_eq_ci(#[trigger] s@[j], w@[j]),
        decreases n - i,
    {
        let a = s.get_char(i);
        let b = w.get_char(i);
        let same = a == b || ('A' <= a && a <= 'Z' && (a as u32) + 32 == (b as u32));
        if !same {
            assert(!char_eq_ci(s@[i as int], w@[i as int]));
            return false;
        }
        i += 1;
    }
    true
}

/// The special float words the float parse accepts, case-insensitively.
pub open spec fn is_special_float(s: Seq<char>) -> bool {
    matches_word(s, "inf"@) || matches_word(s, "infinity"@) || matches_word(s, "nan"@)
}

fn check_special_float(s: &str) -> (r: bool)
    ensures
        r == is_special_float(s@),
{
    matches_word_exec(s, "inf") || matches_word_exec(s, "infinity") || matches_word_exec(s, "nan")
}

/// A signed exponent part starting at `from`: `e` or `E`, an optional sign,
/// and at least one digit running to the end of the string.
pub open spec fn is_exponent(s: Seq<char>, from: int) -> bool {
    &&& 0 <= from < s.len()
    &&& (s[from] == 'e' || s[from] == 'E')
    &&& ({
        let e = if from + 1 < s.len() && (s[from + 1] == '+' || s[from + 1] == '-') {
            from + 2
        } else {
            from + 1
        };
        e < s.len() && digits_end(s, e) == s.len()
    })
}

/// Decides `is_exponent`.
fn check_exponent(s: &str, from: usize) -> (r: bool)
    requires
        from <= s@.len(),
    ensures
        r == is_exponent(s@, from as int),
{
    let n = s.unicode_len();
    if from >= n {
        return false;
    }
    let c = s.get_char(from);
    if !(c == 'e' || c == 'E') {
        return false;
    }
    let mut e = from + 1;
    if e < n {
        let sc = s.get_char(e);
        if sc == '+' || sc == '-' {
            e = e + 1;
        }
    }
    if e >= n {
        return false;
    }
    let d = scan_digits(s, e);
    d == n
}

/// An unsigned float number, as the float parse accepts it: digits with an
/// optional dotted fraction, or a dotted fraction alone, then an optional
/// exponent.
pub open spec fn is_float_number(s: Seq<char>) -> bool {
    let d1 = digits_end(s, 0);
    if d1 > 0 {
        ||| d1 == s.len()
        ||| (d1 < s.len() && s[d1] == '.' && ({
            let d2 = digits_end(s, d1 + 1);
            d2 == s.len() || is_exponent(s, d2)
        }))
        ||| is_exponent(s, d1)
    } else {
        s.len() > 1 && s[0] == '.' && ({
            let d2 = digits_end(s, 1);
            d2 > 1 && (d2 == s.len() || is_exponent(s, d2))
        })
    }
}

/// Numeric reading text: an optional sign before a special float word or an
/// unsigned float number — the accept-set the float parse documents.
/// Opaque so that callers reason through `check_numeric_text`'s contract
/// instead of unfolding the grammar.
#[verifier::opaque]
pub open spec fn is_numeric_text(s: Seq<char>) -> bool {
    let b = if s.len() > 0 && (s[0] == '-' || s[0] == '+') {
        s.skip(1)
    } else {
        s
    };
    is_special_float(b) || is_float_number(b)
}

/// Index of the first non-digit character at or after `from`, or the length
/// of the string if all the rest are digits.
fn scan_digits(s: &str, from: usize) -> (r: usize)
    requires
        from <= s@.len(),
    ensures
        from <= r <= s@.len(),
        r == digits_end(s@, from as int),
{
    let n = s.unicode_len();
    let mut i: usize = from;
    while i < n
        invariant
            from <= i <= n,
            n == s@.len(),
            digits_end(s@, from as int) == digits_end(s@, i as int),
        decreases n - i,
    {
        let c = s.get_char(i);
        if !('0' <= c && c <= '9') {
            assert(!is_digit_char(s@[i as int]));
            return i;
        }
        i += 1;
    }
    i
}

/// Decides `is_float_number` by one left-to-right scan.
fn check_float_number(s: &str) -> (r: bool)
    ensures
        r == is_float_number(s@),
{
    let n = s.unicode_len();
    let d1 = scan_digits(s, 0);
    if d1 > 0 {
        if d1 == n {
            return true;
        }
        let c = s.get_char(d1);
        if c == '.' {
            let d2 = scan_digits(s, d1 + 1);
            if d2 == n {
                return true;
            }
            return check_exponent(s, d2);
        }
        check_exponent(s, d1)
    } else {
        if n > 1 && s.get_char(0) == '.' {
            let d2 = scan_digits(s, 1);
            if d2 <= 1 {
                return false;
            }
            if d2 == n {
                return true;
            }
            return check_exponent(s, d2);
        }
        false
    }
}

/// Decides `is_numeric_text`.
pub fn check_numeric_text(s: &str) -> (r: bool)
    ensures
        r == is_numeric_text(s@),
{
    proof {
        reveal(is_numeric_text);
    }
    let n = s.unicode_len();
    let skip_sign = if n > 0 {
        let c = s.get_char(0);
        c == '-' || c == '+'
    } else {
        false
    };
    let body = if skip_sign {
        let b = s.substring_char(1, n);
        assert(b@ =~= s@.skip(1));
        b
    } else {
        s
    };
    if check_special_float(body) {
        return true;
    }
    check_float_number(body)
}

} // verus!
