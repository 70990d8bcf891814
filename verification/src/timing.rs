//! Time-of-day logic for the schedule supervisors.
//!
//! Times travel through the system as fixed-width zero-padded `HH:MM`
//! strings.  Window membership is decided by lexicographic comparison,
//! which on this fixed-width format agrees with comparing the encoded
//! minutes since midnight; `lemma_hhmm_lex_minutes` proves that.

use vstd::prelude::*;

verus! {

/// A decimal digit character.
pub open spec fn is_digit_char(c: char) -> bool {
    '0' as int <= c as int <= '9' as int
}

/// The numeric value of a decimal digit character.
pub open spec fn digit_val(c: char) -> int {
    c as int - '0' as int
}

/// A fixed-width `HH:MM` time of day: two digits, a colon, two digits,
/// with the hour below 24 and the minute below 60.
pub open spec fn valid_hhmm(s: Seq<char>) -> bool {
    &&& s.len() == 5
    &&& is_digit_char(s[0])
    &&& is_digit_char(s[1])
    &&& s[2] == ':'
    &&& is_digit_char(s[3])
    &&& is_digit_char(s[4])
    &&& 10 * digit_val(s[0]) + digit_val(s[1]) < 24
    &&& 10 * digit_val(s[3]) + digit_val(s[4]) < 60
}

/// The minutes since midnight encoded by a valid `HH:MM` string.
pub open spec fn hhmm_minutes(s: Seq<char>) -> int {
    (10 * digit_val(s[0]) + digit_val(s[1])) * 60 + 10 * digit_val(s[3]) + digit_val(s[4])
}

/// Lexicographic "less than or equal" on character sequences, ordered
/// by code point, as Rust orders `str` values.
pub open spec fn lex_le(a: Seq<char>, b: Seq<char>) -> bool
    decreases a.len(),
{
    if a.len() == 0 {
        true
    } else if b.len() == 0 {
        false
    } else if a[0] != b[0] {
        (a[0] as int) < (b[0] as int)
    } else {
        lex_le(a.drop_first(), b.drop_first())
    }
}

/// On valid fixed-width `HH:MM` strings, lexicographic order is exactly
/// the order of the encoded minutes since midnight.
pub proof fn lemma_hhmm_lex_minutes(a: Seq<char>, b: Seq<char>)
    requires
        valid_hhmm(a),
        valid_hhmm(b),
    ensures
        lex_le(a, b) <==> hhmm_minutes(a) <= hhmm_minutes(b),
{
    let a1 = a.drop_first();
    let b1 = b.drop_first();
    let a2 = a1.drop_first();
    let b2 = b1.drop_first();
    let a3 = a2.drop_first();
    let b3 = b2.drop_first();
    let a4 = a3.drop_first();
    let b4 = b3.drop_first();
    assert(a1[0] == a[1] && a1[1] == a[2] && a1[2] == a[3] && a1[3] == a[4]);
    assert(b1[0] == b[1] && b1[1] == b[2] && b1[2] == b[3] && b1[3] == b[4]);
    assert(a2[0] == a[2] && a2[1] == a[3] && a2[2] == a[4]);
    assert(b2[0] == b[2] && b2[1] == b[3] && b2[2] == b[4]);
    assert(a3[0] == a[3] && a3[1] == a[4]);
    assert(b3[0] == b[3] && b3[1] == b[4]);
    assert(a4[0] == a[4] && a4.len() == 1);
    assert(b4[0] == b[4] && b4.len() == 1);
    assert(lex_le(a, b) == if a[0] != b[0] {
        (a[0] as int) < (b[0] as int)
    } else {
        lex_le(a1, b1)
    });
    assert(lex_le(a1, b1) == if a1[0] != b1[0] {
        (a1[0] as int) < (b1[0] as int)
    } else {
        lex_le(a2, b2)
    });
    assert(lex_le(a2, b2) == if a2[0] != b2[0] {
        (a2[0] as int) < (b2[0] as int)
    } else {
        lex_le(a3, b3)
    });
    assert(lex_le(a3, b3) == if a3[0] != b3[0] {
        (a3[0] as int) < (b3[0] as int)
    } else {
        lex_le(a4, b4)
    });
    assert(lex_le(a4, b4) == if a4[0] != b4[0] {
        (a4[0] as int) < (b4[0] as int)
    } else {
        lex_le(a4.drop_first(), b4.drop_first())
    });
    assert(a4.drop_first().len() == 0);
    assert(lex_le(a4.drop_first(), b4.drop_first()));
}

/// Compares two strings lexicographically, as `<=` on `str` does.
fn str_lex_le(a: &str, b: &str) -> (r: bool)
    ensures
        r == lex_le(a@, b@),
{
    let a_len = a.unicode_len();
    let b_len = b.unicode_len();
    let mut i: usize = 0;
    proof {
        assert(a@.skip(0) =~= a@);
        assert(b@.skip(0) =~= b@);
    }
    loop
        invariant
            i <= a_len,
            i <= b_len,
            a_len == a@.len(),
            b_len == b@.len(),
            lex_le(a@, b@) == lex_le(a@.skip(i as int), b@.skip(i as int)),
        decreases a_len - i,
    {
        if i >= a_len {
            // `a` is exhausted, so it is a prefix of `b` (or equal)
            assert(a@.skip(i as int).len() == 0);
            return true;
        }
        if i >= b_len {
            assert(b@.skip(i as int).len() == 0 && a@.skip(i as int).len() > 0);
            return false;
        }
        let ca = a.get_char(i);
        let cb = b.get_char(i);
        assert(a@.skip(i as int)[0] == a@[i as int] && b@.skip(i as int)[0] == b@[i as int]);
        if ca != cb {
            return (ca as u32) < (cb as u32);
        }
        assert(a@.skip(i as int).drop_first() =~= a@.skip(i + 1));
        assert(b@.skip(i as int).drop_first() =~= b@.skip(i + 1));
        i = i + 1;
    }
}

/// Compares two strings for character-wise equality.
pub fn str_eq(a: &str, b: &str) -> (r: bool)
    ensures
        r <==> a@ =~= b@,
{
    let a_len = a.unicode_len();
    let b_len = b.unicode_len();
    if a_len != b_len {
        return false;
    }
    let mut i: usize = 0;
    while i < a_len
        invariant
            i <= a_len,
            a_len == a@.len(),
            a_len == b@.len(),
            forall|j: int| 0 <= j < i ==> a@[j] == b@[j],
        decreases a_len - i,
    {
        if a.get_char(i) != b.get_char(i) {
            return false;
        }
        i = i + 1;
    }
    true
}

/// Window membership for the schedule supervisors: whether `time` lies
/// in the inclusive interval from `start` to `end`, all three compared
/// as fixed-width `HH:MM` strings.
pub fn is_time_between(time: &str, start: &str, end: &str) -> (r: bool)
    ensures
        r == (lex_le(start@, time@) && lex_le(time@, end@)),
{
    str_lex_le(start, time) && str_lex_le(time, end)
}

/// Parses a fixed-width `HH:MM` string into minutes since midnight.
/// Returns `None` exactly on strings that are not a valid time.
pub fn parse_hhmm(s: &str) -> (r: Option<u16>)
    ensures
        match r {
            Some(m) => valid_hhmm(s@) && m as int == hhmm_minutes(s@),
            None => !valid_hhmm(s@),
        },
{
    if s.unicode_len() != 5 {
        return None;
    }
    let c0 = s.get_char(0);
    let c1 = s.get_char(1);
    let c2 = s.get_char(2);
    let c3 = s.get_char(3);
    let c4 = s.get_char(4);
    if c2 != ':' {
        return None;
    }
    let d0 = digit_of(c0);
    let d1 = digit_of(c1);
    let d3 = digit_of(c3);
    let d4 = digit_of(c4);
    match (d0, d1, d3, d4) {
        (Some(d0), Some(d1), Some(d3), Some(d4)) => {
            let hour: u16 = 10 * (d0 as u16) + (d1 as u16);
            let minute: u16 = 10 * (d3 as u16) + (d4 as u16);
            if hour < 24 && minute < 60 {
                Some(hour * 60 + minute)
            } else {
                None
            }
        },
        _ => None,
    }
}

/// The numeric value of a digit character, or `None` for other characters.
pub(crate) fn digit_of(c: char) -> (r: Option<u8>)
    ensures
        match r {
            Some(d) => is_digit_char(c) && d as int == digit_val(c),
            None => !is_digit_char(c),
        },
{
    let v = c as u32;
    if 48 <= v && v <= 57 {
        Some((v - 48) as u8)
    } else {
        None
    }
}

} // verus!
