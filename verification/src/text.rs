//! Text helpers of the core: substring matching (the catalog's
//! title-contains queries) and decimal rendering of numbers (playback
//! references and record descriptions).

use vstd::prelude::*;
use vstd::string::StrSliceExecFns;

verus! {

/// Whether `needle` occurs at position `i` of `hay`.
pub open spec fn occurs_at(needle: Seq<char>, hay: Seq<char>, i: int) -> bool {
    0 <= i <= hay.len() - needle.len() && hay.subrange(i, i + needle.len()) == needle
}

/// `needle` occurs contiguously somewhere in `hay` (the empty needle
/// occurs in every string).
pub open spec fn is_substring(needle: Seq<char>, hay: Seq<char>) -> bool {
    exists|i: int| occurs_at(needle, hay, i)
}

/// Substring search over the characters of the two strings.
pub fn contains_substring(hay: &str, needle: &str) -> (r: bool)
    ensures
        r == is_substring(needle@, hay@),
{
    let n: usize = hay.unicode_len();
    let m: usize = needle.unicode_len();
    if m > n {
        assert(!is_substring(needle@, hay@));
        return false;
    }
    if m == 0 {
        assert(hay@.subrange(0, 0) =~= needle@);
        assert(occurs_at(needle@, hay@, 0));
        return true;
    }
    let mut i: usize = 0;
    while i <= n - m
        invariant
            m >= 1,
            m <= n,
            i <= n - m + 1,
            n == hay@.len(),
            m == needle@.len(),
            forall|k: int| 0 <= k < i ==> !occurs_at(needle@, hay@, k),
        decreases n - m + 1 - i,
    {
        let mut j: usize = 0;
        let mut mismatch: bool = false;
        while j < m && !mismatch
            invariant
                m >= 1,
                i + m <= n,
                n == hay@.len(),
                m == needle@.len(),
                j <= m,
                !mismatch ==> forall|l: int| 0 <= l < j ==> hay@[i + l] == needle@[l],
                mismatch ==> !occurs_at(needle@, hay@, i as int),
            decreases m - j, (if mismatch {
                0int
            } else {
                1int
            }),
        {
            if hay.get_char(i + j) != needle.get_char(j) {
                proof {
                    assert(hay@.subrange(i as int, i + m as int) != needle@) by {
                        if hay@.subrange(i as int, i + m as int) == needle@ {
                            assert(hay@.subrange(i as int, i + m as int)[j as int]
                                == needle@[j as int]);
                        }
                    }
                }
                mismatch = true;
            } else {
                j += 1;
            }
        }
        if !mismatch {
            proof {
                assert(hay@.subrange(i as int, i + m as int) =~= needle@);
            }
            assert(occurs_at(needle@, hay@, i as int));
            return true;
        }
        i += 1;
    }
    proof {
        assert forall|k: int| 0 <= k <= hay@.len() - needle@.len() implies !occurs_at(
            needle@,
            hay@,
            k,
        ) by {
            assert(k < i);
        }
    }
    false
}

/// The character for one decimal digit.
pub open spec fn dec_digit(d: int) -> char {
    if d == 0 {
        '0'
    } else if d == 1 {
        '1'
    } else if d == 2 {
        '2'
    } else if d == 3 {
        '3'
    } else if d == 4 {
        '4'
    } else if d == 5 {
        '5'
    } else if d == 6 {
        '6'
    } else if d == 7 {
        '7'
    } else if d == 8 {
        '8'
    } else {
        '9'
    }
}

/// The usual decimal rendering of a non-negative number: no leading
/// zeroes, except that zero itself is "0".
pub open spec fn dec_rep(n: int) -> Seq<char>
    recommends
        n >= 0,
    decreases n,
{
    if n < 10 {
        seq![dec_digit(n)]
    } else {
        dec_rep(n / 10).push(dec_digit(n % 10))
    }
}

/// Decimal rendering of a signed number: a minus sign before the digits of
/// the magnitude when the number is negative.
pub open spec fn dec_rep_signed(n: int) -> Seq<char> {
    if n < 0 {
        seq!['-'] + dec_rep(-n)
    } else {
        dec_rep(n)
    }
}

/// The string of one decimal digit.
fn digit_str(d: u32) -> (r: &'static str)
    requires
        d < 10,
    ensures
        r@ == seq![dec_digit(d as int)],
{
    proof {
        reveal_strlit("0");
        reveal_strlit("1");
        reveal_strlit("2");
        reveal_strlit("3");
        reveal_strlit("4");
        reveal_strlit("5");
        reveal_strlit("6");
        reveal_strlit("7");
        reveal_strlit("8");
        reveal_strlit("9");
    }
    let r = match d {
        0 => "0",
        1 => "1",
        2 => "2",
        3 => "3",
        4 => "4",
        5 => "5",
        6 => "6",
        7 => "7",
        8 => "8",
        _ => "9",
    };
    proof {
        assert(r@ =~= seq![dec_digit(d as int)]);
    }
    r
}

/// Renders an unsigned number in decimal.
pub fn u32_to_string(n: u32) -> (r: String)
    ensures
        r@ == dec_rep(n as int),
    decreases n,
{
    if n < 10 {
        let d = digit_str(n);
        let r = d.to_owned();
        r
    } else {
        let mut r = u32_to_string(n / 10);
        r.append(digit_str(n % 10));
        r
    }
}

/// Renders a signed number in decimal.
pub fn i32_to_string(n: i32) -> (r: String)
    ensures
        r@ == dec_rep_signed(n as int),
{
    if n >= 0 {
        u32_to_string(n as u32)
    } else {
        let wide: i64 = n as i64;
        let magnitude: u32 = (-wide) as u32;
        assert(magnitude == -(n as int));
        let mut r = String::new();
        proof {
            reveal_strlit("-");
        }
        r.append("-");
        let digits = u32_to_string(magnitude);
        r.append(digits.as_str());
        proof {
            assert(r@ =~= dec_rep_signed(n as int));
        }
        r
    }
}

} // verus!
