//! What the rules read of the database driver: its errors, and how a write
//! transaction ends.
use crate::text::{digit_value, digits_value, is_decimal_digit};
use vstd::prelude::*;

verus! {

/// A driver error as the rules see it. `code` is the database's extended
/// result code as text, present only when the error came from the database
/// engine itself; `detail` is the driver's own text, which no response or
/// outcome carries.
pub struct DbError {
    pub code: Option<String>,
    pub detail: String,
}

pub open spec fn has_sign(s: Seq<char>) -> bool {
    s.len() > 0 && (s[0] == '+' || s[0] == '-')
}

/// The text after an optional leading sign.
pub open spec fn unsigned_part(s: Seq<char>) -> Seq<char> {
    if has_sign(s) {
        s.skip(1)
    } else {
        s
    }
}

pub open spec fn all_digits(s: Seq<char>) -> bool {
    forall|i: int| 0 <= i < s.len() ==> is_decimal_digit(#[trigger] s[i])
}

/// A signed decimal as `str::parse::<i32>` reads it: an optional `+` or `-`,
/// then at least one ASCII digit; leading zeros are allowed.
pub open spec fn std_decimal(s: Seq<char>) -> Option<int> {
    let digits = unsigned_part(s);
    if digits.len() > 0 && all_digits(digits) {
        if has_sign(s) && s[0] == '-' {
            Some(-digits_value(digits))
        } else {
            Some(digits_value(digits))
        }
    } else {
        None
    }
}

/// `str::parse::<i32>`: the value of `std_decimal` when it fits `i32`.
pub open spec fn parsed_i32(s: Seq<char>) -> Option<i32> {
    match std_decimal(s) {
        Some(v) => if i32::MIN <= v <= i32::MAX {
            Some(v as i32)
        } else {
            None
        },
        None => None,
    }
}

/// SQLite reports a locked database with primary result code 5 (`SQLITE_BUSY`)
/// in the low byte of the extended code.
pub open spec fn busy_code(code: Seq<char>) -> bool {
    match parsed_i32(code) {
        Some(c) => c & 0xff == 5,
        None => false,
    }
}

proof fn lemma_digits_nonnegative(s: Seq<char>)
    requires
        forall|i: int| 0 <= i < s.len() ==> is_decimal_digit(#[trigger] s[i]),
    ensures
        0 <= digits_value(s),
    decreases s.len(),
{
    if s.len() > 0 {
        let t = s.drop_last();
        assert forall|i: int| 0 <= i < t.len() implies is_decimal_digit(#[trigger] t[i]) by {
            assert(t[i] == s[i]);
        }
        lemma_digits_nonnegative(t);
        assert(is_decimal_digit(s[s.len() - 1]));
    }
}

/// Reads `text` as `str::parse::<i32>` does.
fn parse_i32(text: &str) -> (r: Option<i32>)
    ensures
        r == parsed_i32(text@),
{
    let len = text.unicode_len();
    let ghost s = text@;
    let mut start: usize = 0;
    let mut negative = false;
    if len > 0 {
        let c = text.get_char(0);
        if c == '+' || c == '-' {
            start = 1;
            negative = c == '-';
        }
    }
    let ghost digits = if start == 1 {
        s.skip(1)
    } else {
        s
    };
    assert(digits =~= s.subrange(start as int, s.len() as int));
    if start == len {
        return None;
    }
    let mut i: usize = start;
    while i < len
        invariant
            len == s.len(),
            s == text@,
            start <= i <= len,
            start <= 1,
            (start == 1) == (s.len() > 0 && (s[0] == '+' || s[0] == '-')),
            digits == (if start == 1 { s.skip(1) } else { s }),
            digits == s.subrange(start as int, len as int),
            forall|j: int| start <= j < i ==> is_decimal_digit(#[trigger] s[j]),
        decreases len - i,
    {
        let c = text.get_char(i);
        if c < '0' || c > '9' {
            assert(digits[i - start] == s[i as int]);
            assert(!is_decimal_digit(digits[i - start]));
            if start == 1 {
                assert(!is_decimal_digit(s.skip(1)[i - 1]));
            } else {
                assert(!is_decimal_digit(s[i as int]));
            }
            assert(!all_digits(unsigned_part(s)));
            return None;
        }
        i = i + 1;
    }
    assert forall|j: int| 0 <= j < digits.len() implies is_decimal_digit(#[trigger] digits[j]) by {
        assert(digits[j] == s[start + j]);
    }
    // Magnitudes above `bound` fit no `i32`; the running value saturates there.
    let bound: i64 = 2147483648;
    let mut acc: i64 = 0;
    let mut k: usize = start;
    while k < len
        invariant
            len == s.len(),
            s == text@,
            start <= k <= len,
            bound == 2147483648,
            digits == s.subrange(start as int, len as int),
            forall|j: int| 0 <= j < digits.len() ==> is_decimal_digit(#[trigger] digits[j]),
            acc == (if digits_value(digits.subrange(0, k - start)) > bound {
                bound + 1
            } else {
                digits_value(digits.subrange(0, k - start))
            }),
            0 <= acc <= bound + 1,
        decreases len - k,
    {
        let c = text.get_char(k);
        proof {
            assert(c == digits[k - start]);
            let t = digits.subrange(0, k - start + 1);
            assert(t.drop_last() =~= digits.subrange(0, k - start));
            lemma_digits_nonnegative(digits.subrange(0, k - start));
        }
        if acc <= bound {
            acc = acc * 10 + (c as u32 - 48u32) as i64;
            if acc > bound {
                acc = bound + 1;
            }
        }
        k = k + 1;
    }
    assert(digits.subrange(0, len - start) =~= digits);
    let v: i64 = if acc > bound {
        acc
    } else if negative {
        -acc
    } else {
        acc
    };
    if acc > bound || v > 2147483647 {
        return None;
    }
    Some(v as i32)
}

/// Whether the database was busy (locked by another writer), as opposed to
/// any other failure.
pub fn is_busy(error: &DbError) -> (r: bool)
    ensures
        r == (error.code matches Some(c) && busy_code(c@)),
{
    match &error.code {
        Some(code) => match parse_i32(code.as_str()) {
            Some(c) => (c & 0xff) == 5,
            None => false,
        },
        None => false,
    }
}

/// How a write transaction that ran its body ends: a body that succeeded is
/// committed, a body that failed is rolled back, and a failure of that commit
/// or rollback replaces the result.
pub open spec fn settled<T>(body: Result<T, DbError>, ending: Result<(), DbError>) -> Result<T, DbError> {
    match ending {
        Err(e) => Err(e),
        Ok(()) => body,
    }
}

/// The result of a write transaction whose body gave `body` and whose commit
/// (after success) or rollback (after failure) gave `ending`.
pub fn settle<T>(body: Result<T, DbError>, ending: Result<(), DbError>) -> (r: Result<T, DbError>)
    ensures
        r == settled(body, ending),
{
    match ending {
        Err(e) => Err(e),
        Ok(()) => body,
    }
}

} // verus!
