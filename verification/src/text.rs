//! Decimal and hexadecimal text: the wire form of identifiers, timestamps and
//! random credentials.
use vstd::prelude::*;

verus! {

broadcast use vstd::string::group_string_axioms;

/// The ASCII character of a digit value below sixteen, lower case above nine.
pub open spec fn digit_char(d: int) -> char {
    if d < 10 {
        (d + 48) as char
    } else {
        (d + 87) as char
    }
}

pub open spec fn is_decimal_digit(c: char) -> bool {
    '0' <= c && c <= '9'
}

pub open spec fn digit_value(c: char) -> int {
    c as int - 48
}

/// The value of a string of decimal digits, most significant first.
pub open spec fn digits_value(s: Seq<char>) -> int
    decreases s.len(),
{
    if s.len() == 0 {
        0
    } else {
        digits_value(s.drop_last()) * 10 + digit_value(s.last())
    }
}

/// The shortest decimal form of a natural number.
pub open spec fn decimal(n: nat) -> Seq<char>
    decreases n,
{
    if n < 10 {
        seq![digit_char(n as int)]
    } else {
        decimal(n / 10).push(digit_char((n % 10) as int))
    }
}

/// The decimal form of an integer, with a leading minus sign below zero.
pub open spec fn signed_decimal(n: int) -> Seq<char> {
    if n < 0 {
        seq!['-'] + decimal((-n) as nat)
    } else {
        decimal(n as nat)
    }
}

/// Two lower-case hexadecimal characters per byte.
pub open spec fn hex(bytes: Seq<u8>) -> Seq<char>
    decreases bytes.len(),
{
    if bytes.len() == 0 {
        Seq::empty()
    } else {
        hex(bytes.drop_last()) + seq![
            digit_char((bytes.last() / 16) as int),
            digit_char((bytes.last() % 16) as int),
        ]
    }
}

/// Ten to the power `k`.
pub open spec fn pow10(k: nat) -> nat
    decreases k,
{
    if k == 0 {
        1
    } else {
        10 * pow10((k - 1) as nat)
    }
}

pub proof fn lemma_pow10_19()
    ensures
        pow10(19) == 10000000000000000000,
{
    reveal_with_fuel(pow10, 20);
}

pub proof fn lemma_pow10_increases(a: nat, b: nat)
    requires
        a <= b,
    ensures
        pow10(a) <= pow10(b),
        pow10(a) >= 1,
    decreases b,
{
    if b > a {
        lemma_pow10_increases(a, (b - 1) as nat);
    } else if a > 0 {
        lemma_pow10_increases((a - 1) as nat, (a - 1) as nat);
    }
}

/// `s` is the canonical decimal form of the positive identifier `n`.
pub open spec fn canonical_id(s: Seq<char>, n: i64) -> bool {
    n > 0 && s == decimal(n as nat)
}

pub proof fn lemma_digit_roundtrip(d: int)
    requires
        0 <= d < 10,
    ensures
        digit_value(digit_char(d)) == d,
        is_decimal_digit(digit_char(d)),
        d > 0 ==> digit_char(d) != '0',
{
    assert(((d + 48) as char) as int == d + 48);
}

pub proof fn lemma_char_digit(c: char)
    requires
        is_decimal_digit(c),
    ensures
        0 <= digit_value(c) < 10,
        digit_char(digit_value(c)) == c,
        c != '0' ==> digit_value(c) >= 1,
{
    assert((c as int) as char == c);
}

pub proof fn lemma_decimal_shape(n: nat)
    ensures
        decimal(n).len() >= 1,
        forall|i: int| 0 <= i < decimal(n).len() ==> is_decimal_digit(#[trigger] decimal(n)[i]),
        n > 0 ==> decimal(n)[0] != '0',
        digits_value(decimal(n)) == n,
    decreases n,
{
    if n >= 10 {
        lemma_decimal_shape(n / 10);
        let d = decimal(n);
        assert(d.drop_last() =~= decimal(n / 10));
        assert(n == (n / 10) * 10 + n % 10) by (nonlinear_arith);
        lemma_digit_roundtrip((n % 10) as int);
        assert(d.last() == digit_char((n % 10) as int));
        assert(digits_value(d) == digits_value(decimal(n / 10)) * 10 + digit_value(d.last()));
    } else {
        lemma_digit_roundtrip(n as int);
        assert(decimal(n).drop_last() =~= Seq::<char>::empty());
        assert(decimal(n).last() == digit_char(n as int));
        assert(digits_value(Seq::<char>::empty()) == 0);
        assert(digits_value(decimal(n)) == digits_value(decimal(n).drop_last()) * 10 + digit_value(decimal(n).last()));
    }
}

pub proof fn lemma_decimal_len(n: nat, k: nat)
    requires
        n < pow10(k),
        k >= 1,
    ensures
        decimal(n).len() <= k,
    decreases n,
{
    if n >= 10 {
        if k == 1 {
            assert(pow10(1) == 10) by {
                reveal_with_fuel(pow10, 2);
            }
        } else {
            assert(n / 10 < pow10((k - 1) as nat)) by (nonlinear_arith)
                requires
                    n < 10 * pow10((k - 1) as nat),
            ;
            lemma_decimal_len(n / 10, (k - 1) as nat);
        }
    }
}

/// A nonempty run of digits without a leading zero is the decimal form of its value.
pub proof fn lemma_digits_are_decimal(s: Seq<char>)
    requires
        s.len() >= 1,
        forall|i: int| 0 <= i < s.len() ==> is_decimal_digit(#[trigger] s[i]),
        s[0] != '0',
    ensures
        digits_value(s) >= 1,
        decimal(digits_value(s) as nat) == s,
    decreases s.len(),
{
    if s.len() == 1 {
        lemma_char_digit(s[0]);
        assert(s.drop_last() =~= Seq::<char>::empty());
        assert(digits_value(Seq::<char>::empty()) == 0);
        assert(digits_value(s) == digit_value(s[0]));
        assert(decimal(digits_value(s) as nat) =~= s);
    } else {
        let t = s.drop_last();
        assert forall|i: int| 0 <= i < t.len() implies is_decimal_digit(#[trigger] t[i]) by {
            assert(t[i] == s[i]);
        }
        assert(t[0] == s[0]);
        lemma_digits_are_decimal(t);
        let v = digits_value(s);
        lemma_char_digit(s.last());
        assert(v == digits_value(t) * 10 + digit_value(s.last()));
        assert(v / 10 == digits_value(t) && v % 10 == digit_value(s.last())) by (nonlinear_arith)
            requires
                v == digits_value(t) * 10 + digit_value(s.last()),
                0 <= digit_value(s.last()) < 10,
        ;
        assert(digit_char(v % 10) == s.last());
        assert(decimal(v as nat) =~= s);
    }
}

/// The two readings of a canonical identifier agree: the digits checked one by
/// one, and the decimal form of a positive `i64`.
pub proof fn lemma_canonical_id_digits(s: Seq<char>, n: i64)
    ensures
        canonical_id(s, n) <==> (
            1 <= s.len() && s[0] != '0'
            && (forall|i: int| 0 <= i < s.len() ==> is_decimal_digit(#[trigger] s[i]))
            && digits_value(s) == n
        ),
{
    if canonical_id(s, n) {
        lemma_decimal_shape(n as nat);
    }
    if 1 <= s.len() && s[0] != '0' && (forall|i: int|
        0 <= i < s.len() ==> is_decimal_digit(#[trigger] s[i])) && digits_value(s) == n {
        lemma_digits_are_decimal(s);
    }
}

/// The single-character string of a digit value below sixteen.
fn digit_str(d: u8) -> (s: &'static str)
    requires
        d < 16,
    ensures
        s@ == seq![digit_char(d as int)],
{
    proof {
        reveal_strlit("0");
        reveal_strlit("1");
        reveal_strlit("2");
        reveal_strlit("3");
        reveal_strlit("4");
        reveal_strlit("5");
        reveal_strlit("6");
        reveal_strlit("7");
        reveal_strlit("8");
        reveal_strlit("9");
        reveal_strlit("a");
        reveal_strlit("b");
        reveal_strlit("c");
        reveal_strlit("d");
        reveal_strlit("e");
        reveal_strlit("f");
    }
    let s = match d {
        0 => "0",
        1 => "1",
        2 => "2",
        3 => "3",
        4 => "4",
        5 => "5",
        6 => "6",
        7 => "7",
        8 => "8",
        9 => "9",
        10 => "a",
        11 => "b",
        12 => "c",
        13 => "d",
        14 => "e",
        _ => "f",
    };
    assert(s@ =~= seq![digit_char(d as int)]);
    s
}

/// The decimal form of `n`, as `i64::to_string` writes it.
pub fn decimal_string(n: i64) -> (s: String)
    ensures
        s@ == signed_decimal(n as int),
{
    let negative = n < 0;
    let mut magnitude: u64 = if negative {
        (-(n as i128)) as u64
    } else {
        n as u64
    };
    let ghost m0: nat = magnitude as nat;
    assert(m0 == if n < 0 { -n } else { n as int });
    // Digits, least significant first.
    let mut digits: Vec<u8> = Vec::new();
    digits.push((magnitude % 10) as u8);
    magnitude = magnitude / 10;
    let ghost mut rest: nat = magnitude as nat;
    proof {
        let ds = Seq::new(1, |i: int| digit_char(digits@[0 - i] as int));
        assert(ds =~= seq![digit_char((m0 % 10) as int)]);
        if m0 >= 10 {
            assert(decimal(m0) =~= decimal(rest) + ds);
        } else {
            assert(decimal(m0) =~= ds);
        }
    }
    while magnitude > 0
        invariant
            magnitude as nat == rest,
            digits@.len() >= 1,
            forall|i: int| 0 <= i < digits@.len() ==> digits@[i] < 10,
            rest == 0 ==> decimal(m0) == Seq::new(
                digits@.len(),
                |i: int| digit_char(digits@[digits@.len() - 1 - i] as int),
            ),
            rest > 0 ==> decimal(m0) == decimal(rest) + Seq::new(
                digits@.len(),
                |i: int| digit_char(digits@[digits@.len() - 1 - i] as int),
            ),
        decreases magnitude,
    {
        let d = (magnitude % 10) as u8;
        proof {
            let ds = Seq::new(
                digits@.len(),
                |i: int| digit_char(digits@[digits@.len() - 1 - i] as int),
            );
            let nd = digits@.push(d);
            let nds = Seq::new(nd.len(), |i: int| digit_char(nd[nd.len() - 1 - i] as int));
            assert(nds =~= seq![digit_char(d as int)] + ds);
            if rest >= 10 {
                assert(decimal(rest) =~= decimal(rest / 10).push(digit_char((rest % 10) as int)));
                assert(decimal(rest) + ds =~= decimal(rest / 10) + nds);
            } else {
                assert(decimal(rest) =~= seq![digit_char(rest as int)]);
                assert(decimal(rest) + ds =~= nds);
            }
        }
        digits.push(d);
        magnitude = magnitude / 10;
        proof {
            rest = rest / 10;
        }
    }
    let mut s = String::new();
    if negative {
        proof {
            reveal_strlit("-");
        }
        s.append("-");
    }
    let ghost prefix = s@;
    let total = digits.len();
    let mut k: usize = 0;
    while k < total
        invariant
            total == digits@.len(),
            k <= total,
            forall|i: int| 0 <= i < digits@.len() ==> digits@[i] < 10,
            s@ == prefix + Seq::new(k as nat, |i: int| digit_char(digits@[total - 1 - i] as int)),
        decreases total - k,
    {
        let piece = digit_str(digits[total - 1 - k]);
        s.append(piece);
        assert(prefix + Seq::new((k + 1) as nat, |i: int| digit_char(digits@[total - 1 - i] as int))
            =~= prefix + Seq::new(k as nat, |i: int| digit_char(digits@[total - 1 - i] as int))
            + piece@);
        k = k + 1;
    }
    proof {
        let ds = Seq::new(total as nat, |i: int| digit_char(digits@[total - 1 - i] as int));
        assert(decimal(m0) =~= ds);
        if negative {
            reveal_strlit("-");
            assert(prefix =~= seq!['-']);
        } else {
            assert(prefix =~= Seq::<char>::empty());
        }
        assert(s@ =~= signed_decimal(n as int));
    }
    s
}

/// Reads a positive identifier written canonically: decimal digits, no sign,
/// no leading zero, and a value that fits `i64`.
pub fn parse_canonical_id(value: &str) -> (r: Option<i64>)
    ensures
        r matches Some(n) ==> canonical_id(value@, n),
        r is None ==> forall|n: i64| !canonical_id(value@, n),
{
    proof {
        assert forall|n: i64| canonical_id(value@, n) implies value@.len() <= 19 by {
            lemma_pow10_19();
            lemma_decimal_len(n as nat, 19);
        }
    }
    let len = value.unicode_len();
    if len == 0 || len > 19 || value.get_char(0) == '0' {
        proof {
            assert forall|n: i64| !canonical_id(value@, n) by {
                lemma_canonical_id_digits(value@, n);
            }
        }
        return None;
    }
    let mut acc: u64 = 0;
    let mut i: usize = 0;
    while i < len
        invariant
            len == value@.len(),
            1 <= len <= 19,
            i <= len,
            forall|j: int| 0 <= j < i ==> is_decimal_digit(#[trigger] value@[j]),
            acc == digits_value(value@.subrange(0, i as int)),
            acc < pow10(i as nat),
        decreases len - i,
    {
        let c = value.get_char(i);
        if c < '0' || c > '9' {
            proof {
                assert(!is_decimal_digit(value@[i as int]));
                assert forall|n: i64| !canonical_id(value@, n) by {
                    lemma_canonical_id_digits(value@, n);
                }
            }
            return None;
        }
        proof {
            lemma_pow10_increases((i + 1) as nat, 19);
            lemma_pow10_19();
            let p = pow10(i as nat);
            assert(acc * 10 + 9 < p * 10) by (nonlinear_arith)
                requires
                    acc < p,
            ;
            let t = value@.subrange(0, i + 1);
            assert(t.drop_last() =~= value@.subrange(0, i as int));
        }
        acc = acc * 10 + (c as u32 - 48u32) as u64;
        i = i + 1;
    }
    assert(value@.subrange(0, len as int) =~= value@);
    if acc > 9223372036854775807u64 {
        proof {
            assert forall|n: i64| !canonical_id(value@, n) by {
                lemma_canonical_id_digits(value@, n);
            }
        }
        return None;
    }
    let n = acc as i64;
    proof {
        assert(value@[0] != '0');
        lemma_canonical_id_digits(value@, n);
    }
    Some(n)
}

/// Lower-case hexadecimal, two characters per byte, most significant first.
pub fn hex_lower(bytes: &[u8]) -> (s: String)
    ensures
        s@ == hex(bytes@),
        s@.len() == 2 * bytes@.len(),
{
    let mut s = String::new();
    let mut i: usize = 0;
    while i < bytes.len()
        invariant
            i <= bytes@.len(),
            s@ == hex(bytes@.subrange(0, i as int)),
            s@.len() == 2 * i,
        decreases bytes@.len() - i,
    {
        let b = bytes[i];
        let high = digit_str(b / 16);
        let low = digit_str(b % 16);
        s.append(high);
        s.append(low);
        proof {
            let t = bytes@.subrange(0, i + 1);
            assert(t.drop_last() =~= bytes@.subrange(0, i as int));
            assert(t.last() == b);
        }
        i = i + 1;
    }
    assert(bytes@.subrange(0, bytes@.len() as int) =~= bytes@);
    s
}

/// Whether two texts are the same characters.
pub fn text_eq(a: &str, b: &str) -> (r: bool)
    ensures
        r == (a@ == b@),
{
    String::from_str(a) == String::from_str(b)
}

/// An identifier's wire form is unique: a text is the canonical form of at
/// most one identifier, and every positive identifier's decimal form (as
/// `decimal_string` writes it) is read back as that identifier.
pub proof fn law_identifiers_round_trip(s: Seq<char>, n: i64, m: i64)
    ensures
        canonical_id(s, n) && canonical_id(s, m) ==> n == m,
        n > 0 ==> canonical_id(signed_decimal(n as int), n),
{
    if canonical_id(s, n) && canonical_id(s, m) {
        lemma_decimal_shape(n as nat);
        lemma_decimal_shape(m as nat);
    }
}

} // verus!
