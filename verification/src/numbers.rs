//! Decimal rendering and parsing of the integers that run through the
//! pipeline: the claims inside a session token and the pagination
//! parameters of the question listing.

use vstd::prelude::*;

verus! {

/// Whether `c` is a decimal digit.
pub open spec fn is_digit(c: char) -> bool {
    '0' <= c && c <= '9'
}

/// The numeric value of a digit character.
pub open spec fn digit_val(c: char) -> int {
    c as int - '0' as int
}

/// The digit character for a value below ten.
pub open spec fn char_of_digit(d: int) -> char {
    seq!['0', '1', '2', '3', '4', '5', '6', '7', '8', '9'][d]
}

/// Whether every character of `s` is a decimal digit.
pub open spec fn all_digits(s: Seq<char>) -> bool {
    forall|i: int| 0 <= i < s.len() ==> is_digit(#[trigger] s[i])
}

/// The value of a digit string, most significant digit first.
pub open spec fn digits_val(s: Seq<char>) -> int
    decreases s.len(),
{
    if s.len() == 0 {
        0
    } else {
        digits_val(s.drop_last()) * 10 + digit_val(s.last())
    }
}

/// Ten to the power `w`.
pub open spec fn pow10(w: nat) -> int
    decreases w,
{
    if w == 0 {
        1
    } else {
        10 * pow10((w - 1) as nat)
    }
}

/// `n` rendered as exactly `w` decimal digits, zero padded, keeping only
/// the `w` least significant digits.
pub open spec fn dec_fixed(n: nat, w: nat) -> Seq<char>
    decreases w,
{
    if w == 0 {
        Seq::empty()
    } else {
        dec_fixed(n / 10, (w - 1) as nat).push(char_of_digit((n % 10) as int))
    }
}

proof fn lemma_char_of_digit_val(d: int)
    requires
        0 <= d < 10,
    ensures
        is_digit(char_of_digit(d)),
        digit_val(char_of_digit(d)) == d,
{
    assert(is_digit(char_of_digit(d)) && digit_val(char_of_digit(d)) == d) by {
        if d == 0 {
        } else if d == 1 {
        } else if d == 2 {
        } else if d == 3 {
        } else if d == 4 {
        } else if d == 5 {
        } else if d == 6 {
        } else if d == 7 {
        } else if d == 8 {
        } else {
            assert(d == 9);
        }
    }
}

/// A fixed-width rendering has the stated width, holds only digits, and
/// reads back as the value modulo ten to the width.
pub proof fn lemma_dec_fixed(n: nat, w: nat)
    ensures
        dec_fixed(n, w).len() == w,
        all_digits(dec_fixed(n, w)),
        digits_val(dec_fixed(n, w)) == n % (pow10(w) as nat),
        pow10(w) >= 1,
    decreases w,
{
    if w == 0 {
        assert(n % 1nat == 0) by (nonlinear_arith);
    } else {
        lemma_dec_fixed(n / 10, (w - 1) as nat);
        lemma_char_of_digit_val((n % 10) as int);
        let s = dec_fixed(n, w);
        let sp = dec_fixed(n / 10, (w - 1) as nat);
        assert(s.drop_last() =~= sp);
        let p = pow10((w - 1) as nat) as nat;
        assert(digits_val(s) == ((n / 10) % p) * 10 + n % 10);
        assert(((n / 10) % p) * 10 + n % 10 == n % (10 * p)) by (nonlinear_arith)
            requires
                p >= 1,
        ;
    }
}

/// Below ten to the width, the rendering reads back exactly.
pub proof fn lemma_dec_fixed_exact(n: nat, w: nat)
    requires
        n < pow10(w),
    ensures
        dec_fixed(n, w).len() == w,
        all_digits(dec_fixed(n, w)),
        digits_val(dec_fixed(n, w)) == n,
{
    lemma_dec_fixed(n, w);
    assert(n % (pow10(w) as nat) == n) by (nonlinear_arith)
        requires
            0 <= n < pow10(w),
    ;
}

/// The value of a digit string never shrinks when digits are appended,
/// and it grows past any bound once a prefix has passed it.
proof fn lemma_digits_val_prefix_grows(s: Seq<char>, i: int)
    requires
        all_digits(s),
        0 <= i <= s.len(),
    ensures
        digits_val(s.take(i)) <= digits_val(s),
        digits_val(s) >= 0,
    decreases s.len() - i,
{
    if i == s.len() {
        assert(s.take(i) =~= s);
        lemma_digits_val_nonneg(s);
    } else {
        lemma_digits_val_prefix_grows(s, i + 1);
        let t = s.take(i + 1);
        assert(t.drop_last() =~= s.take(i));
        lemma_digits_val_nonneg(s.take(i));
        assert(digits_val(s.take(i)) * 10 >= digits_val(s.take(i))) by (nonlinear_arith)
            requires
                digits_val(s.take(i)) >= 0,
        ;
    }
}

pub proof fn lemma_digits_val_nonneg(s: Seq<char>)
    requires
        all_digits(s),
    ensures
        digits_val(s) >= 0,
    decreases s.len(),
{
    if s.len() > 0 {
        assert(all_digits(s.drop_last())) by {
            assert(forall|i: int|
                0 <= i < s.len() - 1 ==> is_digit(#[trigger] s.drop_last()[i]) == is_digit(
                    s[i],
                ));
        }
        lemma_digits_val_nonneg(s.drop_last());
        assert(digits_val(s.drop_last()) * 10 >= 0) by (nonlinear_arith)
            requires
                digits_val(s.drop_last()) >= 0,
        ;
    }
}

/// Digit strings of one length are determined by their value: equal
/// readings mean equal strings.
pub proof fn lemma_digits_unique(s1: Seq<char>, s2: Seq<char>)
    requires
        all_digits(s1),
        all_digits(s2),
        s1.len() == s2.len(),
        digits_val(s1) == digits_val(s2),
    ensures
        s1 == s2,
    decreases s1.len(),
{
    if s1.len() == 0 {
        assert(s1 =~= s2);
    } else {
        let v1 = digits_val(s1.drop_last());
        let v2 = digits_val(s2.drop_last());
        let d1 = digit_val(s1.last());
        let d2 = digit_val(s2.last());
        assert(all_digits(s1.drop_last()) && all_digits(s2.drop_last())) by {
            assert(forall|i: int|
                0 <= i < s1.len() - 1 ==> is_digit(#[trigger] s1.drop_last()[i]) == is_digit(
                    s1[i],
                ));
            assert(forall|i: int|
                0 <= i < s2.len() - 1 ==> is_digit(#[trigger] s2.drop_last()[i]) == is_digit(
                    s2[i],
                ));
        }
        lemma_digits_val_nonneg(s1.drop_last());
        lemma_digits_val_nonneg(s2.drop_last());
        assert(v1 == v2 && d1 == d2) by (nonlinear_arith)
            requires
                v1 * 10 + d1 == v2 * 10 + d2,
                0 <= d1 < 10,
                0 <= d2 < 10,
                v1 >= 0,
                v2 >= 0,
        ;
        lemma_digits_unique(s1.drop_last(), s2.drop_last());
        assert(s1.last() == s2.last()) by {
            lemma_digit_char_unique(s1.last(), s2.last());
        }
        assert forall|i: int| 0 <= i < s1.len() implies s1[i] == #[trigger] s2[i] by {
            if i < s1.len() - 1 {
                assert(s1.drop_last()[i] == s1[i]);
                assert(s2.drop_last()[i] == s2[i]);
                assert(s1.drop_last() == s2.drop_last());
            }
        }
        assert(s1 =~= s2);
    }
}

/// Digit characters with one value are one character.
proof fn lemma_digit_char_unique(c1: char, c2: char)
    requires
        is_digit(c1),
        is_digit(c2),
        digit_val(c1) == digit_val(c2),
    ensures
        c1 == c2,
{
}

/// What parsing a digit string as an unsigned 64-bit number yields:
/// the value when the string is nonempty, all digits, and in range;
/// nothing otherwise.
pub open spec fn spec_parse_u64(s: Seq<char>) -> Option<u64> {
    if s.len() > 0 && all_digits(s) && digits_val(s) <= u64::MAX {
        Some(digits_val(s) as u64)
    } else {
        None
    }
}

/// Parsing reads a fixed-width rendering back when the width is nonzero.
pub proof fn lemma_parse_dec_fixed(n: u64, w: nat)
    requires
        w >= 1,
        n < pow10(w),
    ensures
        spec_parse_u64(dec_fixed(n as nat, w)) == Some(n),
{
    lemma_dec_fixed_exact(n as nat, w);
}

/// Renders `n` as exactly `w` decimal digits, zero padded.
pub fn to_dec_fixed(n: u64, w: usize) -> (s: String)
    ensures
        s@ == dec_fixed(n as nat, w as nat),
    decreases w,
{
    if w == 0 {
        let s = String::new();
        assert(s@ =~= dec_fixed(n as nat, 0));
        s
    } else {
        let mut s = to_dec_fixed(n / 10, w - 1);
        let d = digit_str(n % 10);
        s.append(d);
        assert(s@ =~= dec_fixed(n as nat, w as nat));
        s
    }
}

/// The one-character string for a digit value.
fn digit_str(d: u64) -> (s: &'static str)
    requires
        d < 10,
    ensures
        s@ =~= seq![char_of_digit(d as int)],
{
    proof {
        reveal_strlit("0");
        reveal_strlit("1");
        reveal_strlit("2");
        reveal_strlit("3");
        reveal_strlit("4");
        reveal_strlit("5");
        reveal_strlit("6");
        reveal_strlit("7");
        reveal_strlit("8");
        reveal_strlit("9");
    }
    match d {
        0 => "0",
        1 => "1",
        2 => "2",
        3 => "3",
        4 => "4",
        5 => "5",
        6 => "6",
        7 => "7",
        8 => "8",
        _ => "9",
    }
}

/// Parses the characters of `s` between `from` and `to` as an unsigned
/// 64-bit decimal number.
pub fn parse_u64_range(s: &str, from: usize, to: usize) -> (r: Option<u64>)
    requires
        from <= to <= s@.len(),
    ensures
        r == spec_parse_u64(s@.subrange(from as int, to as int)),
{
    let ghost digits = s@.subrange(from as int, to as int);
    if from == to {
        return None;
    }
    let mut acc: u64 = 0;
    let mut i = from;
    while i < to
        invariant
            from <= i <= to <= s@.len(),
            digits == s@.subrange(from as int, to as int),
            all_digits(digits.take(i - from)),
            acc == digits_val(digits.take(i - from)),
        decreases to - i,
    {
        let c = s.get_char(i);
        if c < '0' || c > '9' {
            assert(!is_digit(digits[i - from]));
            return None;
        }
        let d: u32 = (c as u32) - 48;
        assert(digits[i - from] == c && is_digit(c) && d == digit_val(c));
        if acc > (u64::MAX - d as u64) / 10 {
            proof {
                let t = digits.take(i - from + 1);
                assert(t.drop_last() =~= digits.take(i - from));
                assert(digits_val(t) == acc * 10 + d);
                assert(acc * 10 + d > u64::MAX) by (nonlinear_arith)
                    requires
                        acc > (u64::MAX - d as u64) / 10,
                        0 <= d < 10,
                ;
                if all_digits(digits) {
                    lemma_digits_val_prefix_grows(digits, i - from + 1);
                }
            }
            return None;
        }
        proof {
            assert(acc * 10 + d <= u64::MAX) by (nonlinear_arith)
                requires
                    acc <= (u64::MAX - d as u64) / 10,
                    0 <= d < 10,
            ;
            let t = digits.take(i - from + 1);
            assert(t.drop_last() =~= digits.take(i - from));
        }
        acc = acc * 10 + d as u64;
        i = i + 1;
    }
    assert(digits.take(to - from) =~= digits);
    Some(acc)
}

/// What parsing a string as a signed 32-bit number yields: an optional
/// leading sign, then at least one digit, with the signed value in range.
pub open spec fn spec_parse_i32(s: Seq<char>) -> Option<i32> {
    if s.len() == 0 {
        None
    } else if s[0] == '-' {
        match spec_parse_u64(s.drop_first()) {
            Some(v) => if v <= 0x8000_0000 {
                Some((-(v as int)) as i32)
            } else {
                None
            },
            None => None,
        }
    } else {
        let digits = if s[0] == '+' {
            s.drop_first()
        } else {
            s
        };
        match spec_parse_u64(digits) {
            Some(v) => if v <= 0x7fff_ffff {
                Some(v as i32)
            } else {
                None
            },
            None => None,
        }
    }
}

/// Parses a whole string as a signed 32-bit decimal number, accepting an
/// optional leading `+` or `-`.
pub fn parse_i32(s: &str) -> (r: Option<i32>)
    ensures
        r == spec_parse_i32(s@),
{
    let len = s.unicode_len();
    if len == 0 {
        return None;
    }
    let first = s.get_char(0);
    if first == '-' {
        assert(s@.subrange(1, s@.len() as int) =~= s@.drop_first());
        match parse_u64_range(s, 1, len) {
            Some(v) => if v <= 0x8000_0000 {
                Some((-(v as i64)) as i32)
            } else {
                None
            },
            None => None,
        }
    } else {
        let from: usize = if first == '+' {
            1
        } else {
            0
        };
        proof {
            if first == '+' {
                assert(s@.subrange(1, s@.len() as int) =~= s@.drop_first());
            } else {
                assert(s@.subrange(0, s@.len() as int) =~= s@);
            }
        }
        match parse_u64_range(s, from, len) {
            Some(v) => if v <= 0x7fff_ffff {
                Some(v as i32)
            } else {
                None
            },
            None => None,
        }
    }
}

} // verus!
