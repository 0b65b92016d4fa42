//! Decimal numerals: reading a selector or an identifier from text, and
//! writing an identifier as text.

use vstd::prelude::*;
use vstd::std_specs::iter::IteratorSpec;
use vstd::string::StrSliceExecFns;
use vstd::string::StringExecFns;

verus! {

/// Whether `c` is one of the ten ASCII digits.
pub open spec fn is_digit(c: char) -> bool {
    0x30 <= c as u32 <= 0x39
}

/// The number that the digit `c` stands for.
pub open spec fn digit_value(c: char) -> nat {
    (c as u32 - 0x30) as nat
}

/// The digit that stands for `d`, for `d` below ten.
pub open spec fn digit_char(d: nat) -> char {
    (0x30 + d) as char
}

/// Whether `s` holds digits only.
pub open spec fn all_digits(s: Seq<char>) -> bool {
    forall|i: int| 0 <= i < s.len() ==> is_digit(#[trigger] s[i])
}

/// The number that a run of digits denotes, most significant digit first.
pub open spec fn digits_value(s: Seq<char>) -> nat
    decreases s.len(),
{
    if s.len() == 0 {
        0
    } else {
        10 * digits_value(s.drop_last()) + digit_value(s.last())
    }
}

/// The number that `s` denotes where it is a run of one or more digits.
pub open spec fn numeral_value(s: Seq<char>) -> Option<nat> {
    if s.len() > 0 && all_digits(s) {
        Some(digits_value(s))
    } else {
        None
    }
}

/// Whether `s` begins with a minus sign.
pub open spec fn is_negative(s: Seq<char>) -> bool {
    s.len() > 0 && s[0] == '-'
}

/// What follows the sign of `s`, or all of `s` where it begins with no sign.
pub open spec fn digits_part(s: Seq<char>) -> Seq<char> {
    if s.len() > 0 && (s[0] == '+' || s[0] == '-') {
        s.drop_first()
    } else {
        s
    }
}

/// The integer that `s` denotes: an optional plus or minus sign and then one
/// or more digits, however many. Anything else denotes nothing.
pub open spec fn integer_of(s: Seq<char>) -> Option<int> {
    match numeral_value(digits_part(s)) {
        Some(v) => Some(
            if is_negative(s) {
                -(v as int)
            } else {
                v as int
            },
        ),
        None => None,
    }
}

/// What `s` denotes as a signed 32-bit number: the integer that it denotes,
/// where it denotes one and that fits. Anything else denotes nothing.
pub open spec fn i32_of(s: Seq<char>) -> Option<i32> {
    match integer_of(s) {
        Some(v) => if i32::MIN <= v <= i32::MAX {
            Some(v as i32)
        } else {
            None
        },
        None => None,
    }
}

/// `v` where it lies within the signed 64-bit range, and the nearer end of
/// that range where it does not.
pub open spec fn clipped(v: int) -> i64 {
    if v < i64::MIN {
        i64::MIN
    } else if v > i64::MAX {
        i64::MAX
    } else {
        v as i64
    }
}

/// The smaller of `v` and `cap`.
pub open spec fn capped(v: nat, cap: u64) -> u64 {
    if v <= cap {
        v as u64
    } else {
        cap
    }
}

/// The decimal numeral of `n`, without leading zeros.
pub open spec fn decimal(n: nat) -> Seq<char>
    decreases n,
{
    if n < 10 {
        seq![digit_char(n)]
    } else {
        decimal(n / 10).push(digit_char(n % 10))
    }
}

/// The decimal numeral of `n`, with a minus sign where `n` is negative.
pub open spec fn signed_decimal(n: int) -> Seq<char> {
    if n < 0 {
        seq!['-'] + decimal((-n) as nat)
    } else {
        decimal(n as nat)
    }
}

/// The decimal numeral of a number is a run of one or more digits that
/// denotes that number.
pub proof fn lemma_decimal_denotes(n: nat)
    ensures
        decimal(n).len() > 0,
        all_digits(decimal(n)),
        digits_value(decimal(n)) == n,
    decreases n,
{
    let d = decimal(n);
    if n < 10 {
        assert(digits_value(d.drop_last()) == 0);
    } else {
        lemma_decimal_denotes(n / 10);
        assert(d.drop_last() =~= decimal(n / 10));
    }
}

/// What is written is read back: the signed decimal numeral of an integer
/// denotes that integer.
pub proof fn lemma_written_reads_back(n: int)
    ensures
        integer_of(signed_decimal(n)) == Some(n),
{
    if n < 0 {
        let magnitude = (-n) as nat;
        lemma_decimal_denotes(magnitude);
        assert(signed_decimal(n).drop_first() =~= decimal(magnitude));
    } else {
        lemma_decimal_denotes(n as nat);
        assert(is_digit(decimal(n as nat)[0]));
    }
}

/// What is written is read back: the signed decimal numeral of a signed
/// 32-bit number denotes that number.
pub proof fn lemma_i32_round_trip(n: i32)
    ensures
        i32_of(signed_decimal(n as int)) == Some(n),
{
    lemma_written_reads_back(n as int);
}

/// Reads the characters of `s` from position `skip` on as a run of digits.
/// Gives their value, or `cap` where the value is above it, where there is at
/// least one of them and all are digits.
fn scan_digits(s: &str, skip: usize, cap: u64) -> (r: Option<u64>)
    requires
        skip <= s@.len(),
        skip <= 1,
    ensures
        r == match numeral_value(s@.subrange(skip as int, s@.len() as int)) {
            Some(v) => Some(capped(v, cap)),
            None => None,
        },
{
    let n: usize = s.unicode_len();
    let ghost digits = s@.subrange(skip as int, n as int);
    let mut chars = s.chars();
    if skip == 1 {
        let _ = chars.next();
    }
    let mut i: usize = skip;
    let mut value: u64 = 0;
    while i < n
        invariant
            n == s@.len(),
            skip <= i <= n,
            digits == s@.subrange(skip as int, n as int),
            chars.obeys_prophetic_iter_laws(),
            chars.remaining() == s@.subrange(i as int, n as int),
            all_digits(digits.subrange(0, i - skip)),
            value == capped(digits_value(digits.subrange(0, i - skip)), cap),
        decreases n - i,
    {
        let next = chars.next();
        let c: char = next.unwrap();
        let code: u32 = c as u32;
        assert(digits[i - skip] == c);
        if code < 0x30 || code > 0x39 {
            return None;
        }
        let ghost seen = digits.subrange(0, i + 1 - skip);
        assert(seen.drop_last() =~= digits.subrange(0, i - skip));
        let grown: u128 = value as u128 * 10 + (code - 0x30) as u128;
        value = if grown > cap as u128 {
            cap
        } else {
            grown as u64
        };
        assert(all_digits(seen));
        i = i + 1;
    }
    assert(digits.subrange(0, n - skip) =~= digits);
    if i == skip {
        None
    } else {
        Some(value)
    }
}

/// Reads `s` as a sign and a run of digits. Gives whether the sign is a
/// minus, and the value of the digits, or `cap` where the value is above it.
fn read_numeral(s: &str, cap: u64) -> (r: Option<(bool, u64)>)
    ensures
        r == match numeral_value(digits_part(s@)) {
            Some(v) => Some((is_negative(s@), capped(v, cap))),
            None => None,
        },
{
    let n: usize = s.unicode_len();
    if n == 0 {
        return None;
    }
    let first: char = s.get_char(0);
    let skip: usize = if first == '-' || first == '+' {
        1
    } else {
        0
    };
    assert(s@.subrange(skip as int, n as int) =~= digits_part(s@));
    match scan_digits(s, skip, cap) {
        Some(v) => Some((first == '-', v)),
        None => None,
    }
}

/// Reads `s` as a decimal integer of any length. An integer outside the
/// signed 64-bit range comes back as the nearer end of that range.
pub fn parse_integer(s: &str) -> (r: Option<i64>)
    ensures
        r == match integer_of(s@) {
            Some(v) => Some(clipped(v)),
            None => None,
        },
{
    match read_numeral(s, 0x8000_0000_0000_0000) {
        Some((negative, v)) => {
            if negative {
                if v == 0x8000_0000_0000_0000 {
                    Some(i64::MIN)
                } else {
                    Some(0 - v as i64)
                }
            } else if v == 0x8000_0000_0000_0000 {
                Some(i64::MAX)
            } else {
                Some(v as i64)
            }
        },
        None => None,
    }
}

/// Reads `s` as a signed 32-bit decimal number.
pub fn parse_i32(s: &str) -> (r: Option<i32>)
    ensures
        r == i32_of(s@),
{
    match read_numeral(s, 0x8000_0001) {
        Some((negative, v)) => {
            if negative {
                if v <= 0x8000_0000 {
                    Some((0 - v as i64) as i32)
                } else {
                    None
                }
            } else if v <= 0x7FFF_FFFF {
                Some(v as i32)
            } else {
                None
            }
        },
        None => None,
    }
}

/// The one-character text of the digit that stands for `d`.
fn digit_text(d: u32) -> (r: &'static str)
    requires
        d < 10,
    ensures
        r@ == seq![digit_char(d as nat)],
{
    proof {
        reveal_strlit("0");
        reveal_strlit("1");
        reveal_strlit("2");
        reveal_strlit("3");
        reveal_strlit("4");
        reveal_strlit("5");
        reveal_strlit("6");
        reveal_strlit("7");
        reveal_strlit("8");
        reveal_strlit("9");
    }
    if d == 0 {
        "0"
    } else if d == 1 {
        "1"
    } else if d == 2 {
        "2"
    } else if d == 3 {
        "3"
    } else if d == 4 {
        "4"
    } else if d == 5 {
        "5"
    } else if d == 6 {
        "6"
    } else if d == 7 {
        "7"
    } else if d == 8 {
        "8"
    } else {
        "9"
    }
}

/// Appends the decimal numeral of `n` to `out`.
pub fn push_decimal(out: &mut String, n: u32)
    ensures
        final(out)@ == old(out)@ + decimal(n as nat),
    decreases n,
{
    if n >= 10 {
        push_decimal(out, n / 10);
    }
    out.append(digit_text(n % 10));
}

/// Appends the decimal numeral of `n` to `out`, with a minus sign where `n`
/// is negative.
pub fn push_signed_decimal(out: &mut String, n: i32)
    ensures
        final(out)@ == old(out)@ + signed_decimal(n as int),
{
    if n < 0 {
        proof {
            reveal_strlit("-");
        }
        out.append("-");
        let magnitude: u32 = (0 - n as i64) as u32;
        push_decimal(out, magnitude);
    } else {
        push_decimal(out, n as u32);
    }
}

} // verus!
