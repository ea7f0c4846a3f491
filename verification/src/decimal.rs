//! Decimal numbers in text: reading unsigned and signed integers and numbers
//! with a fraction, and writing integers and numbers with one decimal place.

use crate::text::{run_end, scan_run, CharClass};
use vstd::prelude::*;

verus! {

/// Whether `c` is one of the digits `0` to `9`.
pub open spec fn is_digit(c: char) -> bool {
    48 <= c as u32 <= 57
}

/// The value of the digit `c`.
pub open spec fn digit_value(c: char) -> nat {
    (c as u32 - 48) as nat
}

/// The digit that stands for `d`, for `d` below ten.
pub open spec fn digit_char(d: nat) -> char {
    (d + 48) as char
}

/// Whether `s` holds digits only.
pub open spec fn all_digits(s: Seq<char>) -> bool {
    forall|i: int| 0 <= i < s.len() ==> is_digit(#[trigger] s[i])
}

/// The number that the digits `s` write in base ten; 0 for no digits.
pub open spec fn digits_value(s: Seq<char>) -> nat
    decreases s.len(),
{
    if s.len() == 0 {
        0
    } else {
        10 * digits_value(s.drop_last()) + digit_value(s.last())
    }
}

/// Reads an unsigned integer of at most `max`: an optional `+`, then at least
/// one digit and nothing else.
pub open spec fn parse_unsigned(s: Seq<char>, max: nat) -> Option<nat> {
    let digits = if s.len() > 0 && s[0] == '+' {
        s.drop_first()
    } else {
        s
    };
    if digits.len() > 0 && all_digits(digits) && digits_value(digits) <= max {
        Some(digits_value(digits))
    } else {
        None
    }
}

/// Reads a signed integer between `-limit - 1` and `limit`: an optional `+`
/// or `-`, then at least one digit and nothing else.
pub open spec fn parse_signed(s: Seq<char>, limit: nat) -> Option<int> {
    if s.len() > 0 && s[0] == '-' {
        let digits = s.drop_first();
        if digits.len() > 0 && all_digits(digits) && digits_value(digits) <= limit + 1 {
            Some(-(digits_value(digits) as int))
        } else {
            None
        }
    } else {
        match parse_unsigned(s, limit) {
            Some(n) => Some(n as int),
            None => None,
        }
    }
}

/// The hundredths that the digits after a decimal point stand for; digits
/// beyond the second are dropped.
pub open spec fn hundredths_of(fraction: Seq<char>) -> nat {
    if fraction.len() == 0 {
        0
    } else if fraction.len() == 1 {
        10 * digit_value(fraction[0])
    } else {
        10 * digit_value(fraction[0]) + digit_value(fraction[1])
    }
}

/// Reads a number written as digits, optionally followed by a full stop and
/// more digits, in hundredths: `12.34` is 1234, `7` is 700, `.5` is 50. There
/// is at least one digit, and the result is at most `max`.
pub open spec fn parse_hundredths(s: Seq<char>, max: nat) -> Option<nat> {
    let dot = run_end(s, 0, CharClass::Whole);
    let whole = s.subrange(0, dot);
    let fraction = if dot < s.len() {
        s.subrange(dot + 1, s.len() as int)
    } else {
        Seq::empty()
    };
    let value = 100 * digits_value(whole) + hundredths_of(fraction);
    if whole.len() + fraction.len() > 0 && all_digits(whole) && all_digits(fraction) && value
        <= max {
        Some(value)
    } else {
        None
    }
}

/// `n` in base ten, without leading zeros.
pub open spec fn decimal(n: nat) -> Seq<char>
    decreases n,
{
    if n < 10 {
        seq![digit_char(n)]
    } else {
        decimal(n / 10).push(digit_char(n % 10))
    }
}

/// A number of tenths written with at most one decimal place: the whole part,
/// then a full stop and the tenth unless it is zero, behind a `-` where the
/// number is negative. 123 is `12.3`, 120 is `12`, -5 is `-0.5`.
pub open spec fn decimal_tenths(tenths: int) -> Seq<char> {
    let size = if tenths < 0 {
        (-tenths) as nat
    } else {
        tenths as nat
    };
    let sign = if tenths < 0 {
        seq!['-']
    } else {
        Seq::empty()
    };
    let fraction = if size % 10 == 0 {
        Seq::empty()
    } else {
        seq!['.', digit_char(size % 10)]
    };
    sign + decimal(size / 10) + fraction
}

/// Adding digits never lowers the value that digits write.
pub proof fn lemma_digits_value_prefix(s: Seq<char>, k: int)
    requires
        0 <= k <= s.len(),
    ensures
        digits_value(s.subrange(0, k)) <= digits_value(s),
    decreases s.len(),
{
    if k < s.len() {
        lemma_digits_value_prefix(s.drop_last(), k);
        assert(s.drop_last().subrange(0, k) == s.subrange(0, k));
    } else {
        assert(s.subrange(0, k) == s);
    }
}

/// Tests `c` for a digit.
pub fn is_decimal_digit(c: char) -> (b: bool)
    ensures
        b == is_digit(c),
{
    let n: u32 = c as u32;
    48 <= n && n <= 57
}

/// The number that the digits of `s` from `from` up to `to` write, or `None`
/// where one of them is no digit or the number is above `max`.
pub fn read_digits(s: &Vec<char>, from: usize, to: usize, max: u64) -> (out: Option<u64>)
    requires
        from <= to <= s.len(),
    ensures
        out is Some <==> all_digits(s@.subrange(from as int, to as int)) && digits_value(
            s@.subrange(from as int, to as int),
        ) <= max,
        out matches Some(n) ==> n == digits_value(s@.subrange(from as int, to as int)),
{
    let ghost digits = s@.subrange(from as int, to as int);
    let mut value: u64 = 0;
    let mut i: usize = from;
    while i < to
        invariant
            from <= i <= to <= s.len(),
            digits == s@.subrange(from as int, to as int),
            all_digits(digits.subrange(0, i - from)),
            value == digits_value(digits.subrange(0, i - from)),
            value <= max,
        decreases to - i,
    {
        let c = s[i];
        let ghost seen = digits.subrange(0, i - from + 1);
        proof {
            assert(seen.drop_last() == digits.subrange(0, i - from));
            assert(seen.last() == c);
            lemma_digits_value_prefix(digits, i - from + 1);
        }
        if !is_decimal_digit(c) {
            assert(!is_digit(digits[i - from]));
            return None;
        }
        let d: u64 = (c as u32 - 48) as u64;
        if d > max || value > (max - d) / 10 {
            assert(digits_value(seen) > max);
            return None;
        }
        value = value * 10 + d;
        assert(all_digits(seen)) by {
            assert forall|j: int| 0 <= j < seen.len() implies is_digit(#[trigger] seen[j]) by {
                if j < seen.len() - 1 {
                    assert(seen[j] == digits.subrange(0, i - from)[j]);
                }
            }
        }
        i = i + 1;
    }
    assert(digits.subrange(0, to - from) == digits);
    Some(value)
}

/// Reads an unsigned integer of at most `max` from `s`.
pub fn read_unsigned(s: &Vec<char>, max: u64) -> (out: Option<u64>)
    ensures
        out is Some <==> parse_unsigned(s@, max as nat) is Some,
        out matches Some(n) ==> parse_unsigned(s@, max as nat) == Some(n as nat),
{
    let from: usize = if s.len() > 0 && s[0] == '+' {
        1
    } else {
        0
    };
    if from == s.len() {
        return None;
    }
    assert(s@.subrange(1, s.len() as int) == s@.drop_first());
    assert(s@.subrange(0, s.len() as int) == s@);
    read_digits(s, from, s.len(), max)
}

/// Reads a signed integer that fits in 64 bits from `s`.
pub fn read_signed(s: &Vec<char>) -> (out: Option<i64>)
    ensures
        out is Some <==> parse_signed(s@, i64::MAX as nat) is Some,
        out matches Some(n) ==> parse_signed(s@, i64::MAX as nat) == Some(n as int),
{
    if s.len() > 0 && s[0] == '-' {
        if s.len() == 1 {
            return None;
        }
        assert(s@.subrange(1, s.len() as int) == s@.drop_first());
        match read_digits(s, 1, s.len(), 0x8000_0000_0000_0000) {
            Some(size) => {
                if size == 0x8000_0000_0000_0000 {
                    Some(i64::MIN)
                } else {
                    Some(-(size as i64))
                }
            },
            None => None,
        }
    } else {
        match read_unsigned(s, 0x7fff_ffff_ffff_ffff) {
            Some(size) => Some(size as i64),
            None => None,
        }
    }
}

/// Reads a number with an optional fraction from `s`, in hundredths.
pub fn read_hundredths(s: &Vec<char>, max: u64) -> (out: Option<u64>)
    ensures
        out is Some <==> parse_hundredths(s@, max as nat) is Some,
        out matches Some(n) ==> parse_hundredths(s@, max as nat) == Some(n as nat),
{
    let dot = scan_run(s, 0, CharClass::Whole);
    let start: usize = if dot < s.len() {
        dot + 1
    } else {
        dot
    };
    let ghost whole = s@.subrange(0, dot as int);
    let ghost fraction = s@.subrange(start as int, s.len() as int);
    assert(dot == s.len() ==> fraction =~= Seq::<char>::empty());
    if dot + (s.len() - start) == 0 {
        return None;
    }
    let units = match read_digits(s, 0, dot, max / 100) {
        Some(units) => units,
        None => {
            return None;
        },
    };
    let mut part: u64 = 0;
    let mut i: usize = start;
    while i < s.len()
        invariant
            start <= i <= s.len(),
            fraction == s@.subrange(start as int, s.len() as int),
            fraction == if run_end(s@, 0, CharClass::Whole) < s.len() {
                s@.subrange(run_end(s@, 0, CharClass::Whole) + 1, s.len() as int)
            } else {
                Seq::empty()
            },
            all_digits(fraction.subrange(0, i - start)),
            part == hundredths_of(fraction.subrange(0, i - start)),
            part <= 99,
        decreases s.len() - i,
    {
        let c = s[i];
        if !is_decimal_digit(c) {
            assert(!is_digit(fraction[i - start]));
            return None;
        }
        let d: u64 = (c as u32 - 48) as u64;
        if i == start {
            part = 10 * d;
        } else if i == start + 1 {
            part = part + d;
        }
        let ghost seen = fraction.subrange(0, i - start + 1);
        assert(all_digits(seen)) by {
            assert forall|j: int| 0 <= j < seen.len() implies is_digit(#[trigger] seen[j]) by {
                if j < seen.len() - 1 {
                    assert(seen[j] == fraction.subrange(0, i - start)[j]);
                }
            }
        }
        assert(part == hundredths_of(seen)) by {
            assert(seen[0] == fraction[0]);
            if seen.len() >= 2 {
                assert(seen[1] == fraction[1]);
                assert(fraction.subrange(0, i - start)[0] == fraction[0]);
                if i - start >= 2 {
                    assert(fraction.subrange(0, i - start)[1] == fraction[1]);
                }
            }
        }
        i = i + 1;
    }
    assert(fraction.subrange(0, s.len() - start) == fraction);
    if part > max - 100 * units {
        return None;
    }
    Some(100 * units + part)
}

/// The text of one digit.
fn digit_text(d: u64) -> (out: &'static str)
    requires
        d < 10,
    ensures
        out@ == seq![digit_char(d as nat)],
{
    proof {
        reveal_strlit("0");
        reveal_strlit("1");
        reveal_strlit("2");
        reveal_strlit("3");
        reveal_strlit("4");
        reveal_strlit("5");
        reveal_strlit("6");
        reveal_strlit("7");
        reveal_strlit("8");
        reveal_strlit("9");
    }
    let out = if d == 0 {
        "0"
    } else if d == 1 {
        "1"
    } else if d == 2 {
        "2"
    } else if d == 3 {
        "3"
    } else if d == 4 {
        "4"
    } else if d == 5 {
        "5"
    } else if d == 6 {
        "6"
    } else if d == 7 {
        "7"
    } else if d == 8 {
        "8"
    } else {
        "9"
    };
    assert(out@ =~= seq![digit_char(d as nat)]);
    out
}

/// Appends `n` in base ten to `out`.
pub fn push_decimal(out: &mut String, n: u64)
    ensures
        final(out)@ == old(out)@ + decimal(n as nat),
    decreases n,
{
    if n >= 10 {
        push_decimal(out, n / 10);
    }
    out.append(digit_text(n % 10));
}

/// Writes `n` in base ten.
pub fn write_decimal(n: u64) -> (out: String)
    ensures
        out@ == decimal(n as nat),
{
    let mut out = String::new();
    push_decimal(&mut out, n);
    out
}

/// Writes a number of tenths with at most one decimal place.
pub fn write_tenths(tenths: i64) -> (out: String)
    ensures
        out@ == decimal_tenths(tenths as int),
{
    let mut out = String::new();
    let size: u64 = if tenths < 0 {
        proof {
            reveal_strlit("-");
        }
        out.append("-");
        (-(tenths + 1)) as u64 + 1
    } else {
        tenths as u64
    };
    push_decimal(&mut out, size / 10);
    if size % 10 != 0 {
        proof {
            reveal_strlit(".");
        }
        out.append(".");
        out.append(digit_text(size % 10));
    }
    assert(out@ =~= decimal_tenths(tenths as int));
    out
}

} // verus!
