//! Numbers as they are written in a feed: unsigned integers, and amounts
//! with up to four digits behind the point.

use vstd::prelude::*;

use crate::prefix::{leading, lemma_leading};

verus! {

/// How many ten-thousandths make one unit.
pub const SCALE: u64 = 10_000;

/// How many digits an amount may have behind the point.
pub const FRACTION_DIGITS: usize = 4;

pub open spec fn is_digit(c: char) -> bool {
    '0' as u32 <= c as u32 <= '9' as u32
}

pub open spec fn digit_value(c: char) -> nat {
    (c as u32 - '0' as u32) as nat
}

pub open spec fn all_digits(s: Seq<char>) -> bool {
    forall|i: int| 0 <= i < s.len() ==> is_digit(#[trigger] s[i])
}

/// The number that a string of digits stands for. The empty string stands
/// for zero.
pub open spec fn digits_value(s: Seq<char>) -> nat
    decreases s.len(),
{
    if s.len() == 0 {
        0
    } else {
        digits_value(s.drop_last()) * 10 + digit_value(s.last())
    }
}

/// `s` with every space taken out.
pub open spec fn without_spaces(s: Seq<char>) -> Seq<char> {
    s.filter(|c: char| c != ' ')
}

/// `s` without the plus sign that it may begin with.
pub open spec fn unsigned_part(s: Seq<char>) -> Seq<char> {
    if s.len() > 0 && s[0] == '+' {
        s.drop_first()
    } else {
        s
    }
}

/// The unsigned integer that `s` stands for, where `s` is one or more
/// digits, with or without a plus sign in front, and the number is no
/// greater than `max`.
pub open spec fn unsigned_of(s: Seq<char>, max: nat) -> Option<nat> {
    let digits = unsigned_part(s);
    if digits.len() > 0 && all_digits(digits) && digits_value(digits) <= max {
        Some(digits_value(digits))
    } else {
        None
    }
}

/// How many digits `s` begins with.
pub open spec fn leading_digits(s: Seq<char>) -> nat {
    leading(s, |c: char| is_digit(c))
}

/// Ten to the power of `n`.
pub open spec fn power_of_ten(n: nat) -> nat
    decreases n,
{
    if n == 0 {
        1
    } else {
        10 * power_of_ten((n - 1) as nat)
    }
}

/// The amount, in ten-thousandths, that `s` stands for: digits, then
/// perhaps a point and up to four more digits, with or without a plus sign
/// in front. There is at least one digit, before the point or behind it,
/// and the amount is no greater than `u64::MAX` ten-thousandths.
pub open spec fn amount_of(s: Seq<char>) -> Option<u64> {
    let body = unsigned_part(s);
    let whole = body.take(leading_digits(body) as int);
    let rest = body.skip(leading_digits(body) as int);
    let fraction = if rest.len() > 0 {
        rest.drop_first()
    } else {
        rest
    };
    let value = digits_value(whole) * SCALE as nat + digits_value(fraction) * power_of_ten(
        (FRACTION_DIGITS - fraction.len()) as nat,
    );
    if (rest.len() == 0 || rest[0] == '.') && all_digits(fraction) && fraction.len()
        <= FRACTION_DIGITS && whole.len() + fraction.len() > 0 && value <= u64::MAX {
        Some(value as u64)
    } else {
        None
    }
}

/// A digit string stands for no less than any of its beginnings.
pub proof fn lemma_digits_value_grows(s: Seq<char>, k: int)
    requires
        0 <= k <= s.len(),
    ensures
        digits_value(s.take(k)) <= digits_value(s),
    decreases s.len(),
{
    if k == s.len() {
        assert(s.take(k) =~= s);
    } else {
        lemma_digits_value_grows(s.drop_last(), k);
        assert(s.drop_last().take(k) =~= s.take(k));
    }
}

/// Where a string is digits up to `k` and no further, it begins with `k`
/// digits.
pub proof fn lemma_leading_digits(s: Seq<char>, k: int)
    requires
        0 <= k <= s.len(),
        all_digits(s.take(k)),
        k == s.len() || !is_digit(s[k]),
    ensures
        leading_digits(s) == k,
{
    assert forall|i: int| 0 <= i < k implies is_digit(#[trigger] s[i]) by {
        assert(s[i] == s.take(k)[i]);
    }
    lemma_leading(s, |c: char| is_digit(c), k);
}

/// A string of `n` digits stands for less than ten to the power of `n`.
pub proof fn lemma_digits_value_bound(s: Seq<char>)
    requires
        all_digits(s),
    ensures
        digits_value(s) < power_of_ten(s.len()),
    decreases s.len(),
{
    if s.len() > 0 {
        assert(all_digits(s.drop_last()));
        lemma_digits_value_bound(s.drop_last());
    }
}

/// The characters of `field`, spaces left out.
pub fn strip_spaces(field: &str) -> (chars: Vec<char>)
    ensures
        chars@ == without_spaces(field@),
{
    let mut chars: Vec<char> = Vec::new();
    for c in it: field.chars()
        invariant
            it.seq() == field@,
            chars@ == without_spaces(field@.take(it.index())),
    {
        proof {
            reveal(Seq::filter);
            assert(field@.take(it.index() + 1).drop_last() =~= field@.take(it.index()));
        }
        if c != ' ' {
            chars.push(c);
        }
    }
    proof {
        reveal(Seq::filter);
        assert(field@.take(field@.len() as int) =~= field@);
    }
    chars
}

/// Whether `c` is one of the ten digits.
pub fn is_digit_char(c: char) -> (digit: bool)
    ensures
        digit == is_digit(c),
{
    let code = c as u32;
    '0' as u32 <= code && code <= '9' as u32
}

/// Where the digits of `chars` that begin at `from` come to an end.
fn end_of_digits(chars: &Vec<char>, from: usize) -> (end: usize)
    requires
        from <= chars.len(),
    ensures
        from <= end <= chars.len(),
        all_digits(chars@.subrange(from as int, end as int)),
        end == chars.len() || !is_digit(chars@[end as int]),
{
    let mut end = from;
    while end < chars.len() && is_digit_char(chars[end])
        invariant
            from <= end <= chars.len(),
            all_digits(chars@.subrange(from as int, end as int)),
        decreases chars.len() - end,
    {
        end += 1;
    }
    end
}

/// The number that the digits of `chars` from `from` up to `to` stand
/// for, unless it is greater than `max`.
fn number_between(chars: &Vec<char>, from: usize, to: usize, max: u64) -> (number: Option<u64>)
    requires
        from <= to <= chars.len(),
        all_digits(chars@.subrange(from as int, to as int)),
    ensures
        match number {
            Some(n) => n == digits_value(chars@.subrange(from as int, to as int)) && n <= max,
            None => digits_value(chars@.subrange(from as int, to as int)) > max,
        },
{
    let ghost digits = chars@.subrange(from as int, to as int);
    let mut number: u64 = 0;
    let mut at = from;
    while at < to
        invariant
            from <= at <= to <= chars.len(),
            digits == chars@.subrange(from as int, to as int),
            all_digits(digits),
            number == digits_value(chars@.subrange(from as int, at as int)),
            number <= max,
        decreases to - at,
    {
        assert(is_digit(chars@[at as int])) by {
            assert(digits[at - from] == chars@[at as int]);
        }
        let digit = (chars[at] as u32 - '0' as u32) as u64;
        proof {
            let seen = chars@.subrange(from as int, at + 1);
            assert(seen.drop_last() =~= chars@.subrange(from as int, at as int));
            assert(seen.last() == digits[at - from]);
            assert(seen =~= digits.take(at + 1 - from));
            lemma_digits_value_grows(digits, at + 1 - from);
        }
        let next = number as u128 * 10 + digit as u128;
        if next > max as u128 {
            return None;
        }
        number = next as u64;
        at += 1;
    }
    Some(number)
}

/// The unsigned integer that `chars` stands for, if it stands for one that
/// is no greater than `max`.
pub fn parse_unsigned(chars: &Vec<char>, max: u64) -> (number: Option<u64>)
    ensures
        match number {
            Some(n) => unsigned_of(chars@, max as nat) == Some(n as nat),
            None => unsigned_of(chars@, max as nat) is None,
        },
{
    let start: usize = if chars.len() > 0 && chars[0] == '+' {
        1
    } else {
        0
    };
    let end = end_of_digits(chars, start);
    proof {
        let digits = unsigned_part(chars@);
        assert(digits =~= chars@.subrange(start as int, chars.len() as int));
        if end < chars.len() {
            assert(digits[end - start] == chars@[end as int]);
        }
    }
    if end == start || end != chars.len() {
        return None;
    }
    number_between(chars, start, end, max)
}

/// Ten to the power of `n`, for the few `n` that scaling an amount needs.
fn ten_to_the(n: usize) -> (power: u64)
    requires
        n <= FRACTION_DIGITS,
    ensures
        power == power_of_ten(n as nat),
        power <= SCALE,
{
    reveal_with_fuel(power_of_ten, 5);
    match n {
        0 => 1,
        1 => 10,
        2 => 100,
        3 => 1_000,
        _ => 10_000,
    }
}

/// The amount, in ten-thousandths, that `chars` stands for, if it stands
/// for one.
pub fn parse_amount(chars: &Vec<char>) -> (amount: Option<u64>)
    ensures
        amount == amount_of(chars@),
{
    let start: usize = if chars.len() > 0 && chars[0] == '+' {
        1
    } else {
        0
    };
    let point = end_of_digits(chars, start);
    let fraction_start = if point == chars.len() {
        point
    } else if chars[point] == '.' {
        point + 1
    } else {
        proof {
            let body = unsigned_part(chars@);
            lemma_leading_digits(body, point - start);
        }
        return None;
    };
    let end = end_of_digits(chars, fraction_start);
    let ghost body = unsigned_part(chars@);
    let ghost whole = chars@.subrange(start as int, point as int);
    let ghost fraction = chars@.subrange(fraction_start as int, chars.len() as int);
    proof {
        assert(body.take(point - start) =~= whole);
        if point < chars.len() {
            assert(body.skip(point - start).drop_first() =~= fraction);
        }
        lemma_leading_digits(body, point - start);
    }
    if end != chars.len() {
        assert(fraction[end - fraction_start] == chars@[end as int]);
        return None;
    }
    let fraction_len = end - fraction_start;
    if fraction_len > FRACTION_DIGITS || (point - start) + fraction_len == 0 {
        return None;
    }
    let units = match number_between(chars, start, point, u64::MAX / SCALE) {
        Some(units) => units,
        None => {
            return None;
        },
    };
    proof {
        lemma_digits_value_bound(fraction);
        reveal_with_fuel(power_of_ten, 5);
    }
    let parts = match number_between(chars, fraction_start, end, SCALE - 1) {
        Some(parts) => parts,
        None => {
            return None;
        },
    };
    let weight = ten_to_the(FRACTION_DIGITS - fraction_len);
    assert(parts * weight <= (SCALE - 1) * SCALE) by (nonlinear_arith)
        requires
            parts <= SCALE - 1,
            weight <= SCALE,
    ;
    let value = units as u128 * SCALE as u128 + (parts * weight) as u128;
    if value > u64::MAX as u128 {
        None
    } else {
        Some(value as u64)
    }
}

} // verus!
