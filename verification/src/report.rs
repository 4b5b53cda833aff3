//! The report: one row of text for each client.

use vstd::prelude::*;
use vstd::string::{StrSliceExecFns, StringExecFns};

use crate::decimal::{all_digits, amount_of, digits_value, lemma_leading_digits, power_of_ten};
use crate::ledger::Client;
use crate::model::ClientState;

verus! {

/// How wide the column of client ids is.
pub const CLIENT_WIDTH: usize = 7;

/// How wide every other column is.
pub const COLUMN_WIDTH: usize = 12;

/// The character for the digit `d`.
pub open spec fn digit_char(d: nat) -> char {
    ('0' as u32 + d) as char
}

/// `n` in decimal digits, without leading zeros.
pub open spec fn number_text(n: nat) -> Seq<char>
    decreases n,
{
    if n < 10 {
        seq![digit_char(n)]
    } else {
        number_text(n / 10).push(digit_char(n % 10))
    }
}

/// `parts` in four decimal digits, with leading zeros where it takes them.
pub open spec fn fraction_text(parts: nat) -> Seq<char> {
    seq![
        digit_char(parts / 1_000 % 10),
        digit_char(parts / 100 % 10),
        digit_char(parts / 10 % 10),
        digit_char(parts % 10),
    ]
}

/// An amount of `v` ten-thousandths as text: a minus sign where `v` is
/// negative, the units, a point, and four digits for the ten-thousandths.
pub open spec fn amount_text(v: int) -> Seq<char> {
    let magnitude = if v < 0 {
        (-v) as nat
    } else {
        v as nat
    };
    (if v < 0 {
        seq!['-']
    } else {
        Seq::empty()
    }) + number_text(magnitude / 10_000) + seq!['.'] + fraction_text(magnitude % 10_000)
}

/// `text`, with as many spaces in front as it takes to make it `width`
/// characters long.
pub open spec fn padded(text: Seq<char>, width: nat) -> Seq<char> {
    if text.len() < width {
        Seq::new((width - text.len()) as nat, |i: int| ' ') + text
    } else {
        text
    }
}

/// The row of the report for the client `id` with the account `c`: the
/// client, the available and the held balance, their sum, and whether the
/// account is frozen.
pub open spec fn row_text(id: u16, c: ClientState) -> Seq<char> {
    padded(number_text(id as nat), CLIENT_WIDTH as nat) + ", "@ + padded(
        amount_text(c.available),
        COLUMN_WIDTH as nat,
    ) + ", "@ + padded(amount_text(c.held), COLUMN_WIDTH as nat) + ", "@ + padded(
        amount_text(c.total()),
        COLUMN_WIDTH as nat,
    ) + ", "@ + padded(
        if c.locked {
            "true"@
        } else {
            "false"@
        },
        COLUMN_WIDTH as nat,
    )
}

/// The row that names the columns.
pub open spec fn header_text() -> Seq<char> {
    padded("client"@, CLIENT_WIDTH as nat) + ", "@ + padded("available"@, COLUMN_WIDTH as nat)
        + ", "@ + padded("held"@, COLUMN_WIDTH as nat) + ", "@ + padded(
        "total"@,
        COLUMN_WIDTH as nat,
    ) + ", "@ + padded("locked"@, COLUMN_WIDTH as nat)
}

/// One more digit behind a string of digits: the number it stands for is
/// ten times what it was, and the digit.
proof fn lemma_one_more_digit(digits: Seq<char>, d: nat)
    requires
        all_digits(digits),
        d < 10,
    ensures
        all_digits(digits.push(digit_char(d))),
        digits_value(digits.push(digit_char(d))) == digits_value(digits) * 10 + d,
{
    let longer = digits.push(digit_char(d));
    assert(longer.drop_last() =~= digits);
}

/// The digits of a number are digits, and they stand for the number.
pub proof fn lemma_number_text(n: nat)
    ensures
        number_text(n).len() > 0,
        all_digits(number_text(n)),
        digits_value(number_text(n)) == n,
    decreases n,
{
    if n >= 10 {
        lemma_number_text(n / 10);
        lemma_one_more_digit(number_text(n / 10), n % 10);
    } else {
        lemma_one_more_digit(Seq::empty(), n);
    }
}

/// Four digits stand for the number that they are the digits of.
proof fn lemma_four_digits(parts: nat)
    requires
        parts < 10_000,
    ensures
        all_digits(fraction_text(parts)),
        digits_value(fraction_text(parts)) == parts,
{
    let one = Seq::empty().push(digit_char(parts / 1_000 % 10));
    let two = one.push(digit_char(parts / 100 % 10));
    let three = two.push(digit_char(parts / 10 % 10));
    lemma_one_more_digit(Seq::empty(), parts / 1_000 % 10);
    lemma_one_more_digit(one, parts / 100 % 10);
    lemma_one_more_digit(two, parts / 10 % 10);
    lemma_one_more_digit(three, parts % 10);
    assert(fraction_text(parts) =~= three.push(digit_char(parts % 10)));
}

/// An amount that is written down is read back as the same amount.
pub proof fn lemma_amount_reads_back(v: u64)
    ensures
        amount_of(amount_text(v as int)) == Some(v),
{
    let text = amount_text(v as int);
    let units = number_text(v as nat / 10_000);
    let parts = fraction_text(v as nat % 10_000);
    let point = units.len() as int;
    lemma_number_text(v as nat / 10_000);
    lemma_four_digits(v as nat % 10_000);
    assert(text.take(point) =~= units);
    lemma_leading_digits(text, point);
    assert(text.skip(point).drop_first() =~= parts);
    assert(power_of_ten(0) == 1) by {
        reveal_with_fuel(power_of_ten, 1);
    }
    assert(digits_value(parts) * power_of_ten(0) == digits_value(parts));
}

/// The digit `d` as text.
fn digit_text(d: u128) -> (text: &'static str)
    requires
        d < 10,
    ensures
        text@ == seq![digit_char(d as nat)],
{
    proof {
        reveal_strlit("0");
        reveal_strlit("1");
        reveal_strlit("2");
        reveal_strlit("3");
        reveal_strlit("4");
        reveal_strlit("5");
        reveal_strlit("6");
        reveal_strlit("7");
        reveal_strlit("8");
        reveal_strlit("9");
    }
    let text = match d {
        0 => "0",
        1 => "1",
        2 => "2",
        3 => "3",
        4 => "4",
        5 => "5",
        6 => "6",
        7 => "7",
        8 => "8",
        _ => "9",
    };
    text
}

/// Writes `n` in decimal digits at the end of `text`.
fn write_number(text: &mut String, n: u128)
    ensures
        final(text)@ == old(text)@ + number_text(n as nat),
    decreases n,
{
    if n >= 10 {
        write_number(text, n / 10);
    }
    text.append(digit_text(n % 10));
}

/// An amount of `v` ten-thousandths as text, with four digits behind the
/// point.
pub fn render_amount(v: i128) -> (text: String)
    ensures
        text@ == amount_text(v as int),
{
    let mut text = String::new();
    let magnitude: u128 = if v < 0 {
        proof {
            reveal_strlit("-");
        }
        text.append("-");
        (-(v + 1)) as u128 + 1
    } else {
        v as u128
    };
    write_number(&mut text, magnitude / 10_000);
    let parts = magnitude % 10_000;
    proof {
        reveal_strlit(".");
    }
    text.append(".");
    text.append(digit_text(parts / 1_000));
    text.append(digit_text(parts / 100 % 10));
    text.append(digit_text(parts / 10 % 10));
    text.append(digit_text(parts % 10));
    text
}

/// Writes `cell` at the end of `text`, with spaces in front of it where it
/// is shorter than `width`.
fn write_padded(text: &mut String, cell: &str, width: usize)
    ensures
        final(text)@ == old(text)@ + padded(cell@, width as nat),
{
    let len = cell.unicode_len();
    let mut written = len;
    proof {
        reveal_strlit(" ");
    }
    while written < width
        invariant
            len == cell@.len(),
            len <= written,
            written <= width || written == len,
            text@ == old(text)@ + Seq::new((written - len) as nat, |i: int| ' '),
            " "@ == seq![' '],
        decreases width - written,
    {
        text.append(" ");
        written += 1;
    }
    text.append(cell);
}

/// The row of the report that names the columns.
pub fn header() -> (text: String)
    ensures
        text@ == header_text(),
{
    let mut text = String::new();
    write_padded(&mut text, "client", CLIENT_WIDTH);
    text.append(", ");
    write_padded(&mut text, "available", COLUMN_WIDTH);
    text.append(", ");
    write_padded(&mut text, "held", COLUMN_WIDTH);
    text.append(", ");
    write_padded(&mut text, "total", COLUMN_WIDTH);
    text.append(", ");
    write_padded(&mut text, "locked", COLUMN_WIDTH);
    text
}

/// The row of the report for the client `id`, whose account is `client`.
pub fn row(id: u16, client: &Client) -> (text: String)
    ensures
        text@ == row_text(id, client@),
{
    let mut text = String::new();
    let mut cell = String::new();
    write_number(&mut cell, id as u128);
    write_padded(&mut text, cell.as_str(), CLIENT_WIDTH);
    text.append(", ");
    write_padded(&mut text, render_amount(client.available as i128).as_str(), COLUMN_WIDTH);
    text.append(", ");
    write_padded(&mut text, render_amount(client.held as i128).as_str(), COLUMN_WIDTH);
    text.append(", ");
    write_padded(&mut text, render_amount(client.total()).as_str(), COLUMN_WIDTH);
    text.append(", ");
    write_padded(
        &mut text,
        if client.locked {
            "true"
        } else {
            "false"
        },
        COLUMN_WIDTH,
    );
    text
}

} // verus!
