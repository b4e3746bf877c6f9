//! Byte counts in the short human-readable form.

use crate::decimal::{
    count_digits, decimal, decimal_text, digit_count, lemma_digit_count_bound,
    lemma_digit_count_positive, pow10,
};
use vstd::prelude::*;
use vstd::string::*;

verus! {

/// The unit that goes with a number of `digits` digits.
pub open spec fn unit_symbol(digits: nat) -> Seq<char> {
    if 1 <= digits <= 3 {
        seq!['B']
    } else if 4 <= digits <= 6 {
        seq!['k', 'B']
    } else if 7 <= digits <= 9 {
        seq!['m', 'B']
    } else if 10 <= digits <= 12 {
        seq!['G', 'B']
    } else if 13 <= digits <= 15 {
        seq!['T', 'B']
    } else {
        Seq::empty()
    }
}

/// How many digits stand before the point: one, two or three, such that
/// the digits after them come in groups of three.
pub open spec fn lead_digits(digits: nat) -> int {
    if digits % 3 == 0 {
        3
    } else {
        (digits % 3) as int
    }
}

/// A number of more than three digits cut down to its leading digits, a
/// point, and the two digits after them.
pub open spec fn scaled_text(digits: Seq<char>) -> Seq<char>
    recommends
        digits.len() > 3,
{
    let lead = lead_digits(digits.len());
    digits.subrange(0, lead) + seq!['.'] + digits.subrange(lead, lead + 2)
}

/// The human-readable form of a byte count.
pub open spec fn human_size_text(n: nat) -> Seq<char> {
    let digits = decimal_text(n);
    if digits.len() <= 3 {
        digits + unit_symbol(digits.len())
    } else {
        scaled_text(digits) + unit_symbol(digits.len())
    }
}

/// The unit for a number of `length` digits: `B` up to three digits, then
/// `kB`, `mB`, `GB` and `TB` for each further three, and nothing beyond
/// fifteen digits or for no digit at all.
pub fn bytes_symbol(length: u32) -> (symbol: String)
    ensures
        symbol@ == unit_symbol(length as nat),
{
    proof {
        reveal_strlit("B");
        reveal_strlit("kB");
        reveal_strlit("mB");
        reveal_strlit("GB");
        reveal_strlit("TB");
        reveal_strlit("");
    }
    let symbol = match length {
        1..=3 => "B",
        4..=6 => "kB",
        7..=9 => "mB",
        10..=12 => "GB",
        13..=15 => "TB",
        _ => "",
    };
    assert(symbol@ =~= unit_symbol(length as nat));
    symbol.to_owned()
}

/// Renders a byte count in the human-readable form.
///
/// Up to three digits the count is written out, followed by `B`. A longer
/// count keeps its one to three leading digits, a point and the next two
/// digits, followed by the unit of its magnitude.
pub fn parse_size(size: u64) -> (text: String)
    ensures
        text@ == human_size_text(size as nat),
{
    let length = count_digits(size);
    let digits = decimal(size);
    let mut res: String;
    if length > 3 {
        let lead: usize = if length % 3 == 0 {
            3
        } else {
            (length % 3) as usize
        };
        proof {
            reveal_strlit(".");
        }
        res = digits.as_str().substring_char(0, lead).to_owned();
        res.append(".");
        res.append(digits.as_str().substring_char(lead, lead + 2));
    } else {
        res = digits;
    }
    res.append(bytes_symbol(length).as_str());
    res
}

/// A count of at most three digits, which is a count below a thousand,
/// is shown as it is, followed by `B`.
pub proof fn lemma_small_size_is_plain(n: nat)
    requires
        digit_count(n) <= 3,
    ensures
        n < 1000,
        human_size_text(n) == decimal_text(n) + seq!['B'],
{
    assert(pow10(3) == 1000) by {
        reveal_with_fuel(pow10, 4);
    }
    lemma_digit_count_bound(n, 3);
    lemma_digit_count_positive(n);
}

/// A count of more than three digits is shown as its one to three leading
/// digits, a point, the two digits that follow, and its unit.
pub proof fn lemma_large_size_is_scaled(n: nat)
    requires
        digit_count(n) > 3,
    ensures
        1 <= lead_digits(digit_count(n)) <= 3,
        (digit_count(n) - lead_digits(digit_count(n))) % 3 == 0,
        human_size_text(n) == decimal_text(n).take(lead_digits(digit_count(n))) + seq!['.']
            + decimal_text(n).subrange(
            lead_digits(digit_count(n)),
            lead_digits(digit_count(n)) + 2,
        ) + unit_symbol(digit_count(n)),
{
}

/// The human-readable form never takes more than eight characters.
pub proof fn lemma_human_size_is_short(n: nat)
    ensures
        2 <= human_size_text(n).len() <= 8,
{
    lemma_digit_count_positive(n);
}

} // verus!
