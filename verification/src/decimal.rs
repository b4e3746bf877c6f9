//! Numbers written in decimal.

use vstd::prelude::*;
use vstd::string::*;

verus! {

/// The character of one decimal digit.
pub open spec fn digit_char(d: int) -> char {
    if d == 0 {
        '0'
    } else if d == 1 {
        '1'
    } else if d == 2 {
        '2'
    } else if d == 3 {
        '3'
    } else if d == 4 {
        '4'
    } else if d == 5 {
        '5'
    } else if d == 6 {
        '6'
    } else if d == 7 {
        '7'
    } else if d == 8 {
        '8'
    } else {
        '9'
    }
}

/// The decimal digits of `n`, most significant first, without leading zeros.
pub open spec fn decimal_text(n: nat) -> Seq<char>
    decreases n,
{
    if n < 10 {
        seq![digit_char(n as int)]
    } else {
        decimal_text(n / 10).push(digit_char((n % 10) as int))
    }
}

/// How many decimal digits `n` has; zero has one.
pub open spec fn digit_count(n: nat) -> nat {
    decimal_text(n).len()
}

/// Ten to the power `k`.
pub open spec fn pow10(k: nat) -> nat
    decreases k,
{
    if k == 0 {
        1
    } else {
        10 * pow10((k - 1) as nat)
    }
}

/// The digit that a character shows: the inverse of `digit_char` on the
/// ten digits.
pub open spec fn digit_value(c: char) -> int {
    if c == '0' {
        0
    } else if c == '1' {
        1
    } else if c == '2' {
        2
    } else if c == '3' {
        3
    } else if c == '4' {
        4
    } else if c == '5' {
        5
    } else if c == '6' {
        6
    } else if c == '7' {
        7
    } else if c == '8' {
        8
    } else {
        9
    }
}

/// Whether `c` is one of the ten digits.
pub open spec fn is_digit(c: char) -> bool {
    '0' <= c <= '9'
}

/// The number that a run of digits writes.
pub open spec fn decimal_value(digits: Seq<char>) -> nat
    decreases digits.len(),
{
    if digits.len() == 0 {
        0
    } else {
        (10 * decimal_value(digits.drop_last()) + digit_value(digits.last())) as nat
    }
}

/// Every number has at least one digit.
pub proof fn lemma_digit_count_positive(n: nat)
    ensures
        digit_count(n) >= 1,
    decreases n,
{
    if n >= 10 {
        lemma_digit_count_positive(n / 10);
    }
}

/// A number has at most `k` digits exactly when it is below ten to the `k`.
pub proof fn lemma_digit_count_bound(n: nat, k: nat)
    requires
        k >= 1,
    ensures
        digit_count(n) <= k <==> n < pow10(k),
    decreases k,
{
    reveal_with_fuel(pow10, 2);
    if n >= 10 {
        lemma_digit_count_positive(n / 10);
        if k > 1 {
            lemma_digit_count_bound(n / 10, (k - 1) as nat);
        }
    } else {
        lemma_pow10_grows((k - 1) as nat);
    }
}

/// The decimal text of a number consists of digits, starts with a zero
/// only if the number is zero, and reads back as the number.
pub proof fn lemma_decimal_text_reads_back(n: nat)
    ensures
        forall|i: int| 0 <= i < decimal_text(n).len() ==> is_digit(#[trigger] decimal_text(n)[i]),
        decimal_text(n)[0] == '0' <==> n == 0,
        decimal_value(decimal_text(n)) == n,
    decreases n,
{
    if n < 10 {
        assert(decimal_text(n).drop_last() =~= Seq::<char>::empty());
        assert(decimal_value(decimal_text(n).drop_last()) == 0);
    } else {
        lemma_decimal_text_reads_back(n / 10);
        lemma_digit_count_positive(n / 10);
        assert(decimal_text(n).drop_last() =~= decimal_text(n / 10));
    }
}

/// Every power of ten is at least one.
proof fn lemma_pow10_grows(k: nat)
    ensures
        pow10(k) >= 1,
    decreases k,
{
    if k > 0 {
        lemma_pow10_grows((k - 1) as nat);
    }
}

/// A 64-bit number has at most twenty digits.
pub proof fn lemma_digit_count_u64(n: u64)
    ensures
        1 <= digit_count(n as nat) <= 20,
{
    assert(pow10(20) == 100_000_000_000_000_000_000nat) by {
        reveal_with_fuel(pow10, 21);
    }
    lemma_digit_count_bound(n as nat, 20);
    lemma_digit_count_positive(n as nat);
}

/// The text of one decimal digit.
fn digit_str(d: u64) -> (text: &'static str)
    requires
        d < 10,
    ensures
        text@ == seq![digit_char(d as int)],
{
    proof {
        reveal_strlit("0");
        reveal_strlit("1");
        reveal_strlit("2");
        reveal_strlit("3");
        reveal_strlit("4");
        reveal_strlit("5");
        reveal_strlit("6");
        reveal_strlit("7");
        reveal_strlit("8");
        reveal_strlit("9");
    }
    let text = match d {
        0 => "0",
        1 => "1",
        2 => "2",
        3 => "3",
        4 => "4",
        5 => "5",
        6 => "6",
        7 => "7",
        8 => "8",
        _ => "9",
    };
    assert(text@ =~= seq![digit_char(d as int)]);
    text
}

/// Writes `n` in decimal.
pub fn decimal(n: u64) -> (text: String)
    ensures
        text@ == decimal_text(n as nat),
    decreases n,
{
    if n < 10 {
        digit_str(n).to_owned()
    } else {
        let mut text = decimal(n / 10);
        text.append(digit_str(n % 10));
        text
    }
}

/// Counts the decimal digits of `n`.
pub fn count_digits(n: u64) -> (count: u32)
    ensures
        count == digit_count(n as nat),
        1 <= count <= 20,
{
    proof {
        lemma_digit_count_u64(n);
    }
    let mut count: u32 = 1;
    let mut rest: u64 = n;
    while rest >= 10
        invariant
            1 <= count <= 20,
            digit_count(n as nat) <= 20,
            count + digit_count(rest as nat) == digit_count(n as nat) + 1,
        decreases rest,
    {
        proof {
            lemma_digit_count_positive((rest / 10) as nat);
        }
        rest = rest / 10;
        count = count + 1;
    }
    count
}

} // verus!
