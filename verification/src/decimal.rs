//! Decimal notation for port numbers.

use vstd::prelude::*;

verus! {

/// The character that stands for a single decimal digit.
pub open spec fn digit(d: nat) -> char {
    if d == 0 {
        '0'
    } else if d == 1 {
        '1'
    } else if d == 2 {
        '2'
    } else if d == 3 {
        '3'
    } else if d == 4 {
        '4'
    } else if d == 5 {
        '5'
    } else if d == 6 {
        '6'
    } else if d == 7 {
        '7'
    } else if d == 8 {
        '8'
    } else {
        '9'
    }
}

/// A number in decimal notation: most significant digit first, no sign, no
/// leading zeros, and `0` for zero.
pub open spec fn decimal(n: nat) -> Seq<char>
    decreases n,
{
    if n < 10 {
        seq![digit(n)]
    } else {
        decimal(n / 10).push(digit(n % 10))
    }
}

/// The number that a character stands for as a decimal digit, if it is one.
pub open spec fn digit_value(c: char) -> Option<nat> {
    if c == '0' {
        Some(0)
    } else if c == '1' {
        Some(1)
    } else if c == '2' {
        Some(2)
    } else if c == '3' {
        Some(3)
    } else if c == '4' {
        Some(4)
    } else if c == '5' {
        Some(5)
    } else if c == '6' {
        Some(6)
    } else if c == '7' {
        Some(7)
    } else if c == '8' {
        Some(8)
    } else if c == '9' {
        Some(9)
    } else {
        None
    }
}

/// The number that a text denotes when read as decimal notation; `None` where
/// the text is empty or holds anything but digits.
pub open spec fn decimal_value(text: Seq<char>) -> Option<nat>
    decreases text.len(),
{
    if text.len() == 0 {
        None
    } else if text.len() == 1 {
        digit_value(text[0])
    } else {
        match (decimal_value(text.drop_last()), digit_value(text.last())) {
            (Some(high), Some(low)) => Some(high * 10 + low),
            _ => None,
        }
    }
}

/// Reading back the decimal notation of a number gives that number, so two
/// different numbers never share a notation.
pub proof fn decimal_reads_back(n: nat)
    ensures
        decimal(n).len() >= 1,
        decimal_value(decimal(n)) == Some(n),
    decreases n,
{
    if n >= 10 {
        decimal_reads_back(n / 10);
        let text = decimal(n);
        assert(text.drop_last() =~= decimal(n / 10));
    }
}

/// The text of a single decimal digit.
fn digit_text(d: u16) -> (text: &'static str)
    requires
        d < 10,
    ensures
        text@ == seq![digit(d as nat)],
{
    proof {
        reveal_strlit("0");
        reveal_strlit("1");
        reveal_strlit("2");
        reveal_strlit("3");
        reveal_strlit("4");
        reveal_strlit("5");
        reveal_strlit("6");
        reveal_strlit("7");
        reveal_strlit("8");
        reveal_strlit("9");
    }
    if d == 0 {
        "0"
    } else if d == 1 {
        "1"
    } else if d == 2 {
        "2"
    } else if d == 3 {
        "3"
    } else if d == 4 {
        "4"
    } else if d == 5 {
        "5"
    } else if d == 6 {
        "6"
    } else if d == 7 {
        "7"
    } else if d == 8 {
        "8"
    } else {
        "9"
    }
}

/// Writes a port number in decimal notation.
pub fn port_text(port: u16) -> (text: String)
    ensures
        text@ == decimal(port as nat),
    decreases port,
{
    if port < 10 {
        digit_text(port).to_owned()
    } else {
        let mut text = port_text(port / 10);
        text.append(digit_text(port % 10));
        text
    }
}

} // verus!
