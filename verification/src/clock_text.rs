//! Clock readings as text.

use vstd::prelude::*;
use vstd::string::StringExecFns;

use crate::types::RomanTimeDetails;

verus! {

/// The character of a decimal digit.
pub open spec fn digit_char(d: int) -> char
    recommends
        0 <= d < 10,
{
    if d == 0 {
        '0'
    } else if d == 1 {
        '1'
    } else if d == 2 {
        '2'
    } else if d == 3 {
        '3'
    } else if d == 4 {
        '4'
    } else if d == 5 {
        '5'
    } else if d == 6 {
        '6'
    } else if d == 7 {
        '7'
    } else if d == 8 {
        '8'
    } else {
        '9'
    }
}

/// The decimal digits of a natural number, most significant first, without
/// leading zeros (zero itself is one digit).
pub open spec fn decimal_digits(n: nat) -> Seq<char>
    decreases n,
{
    if n < 10 {
        seq![digit_char(n as int)]
    } else {
        decimal_digits(n / 10).push(digit_char((n % 10) as int))
    }
}

/// An integer in decimal, with a minus sign in front if it is negative.
pub open spec fn decimal_text(n: int) -> Seq<char> {
    if n < 0 {
        seq!['-'] + decimal_digits((-n) as nat)
    } else {
        decimal_digits(n as nat)
    }
}

/// `text` with zeros put in front until it is `width` characters long; a
/// text that is long enough is left alone.
pub open spec fn zero_padded(text: Seq<char>, width: nat) -> Seq<char> {
    if text.len() >= width {
        text
    } else {
        Seq::new((width - text.len()) as nat, |i: int| '0') + text
    }
}

/// Hours and minutes as `HH:MM`: each number in decimal, padded with zeros
/// to two characters, a colon between them.
pub open spec fn hours_minutes_text(hours: int, minutes: int) -> Seq<char> {
    zero_padded(decimal_text(hours), 2) + seq![':'] + zero_padded(decimal_text(minutes), 2)
}

/// Hours and minutes as `H:M`: each number in decimal as it is, a colon
/// between them.
pub open spec fn plain_hours_minutes_text(hours: int, minutes: int) -> Seq<char> {
    decimal_text(hours) + seq![':'] + decimal_text(minutes)
}

/// A number has at least one digit, and two or more from ten on.
pub proof fn lemma_decimal_digits_len(n: nat)
    ensures
        decimal_digits(n).len() >= 1,
        n >= 10 ==> decimal_digits(n).len() >= 2,
        n < 10 ==> decimal_digits(n).len() == 1,
    decreases n,
{
    if n >= 10 {
        lemma_decimal_digits_len(n / 10);
    }
}

/// Padding to two characters puts a single zero in front of the numbers
/// 0 to 9 and changes no other number.
pub proof fn lemma_two_wide(n: int)
    ensures
        zero_padded(decimal_text(n), 2) == if 0 <= n < 10 {
            seq!['0'] + decimal_text(n)
        } else {
            decimal_text(n)
        },
{
    if n < 0 {
        lemma_decimal_digits_len((-n) as nat);
    } else {
        lemma_decimal_digits_len(n as nat);
        if n < 10 {
            assert(Seq::new(1nat, |i: int| '0') =~= seq!['0']);
        }
    }
}

/// A number from 0 to 99, padded to two characters, is two characters
/// long.
pub proof fn lemma_two_digit_width(n: int)
    requires
        0 <= n < 100,
    ensures
        zero_padded(decimal_text(n), 2).len() == 2,
{
    lemma_two_wide(n);
    reveal_with_fuel(decimal_digits, 3);
}

/// One decimal digit as text.
fn digit_str(d: u32) -> (s: &'static str)
    requires
        d < 10,
    ensures
        s@ == seq![digit_char(d as int)],
{
    proof {
        reveal_strlit("0");
        reveal_strlit("1");
        reveal_strlit("2");
        reveal_strlit("3");
        reveal_strlit("4");
        reveal_strlit("5");
        reveal_strlit("6");
        reveal_strlit("7");
        reveal_strlit("8");
        reveal_strlit("9");
    }
    let s = match d {
        0 => "0",
        1 => "1",
        2 => "2",
        3 => "3",
        4 => "4",
        5 => "5",
        6 => "6",
        7 => "7",
        8 => "8",
        _ => "9",
    };
    assert(s@ =~= seq![digit_char(d as int)]);
    s
}

/// Appends the decimal digits of `n`.
fn push_decimal_digits(out: &mut String, n: u32)
    ensures
        final(out)@ == old(out)@ + decimal_digits(n as nat),
    decreases n,
{
    if n >= 10 {
        push_decimal_digits(out, n / 10);
    }
    out.append(digit_str(n % 10));
    assert(out@ =~= old(out)@ + decimal_digits(n as nat));
}

/// Appends `n` in decimal.
fn push_decimal(out: &mut String, n: i32)
    ensures
        final(out)@ == old(out)@ + decimal_text(n as int),
{
    if n < 0 {
        proof {
            reveal_strlit("-");
        }
        out.append("-");
        let magnitude: u32 = if n == i32::MIN {
            2147483648
        } else {
            (-n) as u32
        };
        push_decimal_digits(out, magnitude);
        assert(out@ =~= old(out)@ + decimal_text(n as int));
    } else {
        push_decimal_digits(out, n as u32);
    }
}

/// Appends `n` in decimal, padded with zeros to two characters.
fn push_two_wide(out: &mut String, n: i32)
    ensures
        final(out)@ == old(out)@ + zero_padded(decimal_text(n as int), 2),
{
    proof {
        lemma_two_wide(n as int);
    }
    if 0 <= n && n < 10 {
        proof {
            reveal_strlit("0");
        }
        out.append("0");
    }
    push_decimal(out, n);
    assert(out@ =~= old(out)@ + zero_padded(decimal_text(n as int), 2));
}

/// Formats a clock reading as `HH:MM`, each part padded with zeros to two
/// characters.
pub fn format_time_to_hours_minutes(hours: &i32, minutes: &i32) -> (text: String)
    ensures
        text@ == hours_minutes_text(*hours as int, *minutes as int),
{
    let mut text = String::new();
    push_two_wide(&mut text, *hours);
    proof {
        reveal_strlit(":");
    }
    text.append(":");
    push_two_wide(&mut text, *minutes);
    assert(text@ =~= hours_minutes_text(*hours as int, *minutes as int));
    text
}

impl RomanTimeDetails {
    /// The Roman time as `H:M`, without padding.
    pub fn to_text(&self) -> (text: String)
        ensures
            text@ == plain_hours_minutes_text(self.hours as int, self.minutes as int),
    {
        let mut text = String::new();
        push_decimal(&mut text, self.hours);
        proof {
            reveal_strlit(":");
        }
        text.append(":");
        push_decimal(&mut text, self.minutes);
        assert(text@ =~= plain_hours_minutes_text(self.hours as int, self.minutes as int));
        text
    }
}

} // verus!
