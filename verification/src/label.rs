//! What the label of a hovered slice is made from.

use vstd::prelude::*;
use vstd::string::*;
use crate::chart::Piechart;
use crate::slice::Slice;

verus! {

/// Writes the label of a slice in place of the default one.
pub trait ElementFormatter {
    fn format(&self, slice: &Slice, chart: &Piechart) -> String;
}

/// The character that stands for a digit.
pub open spec fn spec_digit(d: int) -> char {
    if d == 0 {
        '0'
    } else if d == 1 {
        '1'
    } else if d == 2 {
        '2'
    } else if d == 3 {
        '3'
    } else if d == 4 {
        '4'
    } else if d == 5 {
        '5'
    } else if d == 6 {
        '6'
    } else if d == 7 {
        '7'
    } else if d == 8 {
        '8'
    } else {
        '9'
    }
}

/// A natural number in decimal digits, without leading zeros.
pub open spec fn spec_decimal(n: nat) -> Seq<char>
    decreases n,
{
    if n < 10 {
        seq![spec_digit(n as int)]
    } else {
        spec_decimal(n / 10).push(spec_digit((n % 10) as int))
    }
}

/// The hundredths nearest to the magnitude of a value in millionths; a
/// value halfway between two goes to the even one.
pub open spec fn spec_hundredths(value: int) -> nat {
    let size = if value < 0 { -value } else { value };
    let whole = size / 10_000;
    let rest = size % 10_000;
    if rest > 5_000 || (rest == 5_000 && whole % 2 == 1) {
        (whole + 1) as nat
    } else {
        whole as nat
    }
}

/// A value in millionths written with two decimals: a minus sign where it
/// is negative, its whole part, a point, and two digits.
pub open spec fn spec_two_decimals(value: int) -> Seq<char> {
    let h = spec_hundredths(value);
    let sign = if value < 0 { seq!['-'] } else { Seq::<char>::empty() };
    sign + spec_decimal(h / 100).push('.').push(spec_digit((h / 10 % 10) as int)).push(spec_digit((h % 10) as int))
}

/// The label of a slice where the chart has no formatter: the name, a
/// colon and the value; or of the two what the slice has; or none.
pub open spec fn spec_default_label(slice: Slice) -> Option<Seq<char>> {
    match (slice.name, slice.value) {
        (Some(name), Some(value)) => Some(name@ + seq![':', ' '] + spec_two_decimals(value as int)),
        (Some(name), None) => Some(name@),
        (None, Some(value)) => Some(spec_two_decimals(value as int)),
        (None, None) => None,
    }
}

/// One digit as text.
pub fn digit_text(d: u64) -> (text: &'static str)
    requires
        d < 10,
    ensures
        text@ == seq![spec_digit(d as int)],
{
    proof {
        reveal_strlit("0");
        reveal_strlit("1");
        reveal_strlit("2");
        reveal_strlit("3");
        reveal_strlit("4");
        reveal_strlit("5");
        reveal_strlit("6");
        reveal_strlit("7");
        reveal_strlit("8");
        reveal_strlit("9");
    }
    let text = if d == 0 {
        "0"
    } else if d == 1 {
        "1"
    } else if d == 2 {
        "2"
    } else if d == 3 {
        "3"
    } else if d == 4 {
        "4"
    } else if d == 5 {
        "5"
    } else if d == 6 {
        "6"
    } else if d == 7 {
        "7"
    } else if d == 8 {
        "8"
    } else {
        "9"
    };
    text
}

/// Computes [`spec_decimal`].
pub fn decimal(n: u64) -> (text: String)
    ensures
        text@ == spec_decimal(n as nat),
    decreases n,
{
    if n < 10 {
        String::from_str(digit_text(n))
    } else {
        let mut text = decimal(n / 10);
        text.append(digit_text(n % 10));
        text
    }
}

/// Computes [`spec_two_decimals`].
pub fn two_decimals(value: i64) -> (text: String)
    ensures
        text@ == spec_two_decimals(value as int),
{
    let size: u64 = if value < 0 { (-(value as i128)) as u64 } else { value as u64 };
    let whole: u64 = size / 10_000;
    let rest: u64 = size % 10_000;
    let h: u64 = if rest > 5_000 || (rest == 5_000 && whole % 2 == 1) { whole + 1 } else { whole };
    proof {
        reveal_strlit("-");
        reveal_strlit("");
        reveal_strlit(".");
    }
    let mut text = String::from_str(if value < 0 { "-" } else { "" });
    let units = decimal(h / 100);
    text.append(units.as_str());
    text.append(".");
    text.append(digit_text(h / 10 % 10));
    text.append(digit_text(h % 10));
    text
}

/// Computes [`spec_default_label`].
pub fn default_label(slice: &Slice) -> (label: Option<String>)
    ensures
        match label {
            Some(text) => spec_default_label(*slice) == Some(text@),
            None => spec_default_label(*slice) is None,
        },
{
    match (&slice.name, slice.value) {
        (Some(name), Some(value)) => {
            proof {
                reveal_strlit(": ");
            }
            let mut text = String::from_str(name.as_str());
            text.append(": ");
            let number = two_decimals(value);
            text.append(number.as_str());
            Some(text)
        },
        (Some(name), None) => Some(String::from_str(name.as_str())),
        (None, Some(value)) => Some(two_decimals(value)),
        (None, None) => None,
    }
}

/// The label of a slice, given what the chart's formatter wrote for it
/// where the chart has one: that text, else the default label.
pub fn label_from(formatted: Option<String>, slice: &Slice) -> (label: Option<String>)
    ensures
        formatted is Some ==> label == formatted,
        formatted is None ==> match label {
            Some(text) => spec_default_label(*slice) == Some(text@),
            None => spec_default_label(*slice) is None,
        },
{
    match formatted {
        Some(text) => Some(text),
        None => default_label(slice),
    }
}

impl Piechart {
    /// The label to show at the pointer: none where no slice is hovered;
    /// else what the formatter writes for the hovered slice; else, without
    /// a formatter, the slice's default label.
    pub fn hover_label(&self, hovered: Option<usize>, formatter: Option<&dyn ElementFormatter>) -> (label: Option<
        String,
    >)
        requires
            hovered is Some ==> hovered.unwrap() < self.slices@.len(),
        ensures
            hovered is None ==> label is None,
            hovered is Some && formatter is Some ==> label is Some,
            hovered is Some && formatter is None ==> match label {
                Some(text) => spec_default_label(self.slices@[hovered.unwrap() as int]) == Some(text@),
                None => spec_default_label(self.slices@[hovered.unwrap() as int]) is None,
            },
    {
        match hovered {
            None => None,
            Some(i) => {
                let formatted = match formatter {
                    Some(f) => Some(f.format(&self.slices[i], self)),
                    None => None,
                };
                label_from(formatted, &self.slices[i])
            },
        }
    }
}

} // verus!
