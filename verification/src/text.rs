use vstd::prelude::*;

verus! {

/// A short text about a thing, for display beside it.
pub trait HoverNote {
    fn hover_note(&self) -> String;
}

/// The lines that describe a thing in full.
pub trait InfoPanel {
    fn info_panel(&self) -> Vec<String>;
}

/// The character that writes a digit.
pub open spec fn digit_char(d: nat) -> char {
    if d == 0 {
        '0'
    } else if d == 1 {
        '1'
    } else if d == 2 {
        '2'
    } else if d == 3 {
        '3'
    } else if d == 4 {
        '4'
    } else if d == 5 {
        '5'
    } else if d == 6 {
        '6'
    } else if d == 7 {
        '7'
    } else if d == 8 {
        '8'
    } else {
        '9'
    }
}

/// A number written in decimal digits, without leading zeros.
pub open spec fn decimal(n: nat) -> Seq<char>
    decreases n,
{
    if n < 10 {
        seq![digit_char(n)]
    } else {
        decimal(n / 10).push(digit_char(n % 10))
    }
}

/// A count of hundredths written as a number with two decimals.
pub open spec fn two_decimals(hundredths: nat) -> Seq<char> {
    decimal(hundredths / 100) + seq![
        '.',
        digit_char((hundredths / 10) % 10),
        digit_char(hundredths % 10),
    ]
}

/// A percentage under a label: the label, a colon and a space, the number
/// with two decimals, and the percent sign.
pub open spec fn percent_line(label: Seq<char>, hundredths: nat) -> Seq<char> {
    label + seq![':', ' '] + two_decimals(hundredths) + seq!['%']
}

fn digit_text(d: u64) -> (text: &'static str)
    requires
        d < 10,
    ensures
        text@ == seq![digit_char(d as nat)],
{
    proof {
        reveal_strlit("0");
        reveal_strlit("1");
        reveal_strlit("2");
        reveal_strlit("3");
        reveal_strlit("4");
        reveal_strlit("5");
        reveal_strlit("6");
        reveal_strlit("7");
        reveal_strlit("8");
        reveal_strlit("9");
    }
    let text = if d == 0 {
        "0"
    } else if d == 1 {
        "1"
    } else if d == 2 {
        "2"
    } else if d == 3 {
        "3"
    } else if d == 4 {
        "4"
    } else if d == 5 {
        "5"
    } else if d == 6 {
        "6"
    } else if d == 7 {
        "7"
    } else if d == 8 {
        "8"
    } else {
        "9"
    };
    assert(text@ =~= seq![digit_char(d as nat)]);
    text
}

/// Writes `n` in decimal digits at the end of `text`.
pub fn push_decimal(text: &mut String, n: u64)
    ensures
        final(text)@ == old(text)@ + decimal(n as nat),
    decreases n,
{
    if n >= 10 {
        push_decimal(text, n / 10);
    }
    text.append(digit_text(n % 10));
    assert(text@ =~= old(text)@ + decimal(n as nat));
}

/// Writes a count of hundredths at the end of `text`, as a number with two
/// decimals.
pub fn push_two_decimals(text: &mut String, hundredths: u64)
    ensures
        final(text)@ == old(text)@ + two_decimals(hundredths as nat),
{
    proof {
        reveal_strlit(".");
    }
    push_decimal(text, hundredths / 100);
    text.append(".");
    text.append(digit_text((hundredths / 10) % 10));
    text.append(digit_text(hundredths % 10));
    assert(text@ =~= old(text)@ + two_decimals(hundredths as nat));
}

/// The text of a percentage under a label, such as `Food: 97.50%`.
pub fn percent_text(label: &str, hundredths: u64) -> (text: String)
    ensures
        text@ == percent_line(label@, hundredths as nat),
{
    proof {
        reveal_strlit(": ");
        reveal_strlit("%");
    }
    let mut text = String::from_str(label);
    text.append(": ");
    push_two_decimals(&mut text, hundredths);
    text.append("%");
    assert(text@ =~= percent_line(label@, hundredths as nat));
    text
}

} // verus!
