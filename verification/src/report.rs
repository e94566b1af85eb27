use vstd::prelude::*;
use vstd::string::StringExecFns;

verus! {

/// The character of a decimal digit.
pub open spec fn digit_char(d: int) -> char
    recommends
        0 <= d < 10,
{
    if d == 0 {
        '0'
    } else if d == 1 {
        '1'
    } else if d == 2 {
        '2'
    } else if d == 3 {
        '3'
    } else if d == 4 {
        '4'
    } else if d == 5 {
        '5'
    } else if d == 6 {
        '6'
    } else if d == 7 {
        '7'
    } else if d == 8 {
        '8'
    } else {
        '9'
    }
}

/// The decimal numeral of a number: its digits from the most significant
/// down, with no leading zero but for zero itself.
pub open spec fn decimal(n: nat) -> Seq<char>
    decreases n,
{
    if n < 10 {
        seq![digit_char(n as int)]
    } else {
        decimal(n / 10).push(digit_char((n % 10) as int))
    }
}

/// The line that reports a read of `samples` samples.
pub open spec fn report_text(samples: nat) -> Seq<char> {
    "Read "@ + decimal(samples) + " samples..."@
}

/// The notice that an interrupt has been taken.
pub open spec fn interrupt_text() -> Seq<char> {
    "Ctrl-C received, stopping capture..."@
}

fn digit_str(d: usize) -> (s: &'static str)
    requires
        d < 10,
    ensures
        s@ == seq![digit_char(d as int)],
{
    proof {
        reveal_strlit("0");
        reveal_strlit("1");
        reveal_strlit("2");
        reveal_strlit("3");
        reveal_strlit("4");
        reveal_strlit("5");
        reveal_strlit("6");
        reveal_strlit("7");
        reveal_strlit("8");
        reveal_strlit("9");
    }
    if d == 0 {
        "0"
    } else if d == 1 {
        "1"
    } else if d == 2 {
        "2"
    } else if d == 3 {
        "3"
    } else if d == 4 {
        "4"
    } else if d == 5 {
        "5"
    } else if d == 6 {
        "6"
    } else if d == 7 {
        "7"
    } else if d == 8 {
        "8"
    } else {
        "9"
    }
}

fn push_decimal(text: &mut String, n: usize)
    ensures
        final(text)@ == old(text)@ + decimal(n as nat),
    decreases n,
{
    if n >= 10 {
        push_decimal(text, n / 10);
    }
    text.append(digit_str(n % 10));
}

/// The line that reports one read, without a line end: `Read`, the number of
/// samples in decimal, and `samples...`.
pub fn report_line(samples: usize) -> (line: String)
    ensures
        line@ == report_text(samples as nat),
{
    let mut line = String::from_str("Read ");
    push_decimal(&mut line, samples);
    line.append(" samples...");
    line
}

/// The notice for the error stream when an interrupt is taken.
pub fn interrupt_notice() -> (notice: &'static str)
    ensures
        notice@ == interrupt_text(),
{
    "Ctrl-C received, stopping capture..."
}

} // verus!
