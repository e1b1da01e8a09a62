use vstd::prelude::*;
use vstd::string::StringExecFns;

verus! {

/// The character of a digit below sixteen, in lower case.
pub open spec fn digit_char(d: int) -> char {
    if d == 0 {
        '0'
    } else if d == 1 {
        '1'
    } else if d == 2 {
        '2'
    } else if d == 3 {
        '3'
    } else if d == 4 {
        '4'
    } else if d == 5 {
        '5'
    } else if d == 6 {
        '6'
    } else if d == 7 {
        '7'
    } else if d == 8 {
        '8'
    } else if d == 9 {
        '9'
    } else if d == 10 {
        'a'
    } else if d == 11 {
        'b'
    } else if d == 12 {
        'c'
    } else if d == 13 {
        'd'
    } else if d == 14 {
        'e'
    } else {
        'f'
    }
}

/// A number in decimal, without leading zeros.
pub open spec fn decimal_text(n: nat) -> Seq<char>
    decreases n,
{
    if n < 10 {
        seq![digit_char(n as int)]
    } else {
        decimal_text(n / 10) + seq![digit_char((n % 10) as int)]
    }
}

/// A 32-bit number as eight hexadecimal digits in lower case, the most
/// significant first.
pub open spec fn hex8_text(n: u32) -> Seq<char> {
    seq![
        digit_char((n as int / 0x10000000) % 16),
        digit_char((n as int / 0x1000000) % 16),
        digit_char((n as int / 0x100000) % 16),
        digit_char((n as int / 0x10000) % 16),
        digit_char((n as int / 0x1000) % 16),
        digit_char((n as int / 0x100) % 16),
        digit_char((n as int / 0x10) % 16),
        digit_char(n as int % 16),
    ]
}

/// The text of one digit.
fn digit_str(d: u32) -> (text: &'static str)
    requires
        d < 16,
    ensures
        text@ == seq![digit_char(d as int)],
{
    proof {
        reveal_strlit("0");
        reveal_strlit("1");
        reveal_strlit("2");
        reveal_strlit("3");
        reveal_strlit("4");
        reveal_strlit("5");
        reveal_strlit("6");
        reveal_strlit("7");
        reveal_strlit("8");
        reveal_strlit("9");
        reveal_strlit("a");
        reveal_strlit("b");
        reveal_strlit("c");
        reveal_strlit("d");
        reveal_strlit("e");
        reveal_strlit("f");
    }
    let text = if d == 0 {
        "0"
    } else if d == 1 {
        "1"
    } else if d == 2 {
        "2"
    } else if d == 3 {
        "3"
    } else if d == 4 {
        "4"
    } else if d == 5 {
        "5"
    } else if d == 6 {
        "6"
    } else if d == 7 {
        "7"
    } else if d == 8 {
        "8"
    } else if d == 9 {
        "9"
    } else if d == 10 {
        "a"
    } else if d == 11 {
        "b"
    } else if d == 12 {
        "c"
    } else if d == 13 {
        "d"
    } else if d == 14 {
        "e"
    } else {
        "f"
    };
    assert(text@ =~= seq![digit_char(d as int)]);
    text
}

/// Appends a number in decimal.
pub fn push_decimal(out: &mut String, n: u32)
    ensures
        final(out)@ == old(out)@ + decimal_text(n as nat),
    decreases n,
{
    if n >= 10 {
        push_decimal(out, n / 10);
        out.append(digit_str(n % 10));
        assert(out@ =~= old(out)@ + decimal_text(n as nat));
    } else {
        out.append(digit_str(n));
    }
}

/// Appends a number as eight hexadecimal digits.
pub fn push_hex8(out: &mut String, n: u32)
    ensures
        final(out)@ == old(out)@ + hex8_text(n),
{
    out.append(digit_str((n / 0x10000000) % 16));
    out.append(digit_str((n / 0x1000000) % 16));
    out.append(digit_str((n / 0x100000) % 16));
    out.append(digit_str((n / 0x10000) % 16));
    out.append(digit_str((n / 0x1000) % 16));
    out.append(digit_str((n / 0x100) % 16));
    out.append(digit_str((n / 0x10) % 16));
    out.append(digit_str(n % 16));
    assert(out@ =~= old(out)@ + hex8_text(n));
}

/// A number in decimal.
pub fn decimal(n: u32) -> (text: String)
    ensures
        text@ == decimal_text(n as nat),
{
    let mut text = String::new();
    push_decimal(&mut text, n);
    assert(text@ =~= decimal_text(n as nat));
    text
}

/// A number as eight hexadecimal digits.
pub fn hex8(n: u32) -> (text: String)
    ensures
        text@ == hex8_text(n),
{
    let mut text = String::new();
    push_hex8(&mut text, n);
    assert(text@ =~= hex8_text(n));
    text
}

/// A line of a record's text: a label, a value and what ends the line,
/// after the text so far.
pub open spec fn with_line(
    text: Seq<char>,
    label: Seq<char>,
    value: Seq<char>,
    end: Seq<char>,
) -> Seq<char> {
    text + label + value + end
}

/// Appends a line to a record's text.
pub fn push_line(out: &mut String, label: &str, value: &str, end: &str)
    ensures
        final(out)@ == with_line(old(out)@, label@, value@, end@),
{
    out.append(label);
    out.append(value);
    out.append(end);
}

} // verus!
