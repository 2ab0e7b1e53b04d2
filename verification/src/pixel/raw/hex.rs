use vstd::prelude::*;
use vstd::string::StringExecFns;

verus! {

/// The hexadecimal digit for a value below 16, in upper or lower case.
pub open spec fn hex_digit(nibble: int, upper: bool) -> char {
    if nibble == 0 {
        '0'
    } else if nibble == 1 {
        '1'
    } else if nibble == 2 {
        '2'
    } else if nibble == 3 {
        '3'
    } else if nibble == 4 {
        '4'
    } else if nibble == 5 {
        '5'
    } else if nibble == 6 {
        '6'
    } else if nibble == 7 {
        '7'
    } else if nibble == 8 {
        '8'
    } else if nibble == 9 {
        '9'
    } else if nibble == 10 {
        if upper { 'A' } else { 'a' }
    } else if nibble == 11 {
        if upper { 'B' } else { 'b' }
    } else if nibble == 12 {
        if upper { 'C' } else { 'c' }
    } else if nibble == 13 {
        if upper { 'D' } else { 'd' }
    } else if nibble == 14 {
        if upper { 'E' } else { 'e' }
    } else {
        if upper { 'F' } else { 'f' }
    }
}

/// The hexadecimal rendering of a number: its digits to the base 16, the
/// most significant first, without a prefix and without leading zeros (zero
/// itself is the one digit `0`).
pub open spec fn hex_digits(value: nat, upper: bool) -> Seq<char>
    decreases value,
{
    if value < 16 {
        seq![hex_digit(value as int, upper)]
    } else {
        hex_digits(value / 16, upper).push(hex_digit((value % 16) as int, upper))
    }
}

/// The text of one hexadecimal digit.
fn digit_text(nibble: u32, upper: bool) -> (text: &'static str)
    requires
        nibble < 16,
    ensures
        text@ == seq![hex_digit(nibble as int, upper)],
{
    proof {
        reveal_strlit("0");
        reveal_strlit("1");
        reveal_strlit("2");
        reveal_strlit("3");
        reveal_strlit("4");
        reveal_strlit("5");
        reveal_strlit("6");
        reveal_strlit("7");
        reveal_strlit("8");
        reveal_strlit("9");
        reveal_strlit("A");
        reveal_strlit("B");
        reveal_strlit("C");
        reveal_strlit("D");
        reveal_strlit("E");
        reveal_strlit("F");
        reveal_strlit("a");
        reveal_strlit("b");
        reveal_strlit("c");
        reveal_strlit("d");
        reveal_strlit("e");
        reveal_strlit("f");
    }
    let text = match nibble {
        0 => "0",
        1 => "1",
        2 => "2",
        3 => "3",
        4 => "4",
        5 => "5",
        6 => "6",
        7 => "7",
        8 => "8",
        9 => "9",
        10 => if upper { "A" } else { "a" },
        11 => if upper { "B" } else { "b" },
        12 => if upper { "C" } else { "c" },
        13 => if upper { "D" } else { "d" },
        14 => if upper { "E" } else { "e" },
        _ => if upper { "F" } else { "f" },
    };
    assert(text@ =~= seq![hex_digit(nibble as int, upper)]);
    text
}

/// Renders a packed value in hexadecimal.
pub(crate) fn render_hex(value: u32, upper: bool) -> (text: String)
    ensures
        text@ == hex_digits(value as nat, upper),
    decreases value,
{
    if value < 16 {
        String::from_str(digit_text(value, upper))
    } else {
        let mut text = render_hex(value / 16, upper);
        text.append(digit_text(value % 16, upper));
        assert(text@ =~= hex_digits(value as nat, upper));
        text
    }
}

} // verus!
