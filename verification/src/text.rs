//! Decimal text for integers and sizes.

use vstd::prelude::*;

verus! {

/// Bytes in one kibibyte.
pub const KIBIBYTE: i64 = 1024;

/// The character that stands for the digit `d`.
pub open spec fn digit_char(d: nat) -> char {
    if d == 0 {
        '0'
    } else if d == 1 {
        '1'
    } else if d == 2 {
        '2'
    } else if d == 3 {
        '3'
    } else if d == 4 {
        '4'
    } else if d == 5 {
        '5'
    } else if d == 6 {
        '6'
    } else if d == 7 {
        '7'
    } else if d == 8 {
        '8'
    } else {
        '9'
    }
}

/// The decimal digits of `n`, most significant first, without leading zeros.
pub open spec fn decimal_digits(n: nat) -> Seq<char>
    decreases n,
{
    if n < 10 {
        seq![digit_char(n)]
    } else {
        decimal_digits(n / 10).push(digit_char(n % 10))
    }
}

/// The decimal text of `n`: its digits, after a minus sign when `n` is negative.
pub open spec fn decimal_text(n: int) -> Seq<char> {
    if n < 0 {
        seq!['-'] + decimal_digits((-n) as nat)
    } else {
        decimal_digits(n as nat)
    }
}

/// Whole kibibytes in `bytes`, rounded toward zero.
pub open spec fn kibibytes_of(bytes: int) -> int {
    if bytes >= 0 {
        bytes / 1024
    } else {
        -((-bytes) / 1024)
    }
}

/// The text of a size tile: whole kibibytes, a space and the unit.
pub open spec fn kibibyte_text(bytes: int) -> Seq<char> {
    decimal_text(kibibytes_of(bytes)) + " KB"@
}

/// The one-character string of a digit.
fn digit_str(d: u64) -> (text: &'static str)
    requires
        d < 10,
    ensures
        text@ == seq![digit_char(d as nat)],
{
    proof {
        reveal_strlit("0");
        reveal_strlit("1");
        reveal_strlit("2");
        reveal_strlit("3");
        reveal_strlit("4");
        reveal_strlit("5");
        reveal_strlit("6");
        reveal_strlit("7");
        reveal_strlit("8");
        reveal_strlit("9");
    }
    let text = if d == 0 {
        "0"
    } else if d == 1 {
        "1"
    } else if d == 2 {
        "2"
    } else if d == 3 {
        "3"
    } else if d == 4 {
        "4"
    } else if d == 5 {
        "5"
    } else if d == 6 {
        "6"
    } else if d == 7 {
        "7"
    } else if d == 8 {
        "8"
    } else {
        "9"
    };
    assert(text@ =~= seq![digit_char(d as nat)]);
    text
}

/// Appends the decimal digits of `n` to `text`.
pub fn push_decimal(text: &mut String, n: u64)
    ensures
        final(text)@ == old(text)@ + decimal_digits(n as nat),
    decreases n,
{
    if n >= 10 {
        push_decimal(text, n / 10);
    }
    text.append(digit_str(n % 10));
    assert(final(text)@ =~= old(text)@ + decimal_digits(n as nat));
}

/// The decimal text of a row index.
pub fn index_string(index: usize) -> (text: String)
    ensures
        text@ == decimal_digits(index as nat),
{
    let mut text = String::new();
    push_decimal(&mut text, index as u64);
    assert(text@ =~= decimal_digits(index as nat));
    text
}

/// The decimal text of a signed integer.
pub fn decimal_string(n: i64) -> (text: String)
    ensures
        text@ == decimal_text(n as int),
{
    let mut text = String::new();
    if n < 0 {
        text.append("-");
        proof {
            reveal_strlit("-");
        }
        // -(n + 1) cannot overflow, and adding one back fits in u64.
        let magnitude: u64 = (-(n + 1)) as u64 + 1;
        push_decimal(&mut text, magnitude);
        assert(text@ =~= decimal_text(n as int));
    } else {
        push_decimal(&mut text, n as u64);
        assert(text@ =~= decimal_text(n as int));
    }
    text
}

/// Converts a byte count to whole kibibytes, discarding the remainder.
pub fn kibibytes(bytes: i64) -> (kib: i64)
    ensures
        kib as int == kibibytes_of(bytes as int),
{
    bytes / KIBIBYTE
}

/// The text of a size tile for `bytes`, such as `2 KB` for 2048.
pub fn kibibyte_string(bytes: i64) -> (text: String)
    ensures
        text@ == kibibyte_text(bytes as int),
{
    let mut text = decimal_string(kibibytes(bytes));
    text.append(" KB");
    text
}

} // verus!
