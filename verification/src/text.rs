//! Verified text building: the decimal form of a byte and the ON/OFF words
//! the web devices expect. The device drivers assemble their argument
//! strings from these, so every string a flush emits is pinned down
//! character by character.

use vstd::prelude::*;
use vstd::string::StringExecFns;

verus! {

/// The character for one decimal digit.
pub open spec fn spec_digit(d: int) -> char {
    if d == 0 {
        '0'
    } else if d == 1 {
        '1'
    } else if d == 2 {
        '2'
    } else if d == 3 {
        '3'
    } else if d == 4 {
        '4'
    } else if d == 5 {
        '5'
    } else if d == 6 {
        '6'
    } else if d == 7 {
        '7'
    } else if d == 8 {
        '8'
    } else {
        '9'
    }
}

/// The decimal form of a byte, without leading zeros.
pub open spec fn spec_u8_dec(n: u8) -> Seq<char> {
    if n < 10 {
        seq![spec_digit(n as int)]
    } else if n < 100 {
        seq![spec_digit(n as int / 10), spec_digit(n as int % 10)]
    } else {
        seq![
            spec_digit(n as int / 100),
            spec_digit((n as int / 10) % 10),
            spec_digit(n as int % 10),
        ]
    }
}

/// The string for one decimal digit.
pub fn digit_str(d: u8) -> (s: &'static str)
    requires
        d < 10,
    ensures
        s@ == seq![spec_digit(d as int)],
{
    proof {
        reveal_strlit("0");
        reveal_strlit("1");
        reveal_strlit("2");
        reveal_strlit("3");
        reveal_strlit("4");
        reveal_strlit("5");
        reveal_strlit("6");
        reveal_strlit("7");
        reveal_strlit("8");
        reveal_strlit("9");
    }
    let s = match d {
        0 => "0",
        1 => "1",
        2 => "2",
        3 => "3",
        4 => "4",
        5 => "5",
        6 => "6",
        7 => "7",
        8 => "8",
        _ => "9",
    };
    proof {
        assert(s@ =~= seq![spec_digit(d as int)]);
    }
    s
}

/// Writes the decimal form of a byte onto the end of a string.
pub fn append_u8_dec(out: &mut String, n: u8)
    ensures
        final(out)@ == old(out)@ + spec_u8_dec(n),
{
    if n < 10 {
        out.append(digit_str(n));
        proof {
            assert(out@ =~= old(out)@ + spec_u8_dec(n));
        }
    } else if n < 100 {
        out.append(digit_str(n / 10));
        out.append(digit_str(n % 10));
        proof {
            assert(out@ =~= old(out)@ + spec_u8_dec(n));
        }
    } else {
        out.append(digit_str(n / 100));
        out.append(digit_str((n / 10) % 10));
        out.append(digit_str(n % 10));
        proof {
            assert(out@ =~= old(out)@ + spec_u8_dec(n));
        }
    }
}

/// The decimal form of an unsigned number, without leading zeros.
pub open spec fn spec_dec(n: nat) -> Seq<char>
    decreases n,
{
    if n < 10 {
        seq![spec_digit(n as int)]
    } else {
        spec_dec(n / 10) + seq![spec_digit((n % 10) as int)]
    }
}

/// Writes the decimal form of a number onto the end of a string.
pub fn append_dec(out: &mut String, n: u64)
    ensures
        final(out)@ == old(out)@ + spec_dec(n as nat),
    decreases n,
{
    if n < 10 {
        out.append(digit_str(n as u8));
        proof {
            assert(out@ =~= old(out)@ + spec_dec(n as nat));
        }
    } else {
        append_dec(out, n / 10);
        out.append(digit_str((n % 10) as u8));
        proof {
            assert(n as nat / 10 == (n / 10) as nat);
            assert(out@ =~= old(out)@ + spec_dec(n as nat));
        }
    }
}

/// The word a web device expects for a switch state.
pub open spec fn switch_word(is_on: bool) -> Seq<char> {
    if is_on {
        "ON"@
    } else {
        "OFF"@
    }
}

/// Writes "ON" or "OFF" onto the end of a string.
pub fn append_switch_word(out: &mut String, is_on: bool)
    ensures
        final(out)@ == old(out)@ + switch_word(is_on),
{
    if is_on {
        out.append("ON");
    } else {
        out.append("OFF");
    }
}

} // verus!
