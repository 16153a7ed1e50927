//! Decimal text of integers, as a specification and as verified code.

use vstd::prelude::*;
use vstd::string::{StrSliceExecFns, StringExecFns};
use vstd::utf8::{is_ascii_chars, is_ascii_chars_encode_utf8};

verus! {

/// The character that stands for the decimal digit `d`.
pub open spec fn digit(d: int) -> char {
    if d == 0 {
        '0'
    } else if d == 1 {
        '1'
    } else if d == 2 {
        '2'
    } else if d == 3 {
        '3'
    } else if d == 4 {
        '4'
    } else if d == 5 {
        '5'
    } else if d == 6 {
        '6'
    } else if d == 7 {
        '7'
    } else if d == 8 {
        '8'
    } else {
        '9'
    }
}

/// The decimal digits of a natural number, most significant first, without
/// leading zeros.
pub open spec fn decimal_nat(n: nat) -> Seq<char>
    decreases n,
{
    if n < 10 {
        seq![digit(n as int)]
    } else {
        decimal_nat(n / 10).push(digit((n % 10) as int))
    }
}

/// The decimal text of an integer: a minus sign where it is negative, then
/// the digits of its magnitude.
pub open spec fn decimal(v: int) -> Seq<char> {
    if v < 0 {
        seq!['-'] + decimal_nat((-v) as nat)
    } else {
        decimal_nat(v as nat)
    }
}

fn digit_str(d: u32) -> (r: &'static str)
    requires
        d < 10,
    ensures
        r@ == seq![digit(d as int)],
{
    proof {
        reveal_strlit("0");
        reveal_strlit("1");
        reveal_strlit("2");
        reveal_strlit("3");
        reveal_strlit("4");
        reveal_strlit("5");
        reveal_strlit("6");
        reveal_strlit("7");
        reveal_strlit("8");
        reveal_strlit("9");
    }
    let r = match d {
        0 => "0",
        1 => "1",
        2 => "2",
        3 => "3",
        4 => "4",
        5 => "5",
        6 => "6",
        7 => "7",
        8 => "8",
        _ => "9",
    };
    assert(r@ =~= seq![digit(d as int)]);
    r
}

fn decimal_nat_string(n: u32) -> (r: String)
    ensures
        r@ == decimal_nat(n as nat),
    decreases n,
{
    if n < 10 {
        String::from_str(digit_str(n))
    } else {
        let mut s = decimal_nat_string(n / 10);
        s.append(digit_str(n % 10));
        s
    }
}

/// Writes an integer in decimal.
pub fn decimal_string(v: i32) -> (r: String)
    ensures
        r@ == decimal(v as int),
{
    if v < 0 {
        let magnitude: u32 = if v == i32::MIN {
            2147483648
        } else {
            (-v) as u32
        };
        let mut s = String::from_str("-");
        proof {
            reveal_strlit("-");
            assert("-"@ =~= seq!['-']);
        }
        let digits = decimal_nat_string(magnitude);
        s.append(digits.as_str());
        s
    } else {
        decimal_nat_string(v as u32)
    }
}

/// A text of ASCII characters as bytes, one byte for each character.
pub open spec fn ascii_bytes(text: Seq<char>) -> Seq<u8> {
    Seq::new(text.len(), |i: int| text[i] as u8)
}

proof fn lemma_decimal_nat_is_ascii(n: nat)
    ensures
        is_ascii_chars(decimal_nat(n)),
    decreases n,
{
    if n >= 10 {
        lemma_decimal_nat_is_ascii(n / 10);
    }
}

/// A number's decimal text holds ASCII characters only.
pub proof fn lemma_decimal_is_ascii(v: int)
    ensures
        is_ascii_chars(decimal(v)),
{
    if v < 0 {
        lemma_decimal_nat_is_ascii((-v) as nat);
    } else {
        lemma_decimal_nat_is_ascii(v as nat);
    }
}

/// Writes an integer in decimal, as ASCII bytes.
pub fn decimal_bytes(v: i32) -> (r: Vec<u8>)
    ensures
        r@ == ascii_bytes(decimal(v as int)),
{
    let text = decimal_string(v);
    proof {
        lemma_decimal_is_ascii(v as int);
        is_ascii_chars_encode_utf8(text@);
    }
    let bytes = text.as_str().as_bytes_vec();
    assert(bytes@ =~= ascii_bytes(decimal(v as int)));
    bytes
}

} // verus!
