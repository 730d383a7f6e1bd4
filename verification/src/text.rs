//! Rendering small numbers as text: decimal block numbers for error
//! labels, and the hexadecimal dump format used for keys and block data.

use vstd::prelude::*;
use vstd::string::StrSliceExecFns;
use vstd::string::StringExecFns;

verus! {

/// The character for one decimal digit.
pub open spec fn dec_digit_char(d: u8) -> char {
    if d == 0 { '0' }
    else if d == 1 { '1' }
    else if d == 2 { '2' }
    else if d == 3 { '3' }
    else if d == 4 { '4' }
    else if d == 5 { '5' }
    else if d == 6 { '6' }
    else if d == 7 { '7' }
    else if d == 8 { '8' }
    else { '9' }
}

/// The decimal rendering of a byte, without leading zeros.
pub open spec fn spec_dec(n: u8) -> Seq<char> {
    if n < 10 {
        seq![dec_digit_char(n)]
    } else if n < 100 {
        seq![dec_digit_char(n / 10), dec_digit_char(n % 10)]
    } else {
        seq![dec_digit_char(n / 10 / 10), dec_digit_char(n / 10 % 10), dec_digit_char(n % 10)]
    }
}

/// The character for one hexadecimal digit, upper case.
pub open spec fn hex_digit_char(d: u8) -> char {
    if d == 0 { '0' }
    else if d == 1 { '1' }
    else if d == 2 { '2' }
    else if d == 3 { '3' }
    else if d == 4 { '4' }
    else if d == 5 { '5' }
    else if d == 6 { '6' }
    else if d == 7 { '7' }
    else if d == 8 { '8' }
    else if d == 9 { '9' }
    else if d == 10 { 'A' }
    else if d == 11 { 'B' }
    else if d == 12 { 'C' }
    else if d == 13 { 'D' }
    else if d == 14 { 'E' }
    else { 'F' }
}

/// Two upper-case hex digits for every byte, in order, no separators.
pub open spec fn spec_hex(bs: Seq<u8>) -> Seq<char>
    decreases bs.len(),
{
    if bs.len() == 0 {
        Seq::empty()
    } else {
        spec_hex(bs.drop_last()) + seq![
            hex_digit_char(bs.last() / 16),
            hex_digit_char(bs.last() % 16),
        ]
    }
}

fn dec_digit_str(d: u8) -> (r: &'static str)
    requires
        d < 10,
    ensures
        r@ =~= seq![dec_digit_char(d)],
{
    proof {
        reveal_strlit("0");
        reveal_strlit("1");
        reveal_strlit("2");
        reveal_strlit("3");
        reveal_strlit("4");
        reveal_strlit("5");
        reveal_strlit("6");
        reveal_strlit("7");
        reveal_strlit("8");
        reveal_strlit("9");
    }
    match d {
        0 => "0",
        1 => "1",
        2 => "2",
        3 => "3",
        4 => "4",
        5 => "5",
        6 => "6",
        7 => "7",
        8 => "8",
        _ => "9",
    }
}

fn hex_digit_str(d: u8) -> (r: &'static str)
    requires
        d < 16,
    ensures
        r@ =~= seq![hex_digit_char(d)],
{
    proof {
        reveal_strlit("A");
        reveal_strlit("B");
        reveal_strlit("C");
        reveal_strlit("D");
        reveal_strlit("E");
        reveal_strlit("F");
    }
    if d < 10 {
        dec_digit_str(d)
    } else {
        match d {
            10 => "A",
            11 => "B",
            12 => "C",
            13 => "D",
            14 => "E",
            _ => "F",
        }
    }
}

/// Two upper-case hex digits of one byte.
pub fn byte_hex(b: u8) -> (r: String)
    ensures
        r@ == seq![hex_digit_char(b / 16), hex_digit_char(b % 16)],
{
    let mut s = String::new();
    s.append(hex_digit_str(b / 16));
    s.append(hex_digit_str(b % 16));
    proof {
        assert(s@ =~= seq![hex_digit_char(b / 16), hex_digit_char(b % 16)]);
    }
    s
}

/// The decimal text of a byte, as it appears in operation labels.
pub fn u8_to_dec(n: u8) -> (r: String)
    ensures
        r@ == spec_dec(n),
{
    let mut s = String::new();
    if n >= 100 {
        s.append(dec_digit_str(n / 10 / 10));
    }
    if n >= 10 {
        s.append(dec_digit_str(n / 10 % 10));
    }
    s.append(dec_digit_str(n % 10));
    proof {
        if n < 10 {
            assert(s@ =~= spec_dec(n));
        } else if n < 100 {
            assert(n / 10 % 10 == n / 10);
            assert(s@ =~= spec_dec(n));
        } else {
            assert(s@ =~= spec_dec(n));
        }
    }
    s
}

/// Format a byte sequence as an upper-case hex string, two digits per
/// byte and no separators, as used for keys, UIDs and block dumps.
pub fn format_hex(bytes: &[u8]) -> (r: String)
    ensures
        r@ == spec_hex(bytes@),
{
    let mut s = String::new();
    let mut i: usize = 0;
    while i < bytes.len()
        invariant
            i <= bytes@.len(),
            s@ == spec_hex(bytes@.take(i as int)),
        decreases bytes@.len() - i,
    {
        let b = bytes[i];
        s.append(hex_digit_str(b / 16));
        s.append(hex_digit_str(b % 16));
        proof {
            let pre = bytes@.take(i as int);
            let post = bytes@.take(i + 1int);
            assert(post.drop_last() =~= pre);
            assert(post.last() == b);
            assert(s@ =~= spec_hex(post));
        }
        i = i + 1;
    }
    proof {
        assert(bytes@.take(bytes@.len() as int) =~= bytes@);
    }
    s
}

} // verus!
