//! Decimal and hexadecimal text for addresses and ports.
//!
//! SOCKS5 destinations are handed to the dialer as text: IPv4 addresses in
//! dotted decimal, IPv6 addresses as lowercase hex groups, and the port in
//! decimal. The spec functions here define those digit sequences; the
//! executable functions build the matching strings.

use vstd::prelude::*;

verus! {

/// The decimal digit character for `d`, which must be below ten.
pub open spec fn digit_char(d: u8) -> char
    recommends
        d < 10,
{
    if d == 0 {
        '0'
    } else if d == 1 {
        '1'
    } else if d == 2 {
        '2'
    } else if d == 3 {
        '3'
    } else if d == 4 {
        '4'
    } else if d == 5 {
        '5'
    } else if d == 6 {
        '6'
    } else if d == 7 {
        '7'
    } else if d == 8 {
        '8'
    } else {
        '9'
    }
}

/// The lowercase hexadecimal digit character for `d`, which must be below
/// sixteen.
pub open spec fn hex_char(d: u8) -> char
    recommends
        d < 16,
{
    if d < 10 {
        digit_char(d)
    } else if d == 10 {
        'a'
    } else if d == 11 {
        'b'
    } else if d == 12 {
        'c'
    } else if d == 13 {
        'd'
    } else if d == 14 {
        'e'
    } else {
        'f'
    }
}

/// The decimal digits of `n`, most significant first, with no leading zeros
/// (a single `'0'` for zero).
pub open spec fn dec_chars(n: nat) -> Seq<char>
    decreases n,
{
    if n < 10 {
        seq![digit_char(n as u8)]
    } else {
        dec_chars(n / 10) + seq![digit_char((n % 10) as u8)]
    }
}

/// The two lowercase hex digits of one byte, high nibble first.
pub open spec fn hex_pair(b: u8) -> Seq<char> {
    seq![hex_char(b / 16), hex_char(b % 16)]
}

/// The one-character string for a decimal digit.
pub fn decimal_digit_str(d: u8) -> (s: &'static str)
    requires
        d < 10,
    ensures
        s@ =~= seq![digit_char(d)],
{
    if d == 0 {
        let s = "0";
        proof {
            reveal_strlit("0");
        }
        s
    } else if d == 1 {
        let s = "1";
        proof {
            reveal_strlit("1");
        }
        s
    } else if d == 2 {
        let s = "2";
        proof {
            reveal_strlit("2");
        }
        s
    } else if d == 3 {
        let s = "3";
        proof {
            reveal_strlit("3");
        }
        s
    } else if d == 4 {
        let s = "4";
        proof {
            reveal_strlit("4");
        }
        s
    } else if d == 5 {
        let s = "5";
        proof {
            reveal_strlit("5");
        }
        s
    } else if d == 6 {
        let s = "6";
        proof {
            reveal_strlit("6");
        }
        s
    } else if d == 7 {
        let s = "7";
        proof {
            reveal_strlit("7");
        }
        s
    } else if d == 8 {
        let s = "8";
        proof {
            reveal_strlit("8");
        }
        s
    } else {
        let s = "9";
        proof {
            reveal_strlit("9");
        }
        s
    }
}

/// The one-character string for a lowercase hex digit.
pub fn hex_digit_str(d: u8) -> (s: &'static str)
    requires
        d < 16,
    ensures
        s@ =~= seq![hex_char(d)],
{
    if d < 10 {
        decimal_digit_str(d)
    } else if d == 10 {
        let s = "a";
        proof {
            reveal_strlit("a");
        }
        s
    } else if d == 11 {
        let s = "b";
        proof {
            reveal_strlit("b");
        }
        s
    } else if d == 12 {
        let s = "c";
        proof {
            reveal_strlit("c");
        }
        s
    } else if d == 13 {
        let s = "d";
        proof {
            reveal_strlit("d");
        }
        s
    } else if d == 14 {
        let s = "e";
        proof {
            reveal_strlit("e");
        }
        s
    } else {
        let s = "f";
        proof {
            reveal_strlit("f");
        }
        s
    }
}

/// Formats `n` in decimal, without leading zeros.
pub fn decimal_string(n: u16) -> (s: String)
    ensures
        s@ =~= dec_chars(n as nat),
    decreases n,
{
    if n < 10 {
        String::from_str(decimal_digit_str(n as u8))
    } else {
        let mut s = decimal_string(n / 10);
        s.append(decimal_digit_str((n % 10) as u8));
        proof {
            assert(n as nat / 10 == (n / 10) as nat);
            assert(n as nat % 10 == (n % 10) as nat);
        }
        s
    }
}

/// Appends the two lowercase hex digits of `b` to `s`.
pub fn append_hex_pair(s: &mut String, b: u8)
    ensures
        final(s)@ =~= old(s)@ + hex_pair(b),
{
    s.append(hex_digit_str(b / 16));
    s.append(hex_digit_str(b % 16));
}

} // verus!
