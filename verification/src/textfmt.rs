//! Verified rendering of numbers and booleans as text, used by the
//! configuration-string builders.

use vstd::prelude::*;

verus! {

/// The decimal digit character for `d` (`d < 10`), also the low ten
/// hexadecimal digits.
pub open spec fn dec_digit_char(d: nat) -> char {
    if d == 0 {
        '0'
    } else if d == 1 {
        '1'
    } else if d == 2 {
        '2'
    } else if d == 3 {
        '3'
    } else if d == 4 {
        '4'
    } else if d == 5 {
        '5'
    } else if d == 6 {
        '6'
    } else if d == 7 {
        '7'
    } else if d == 8 {
        '8'
    } else {
        '9'
    }
}

/// The lower-case hexadecimal digit character for `d` (`d < 16`).
pub open spec fn hex_digit_char_lower(d: nat) -> char {
    if d < 10 {
        dec_digit_char(d)
    } else if d == 10 {
        'a'
    } else if d == 11 {
        'b'
    } else if d == 12 {
        'c'
    } else if d == 13 {
        'd'
    } else if d == 14 {
        'e'
    } else {
        'f'
    }
}

/// The upper-case hexadecimal digit character for `d` (`d < 16`).
pub open spec fn hex_digit_char_upper(d: nat) -> char {
    if d < 10 {
        dec_digit_char(d)
    } else if d == 10 {
        'A'
    } else if d == 11 {
        'B'
    } else if d == 12 {
        'C'
    } else if d == 13 {
        'D'
    } else if d == 14 {
        'E'
    } else {
        'F'
    }
}

/// The decimal rendering of `n`, most significant digit first, no leading
/// zeroes (`0` renders as `"0"`).
pub open spec fn spec_udec(n: nat) -> Seq<char>
    decreases n,
{
    if n < 10 {
        seq![dec_digit_char(n)]
    } else {
        spec_udec(n / 10).push(dec_digit_char(n % 10))
    }
}

/// The decimal rendering of a signed number: a leading `-` for negatives.
pub open spec fn spec_idec(n: int) -> Seq<char> {
    if n < 0 {
        "-"@ + spec_udec((-n) as nat)
    } else {
        spec_udec(n as nat)
    }
}

/// The lower-case hexadecimal rendering of `n`, no prefix, no leading zeroes.
pub open spec fn spec_uhex_lower(n: nat) -> Seq<char>
    decreases n,
{
    if n < 16 {
        seq![hex_digit_char_lower(n)]
    } else {
        spec_uhex_lower(n / 16).push(hex_digit_char_lower(n % 16))
    }
}

/// The upper-case hexadecimal rendering of `n`, no prefix, no leading zeroes.
pub open spec fn spec_uhex_upper(n: nat) -> Seq<char>
    decreases n,
{
    if n < 16 {
        seq![hex_digit_char_upper(n)]
    } else {
        spec_uhex_upper(n / 16).push(hex_digit_char_upper(n % 16))
    }
}

/// `"true"` or `"false"`.
pub open spec fn spec_bool_str(b: bool) -> Seq<char> {
    if b {
        "true"@
    } else {
        "false"@
    }
}

/// Relies on `String::push`: appends exactly the given character to the end
/// of the string.
#[verifier::external_body]
pub fn push_char(s: &mut String, c: char)
    ensures
        final(s)@ == old(s)@.push(c),
{
    s.push(c);
}

fn dec_digit_str(d: u32) -> (r: &'static str)
    requires
        d < 10,
    ensures
        r@ == seq![dec_digit_char(d as nat)],
{
    proof {
        reveal_strlit("0");
        reveal_strlit("1");
        reveal_strlit("2");
        reveal_strlit("3");
        reveal_strlit("4");
        reveal_strlit("5");
        reveal_strlit("6");
        reveal_strlit("7");
        reveal_strlit("8");
        reveal_strlit("9");
    }
    let r = if d == 0 {
        "0"
    } else if d == 1 {
        "1"
    } else if d == 2 {
        "2"
    } else if d == 3 {
        "3"
    } else if d == 4 {
        "4"
    } else if d == 5 {
        "5"
    } else if d == 6 {
        "6"
    } else if d == 7 {
        "7"
    } else if d == 8 {
        "8"
    } else {
        "9"
    };
    proof {
        assert(r@ =~= seq![dec_digit_char(d as nat)]);
    }
    r
}

fn hex_digit_str_lower(d: u32) -> (r: &'static str)
    requires
        d < 16,
    ensures
        r@ == seq![hex_digit_char_lower(d as nat)],
{
    if d < 10 {
        let r = dec_digit_str(d);
        proof {
            assert(r@ =~= seq![hex_digit_char_lower(d as nat)]);
        }
        r
    } else {
        proof {
            reveal_strlit("a");
            reveal_strlit("b");
            reveal_strlit("c");
            reveal_strlit("d");
            reveal_strlit("e");
            reveal_strlit("f");
        }
        let r = if d == 10 {
            "a"
        } else if d == 11 {
            "b"
        } else if d == 12 {
            "c"
        } else if d == 13 {
            "d"
        } else if d == 14 {
            "e"
        } else {
            "f"
        };
        proof {
            assert(r@ =~= seq![hex_digit_char_lower(d as nat)]);
        }
        r
    }
}

fn hex_digit_str_upper(d: u32) -> (r: &'static str)
    requires
        d < 16,
    ensures
        r@ == seq![hex_digit_char_upper(d as nat)],
{
    if d < 10 {
        let r = dec_digit_str(d);
        proof {
            assert(r@ =~= seq![hex_digit_char_upper(d as nat)]);
        }
        r
    } else {
        proof {
            reveal_strlit("A");
            reveal_strlit("B");
            reveal_strlit("C");
            reveal_strlit("D");
            reveal_strlit("E");
            reveal_strlit("F");
        }
        let r = if d == 10 {
            "A"
        } else if d == 11 {
            "B"
        } else if d == 12 {
            "C"
        } else if d == 13 {
            "D"
        } else if d == 14 {
            "E"
        } else {
            "F"
        };
        proof {
            assert(r@ =~= seq![hex_digit_char_upper(d as nat)]);
        }
        r
    }
}

/// Render `n` in decimal.
pub fn u32_dec_str(n: u32) -> (s: String)
    ensures
        s@ == spec_udec(n as nat),
    decreases n,
{
    if n < 10 {
        String::from_str(dec_digit_str(n))
    } else {
        let mut s = u32_dec_str(n / 10);
        s.append(dec_digit_str(n % 10));
        proof {
            assert(s@ =~= spec_udec(n as nat));
        }
        s
    }
}

/// Render `n` in decimal, with a leading `-` when negative.
pub fn i32_dec_str(n: i32) -> (s: String)
    ensures
        s@ == spec_idec(n as int),
{
    if n >= 0 {
        u32_dec_str(n as u32)
    } else {
        let mag = (-(n as i64)) as u32;
        let mut s = String::from_str("-");
        let digits = u32_dec_str(mag);
        s.append(digits.as_str());
        proof {
            assert(s@ =~= spec_idec(n as int));
        }
        s
    }
}

/// Render `n` in lower-case hexadecimal, without a `0x` prefix.
pub fn u32_hex_lower_str(n: u32) -> (s: String)
    ensures
        s@ == spec_uhex_lower(n as nat),
    decreases n,
{
    if n < 16 {
        String::from_str(hex_digit_str_lower(n))
    } else {
        let mut s = u32_hex_lower_str(n / 16);
        s.append(hex_digit_str_lower(n % 16));
        proof {
            assert(s@ =~= spec_uhex_lower(n as nat));
        }
        s
    }
}

/// Render `n` in upper-case hexadecimal, without a `0x` prefix.
pub fn u32_hex_upper_str(n: u32) -> (s: String)
    ensures
        s@ == spec_uhex_upper(n as nat),
    decreases n,
{
    if n < 16 {
        String::from_str(hex_digit_str_upper(n))
    } else {
        let mut s = u32_hex_upper_str(n / 16);
        s.append(hex_digit_str_upper(n % 16));
        proof {
            assert(s@ =~= spec_uhex_upper(n as nat));
        }
        s
    }
}

/// Render a boolean as the native library's configuration parser reads it.
pub fn bool_str(b: bool) -> (r: &'static str)
    ensures
        r@ == spec_bool_str(b),
{
    if b {
        "true"
    } else {
        "false"
    }
}

} // verus!
