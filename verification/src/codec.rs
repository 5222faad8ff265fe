//! Byte-level helpers for framing JSON request bodies and formatting values:
//! verified JSON string escaping and decimal rendering.

use vstd::prelude::*;
use vstd::string::StrSliceExecFns;
use vstd::string::StringSliceAdditionalSpecFns;
use vstd::string::StringExecFns;
use vstd::utf8::encode_utf8;

verus! {

/// Hexadecimal digit (lower case) for a nibble.
pub open spec fn hex_digit_spec(n: u8) -> u8 {
    if n < 10 {
        (0x30 + n) as u8
    } else {
        (0x57 + n) as u8
    }
}

fn hex_digit(n: u8) -> (r: u8)
    requires
        n < 16,
    ensures
        r == hex_digit_spec(n),
{
    if n < 10 {
        0x30 + n
    } else {
        0x57 + n
    }
}

/// JSON escape of one byte of a UTF-8 string: quote and backslash get a
/// backslash escape, the named control characters their short forms, other
/// control bytes a `\u00XX` escape, and everything else passes through.
pub open spec fn esc_byte(b: u8) -> Seq<u8> {
    if b == 0x22 {
        seq![0x5cu8, 0x22u8]
    } else if b == 0x5c {
        seq![0x5cu8, 0x5cu8]
    } else if b == 0x08 {
        seq![0x5cu8, 0x62u8]
    } else if b == 0x0c {
        seq![0x5cu8, 0x66u8]
    } else if b == 0x0a {
        seq![0x5cu8, 0x6eu8]
    } else if b == 0x0d {
        seq![0x5cu8, 0x72u8]
    } else if b == 0x09 {
        seq![0x5cu8, 0x74u8]
    } else if b < 0x20 {
        seq![0x5cu8, 0x75u8, 0x30u8, 0x30u8, hex_digit_spec(b / 16), hex_digit_spec(b % 16)]
    } else {
        seq![b]
    }
}

/// JSON escape of a whole UTF-8 byte string.
pub open spec fn json_escaped_bytes(s: Seq<u8>) -> Seq<u8>
    decreases s.len(),
{
    if s.len() == 0 {
        Seq::empty()
    } else {
        json_escaped_bytes(s.drop_last()) + esc_byte(s.last())
    }
}

/// A quoted JSON string literal holding `s`, as UTF-8 bytes.
pub open spec fn json_quoted(s: Seq<char>) -> Seq<u8> {
    seq![0x22u8] + json_escaped_bytes(encode_utf8(s)) + seq![0x22u8]
}

/// Appends the UTF-8 bytes of `s` to `out`.
pub fn push_str_bytes(out: &mut Vec<u8>, s: &str)
    ensures
        final(out)@ == old(out)@ + encode_utf8(s@),
{
    let mut b = s.as_bytes_vec();
    out.append(&mut b);
}

/// Appends the JSON escape of `s` to `out`.
pub fn push_json_escaped(out: &mut Vec<u8>, s: &str)
    ensures
        final(out)@ == old(out)@ + json_escaped_bytes(encode_utf8(s@)),
{
    let bytes = s.as_bytes_vec();
    let ghost base = out@;
    let n = bytes.len();
    let mut i: usize = 0;
    while i < n
        invariant
            n == bytes.len(),
            bytes@ == encode_utf8(s@),
            i <= n,
            out@ == base + json_escaped_bytes(bytes@.take(i as int)),
        decreases n - i,
    {
        let b = bytes[i];
        if b == 0x22 {
            out.push(0x5c);
            out.push(0x22);
        } else if b == 0x5c {
            out.push(0x5c);
            out.push(0x5c);
        } else if b == 0x08 {
            out.push(0x5c);
            out.push(0x62);
        } else if b == 0x0c {
            out.push(0x5c);
            out.push(0x66);
        } else if b == 0x0a {
            out.push(0x5c);
            out.push(0x6e);
        } else if b == 0x0d {
            out.push(0x5c);
            out.push(0x72);
        } else if b == 0x09 {
            out.push(0x5c);
            out.push(0x74);
        } else if b < 0x20 {
            out.push(0x5c);
            out.push(0x75);
            out.push(0x30);
            out.push(0x30);
            out.push(hex_digit(b / 16));
            out.push(hex_digit(b % 16));
        } else {
            out.push(b);
        }
        proof {
            assert(bytes@.take(i + 1 as int).drop_last() =~= bytes@.take(i as int));
            assert(bytes@.take(i + 1 as int).last() == bytes@[i as int]);
            assert(out@ =~= base + json_escaped_bytes(bytes@.take(i + 1 as int)));
        }
        i += 1;
    }
    proof {
        assert(bytes@.take(n as int) =~= bytes@);
    }
}

/// Appends `s` as a quoted, escaped JSON string literal to `out`.
pub fn push_json_quoted(out: &mut Vec<u8>, s: &str)
    ensures
        final(out)@ == old(out)@ + json_quoted(s@),
{
    let ghost base = out@;
    out.push(0x22);
    push_json_escaped(out, s);
    out.push(0x22);
    proof {
        assert(out@ =~= base + json_quoted(s@));
    }
}

/// Decimal digit character for a value below ten.
pub open spec fn dec_digit(n: nat) -> char {
    if n == 0 {
        '0'
    } else if n == 1 {
        '1'
    } else if n == 2 {
        '2'
    } else if n == 3 {
        '3'
    } else if n == 4 {
        '4'
    } else if n == 5 {
        '5'
    } else if n == 6 {
        '6'
    } else if n == 7 {
        '7'
    } else if n == 8 {
        '8'
    } else {
        '9'
    }
}

/// Decimal rendering of a number, most significant digit first, no leading
/// zeroes (except for the number zero itself).
pub open spec fn dec_str_of(n: nat) -> Seq<char>
    decreases n,
{
    if n < 10 {
        seq![dec_digit(n)]
    } else {
        dec_str_of(n / 10).push(dec_digit(n % 10))
    }
}

fn digit_str(d: u16) -> (r: &'static str)
    requires
        d < 10,
    ensures
        r@ == seq![dec_digit(d as nat)],
{
    proof {
        reveal_strlit("0");
        reveal_strlit("1");
        reveal_strlit("2");
        reveal_strlit("3");
        reveal_strlit("4");
        reveal_strlit("5");
        reveal_strlit("6");
        reveal_strlit("7");
        reveal_strlit("8");
        reveal_strlit("9");
    }
    let r = match d {
        0 => "0",
        1 => "1",
        2 => "2",
        3 => "3",
        4 => "4",
        5 => "5",
        6 => "6",
        7 => "7",
        8 => "8",
        _ => "9",
    };
    proof {
        assert(r@ =~= seq![dec_digit(d as nat)]);
    }
    r
}

/// Appends the decimal rendering of `n` to `out`.
pub fn push_u16_dec(out: &mut String, n: u16)
    ensures
        final(out)@ == old(out)@ + dec_str_of(n as nat),
    decreases n,
{
    if n < 10 {
        out.append(digit_str(n));
        proof {
            assert(out@ =~= old(out)@ + dec_str_of(n as nat));
        }
    } else {
        push_u16_dec(out, n / 10);
        out.append(digit_str(n % 10));
        proof {
            assert(out@ =~= old(out)@ + dec_str_of(n as nat));
        }
    }
}

/// The decimal rendering of `n` as a fresh string.
pub fn format_u16(n: u16) -> (r: String)
    ensures
        r@ == dec_str_of(n as nat),
{
    let mut s = String::new();
    push_u16_dec(&mut s, n);
    proof {
        assert(s@ =~= dec_str_of(n as nat));
    }
    s
}

} // verus!
