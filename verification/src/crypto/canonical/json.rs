//! The JSON spellings the canonical form is made of: quoted text with its
//! escapes, decimal numbers, and `null`.

use vstd::prelude::*;
use vstd::string::StringSliceAdditionalSpecFns;
use vstd::utf8::encode_utf8;

verus! {

/// The UTF-8 bytes of a piece of text.
pub open spec fn utf8(s: &str) -> Seq<u8> {
    s.spec_bytes()
}

/// The ASCII code of the lowercase hexadecimal digit for a value below 16.
pub open spec fn hex_digit_byte(n: int) -> u8 {
    if n < 10 {
        (0x30 + n) as u8
    } else {
        (0x61 + (n - 10)) as u8
    }
}

/// How one byte of a text is written between the quotes: the quote and
/// the backslash get a backslash, the control characters their short
/// escape or `\u00XX`, every other byte stands for itself.
pub open spec fn escaped_byte(b: u8) -> Seq<u8> {
    if b == 0x22 {
        seq![0x5cu8, 0x22u8]
    } else if b == 0x5c {
        seq![0x5cu8, 0x5cu8]
    } else if b == 0x08 {
        seq![0x5cu8, 0x62u8]
    } else if b == 0x09 {
        seq![0x5cu8, 0x74u8]
    } else if b == 0x0a {
        seq![0x5cu8, 0x6eu8]
    } else if b == 0x0c {
        seq![0x5cu8, 0x66u8]
    } else if b == 0x0d {
        seq![0x5cu8, 0x72u8]
    } else if b < 0x20 {
        seq![0x5cu8, 0x75u8, 0x30u8, 0x30u8, hex_digit_byte(b as int / 16), hex_digit_byte(b as int % 16)]
    } else {
        seq![b]
    }
}

/// The escapes of all bytes of a text, in order.
pub open spec fn escaped(bytes: Seq<u8>) -> Seq<u8>
    decreases bytes.len(),
{
    if bytes.len() == 0 {
        Seq::<u8>::empty()
    } else {
        escaped(bytes.drop_last()) + escaped_byte(bytes.last())
    }
}

/// A text as a JSON string.
pub open spec fn json_text(s: Seq<char>) -> Seq<u8> {
    seq![0x22u8] + escaped(encode_utf8(s)) + seq![0x22u8]
}

/// An optional text as a JSON string or `null`.
pub open spec fn json_optional_text(o: Option<Seq<char>>) -> Seq<u8> {
    match o {
        Some(s) => json_text(s),
        None => utf8("null"),
    }
}

/// A natural number in decimal, without leading zeros.
pub open spec fn decimal(n: nat) -> Seq<u8>
    decreases n,
{
    if n < 10 {
        seq![(0x30 + n) as u8]
    } else {
        decimal(n / 10).push((0x30 + n % 10) as u8)
    }
}

/// An integer in decimal, with a minus sign if it is negative.
pub open spec fn signed_decimal(n: int) -> Seq<u8> {
    if n < 0 {
        seq![0x2du8] + decimal((-n) as nat)
    } else {
        decimal(n as nat)
    }
}

/// Appends bytes.
pub fn push_bytes(out: &mut Vec<u8>, bytes: &[u8])
    ensures
        final(out)@ == old(out)@ + bytes@,
{
    let mut i: usize = 0;
    while i < bytes.len()
        invariant
            i <= bytes.len(),
            out@ == old(out)@ + bytes@.subrange(0, i as int),
        decreases bytes.len() - i,
    {
        out.push(bytes[i]);
        i += 1;
        assert(out@ =~= old(out)@ + bytes@.subrange(0, i as int));
    }
    assert(bytes@.subrange(0, i as int) =~= bytes@);
}

/// Appends the UTF-8 bytes of a text as they are.
pub fn push_utf8(out: &mut Vec<u8>, s: &str)
    ensures
        final(out)@ == old(out)@ + utf8(s),
{
    push_bytes(out, s.as_bytes());
}

/// The lowercase hexadecimal digit for a value below 16.
fn hex_digit_of(n: u8) -> (d: u8)
    requires
        n < 16,
    ensures
        d == hex_digit_byte(n as int),
{
    if n < 10 {
        0x30 + n
    } else {
        0x61 + (n - 10)
    }
}

/// Appends the escape of one byte.
fn push_escaped_byte(out: &mut Vec<u8>, b: u8)
    ensures
        final(out)@ == old(out)@ + escaped_byte(b),
{
    if b == 0x22 {
        out.push(0x5c);
        out.push(0x22);
    } else if b == 0x5c {
        out.push(0x5c);
        out.push(0x5c);
    } else if b == 0x08 {
        out.push(0x5c);
        out.push(0x62);
    } else if b == 0x09 {
        out.push(0x5c);
        out.push(0x74);
    } else if b == 0x0a {
        out.push(0x5c);
        out.push(0x6e);
    } else if b == 0x0c {
        out.push(0x5c);
        out.push(0x66);
    } else if b == 0x0d {
        out.push(0x5c);
        out.push(0x72);
    } else if b < 0x20 {
        out.push(0x5c);
        out.push(0x75);
        out.push(0x30);
        out.push(0x30);
        out.push(hex_digit_of(b / 16));
        out.push(hex_digit_of(b % 16));
    } else {
        out.push(b);
    }
    assert(out@ =~= old(out)@ + escaped_byte(b));
}

/// Appends a text as a JSON string.
pub fn push_json_text(out: &mut Vec<u8>, s: &str)
    ensures
        final(out)@ == old(out)@ + json_text(s@),
{
    let bytes = s.as_bytes();
    out.push(0x22);
    let mut i: usize = 0;
    while i < bytes.len()
        invariant
            i <= bytes.len(),
            bytes@ == encode_utf8(s@),
            out@ == old(out)@ + seq![0x22u8] + escaped(bytes@.subrange(0, i as int)),
        decreases bytes.len() - i,
    {
        push_escaped_byte(out, bytes[i]);
        proof {
            let next = bytes@.subrange(0, i as int + 1);
            assert(next.drop_last() =~= bytes@.subrange(0, i as int));
            assert(next.last() == bytes@[i as int]);
        }
        i += 1;
        assert(out@ =~= old(out)@ + seq![0x22u8] + escaped(bytes@.subrange(0, i as int)));
    }
    assert(bytes@.subrange(0, i as int) =~= bytes@);
    out.push(0x22);
    assert(out@ =~= old(out)@ + json_text(s@));
}

/// Appends an optional text as a JSON string or `null`.
pub fn push_json_optional_text(out: &mut Vec<u8>, o: &Option<String>)
    ensures
        final(out)@ == old(out)@ + json_optional_text(
            match *o {
                Some(s) => Some(s@),
                None => None,
            },
        ),
{
    match o {
        Some(s) => push_json_text(out, s.as_str()),
        None => push_utf8(out, "null"),
    }
}

/// Appends a number in decimal.
pub fn push_decimal(out: &mut Vec<u8>, n: u64)
    ensures
        final(out)@ == old(out)@ + decimal(n as nat),
    decreases n,
{
    if n >= 10 {
        push_decimal(out, n / 10);
    }
    let digit: u8 = (n % 10) as u8;
    out.push(0x30 + digit);
    assert(out@ =~= old(out)@ + decimal(n as nat));
}

/// Appends a signed number in decimal.
pub fn push_signed_decimal(out: &mut Vec<u8>, n: i64)
    ensures
        final(out)@ == old(out)@ + signed_decimal(n as int),
{
    if n < 0 {
        out.push(0x2d);
        let magnitude: u64 = if n == i64::MIN {
            0x8000_0000_0000_0000
        } else {
            (-n) as u64
        };
        push_decimal(out, magnitude);
        assert(out@ =~= old(out)@ + signed_decimal(n as int));
    } else {
        push_decimal(out, n as u64);
    }
}

} // verus!
