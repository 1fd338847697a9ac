//! The byte-level building blocks of the JSON line format: decimal and hexadecimal numbers
//! and escaped strings, each appended to an output buffer.

use vstd::prelude::*;
use vstd::string::*;

verus! {

/// The ASCII digit for `d`, which is below ten.
pub open spec fn dec_digit(d: nat) -> u8 {
    (48 + d) as u8
}

/// The lower-case ASCII hexadecimal digit for `d`, which is below sixteen.
pub open spec fn hex_digit(d: nat) -> u8 {
    if d < 10 {
        (48 + d) as u8
    } else {
        (87 + d) as u8
    }
}

/// `n` in decimal, without leading zeros.
pub open spec fn decimal(n: nat) -> Seq<u8>
    decreases n,
{
    if n < 10 {
        seq![dec_digit(n)]
    } else {
        decimal(n / 10).push(dec_digit(n % 10))
    }
}

/// `n` in decimal, with a minus sign in front of a negative number.
pub open spec fn signed_decimal(n: int) -> Seq<u8> {
    if n < 0 {
        seq![45u8] + decimal((-n) as nat)
    } else {
        decimal(n as nat)
    }
}

/// The low `width` hexadecimal digits of `value`, most significant first.
pub open spec fn hexadecimal(value: nat, width: nat) -> Seq<u8>
    decreases width,
{
    if width == 0 {
        Seq::<u8>::empty()
    } else {
        hexadecimal(value / 16, (width - 1) as nat).push(hex_digit(value % 16))
    }
}

/// How one byte of a string stands inside a JSON string literal: the quote and the
/// backslash get a backslash in front, a control byte becomes its short escape or
/// `\u00XX`, and every other byte stands for itself.
pub open spec fn escape_byte(b: u8) -> Seq<u8> {
    if b == 0x22 {
        seq![0x5cu8, 0x22u8]
    } else if b == 0x5c {
        seq![0x5cu8, 0x5cu8]
    } else if b == 0x08 {
        seq![0x5cu8, 0x62u8]
    } else if b == 0x0c {
        seq![0x5cu8, 0x66u8]
    } else if b == 0x0a {
        seq![0x5cu8, 0x6eu8]
    } else if b == 0x0d {
        seq![0x5cu8, 0x72u8]
    } else if b == 0x09 {
        seq![0x5cu8, 0x74u8]
    } else if b < 0x20 {
        seq![0x5cu8, 0x75u8, 0x30u8, 0x30u8] + hexadecimal(b as nat, 2)
    } else {
        seq![b]
    }
}

/// The bytes of a string, each escaped.
pub open spec fn escape(bytes: Seq<u8>) -> Seq<u8>
    decreases bytes.len(),
{
    if bytes.len() == 0 {
        Seq::<u8>::empty()
    } else {
        escape(bytes.drop_last()) + escape_byte(bytes.last())
    }
}

/// A JSON string literal: the escaped bytes between two quotes.
pub open spec fn quoted(bytes: Seq<u8>) -> Seq<u8> {
    seq![0x22u8] + escape(bytes) + seq![0x22u8]
}

/// Appends the bytes of `s`.
pub fn put_bytes(out: &mut Vec<u8>, s: &[u8])
    ensures
        final(out)@ == old(out)@ + s@,
{
    let mut i: usize = 0;
    while i < s.len()
        invariant
            i <= s@.len(),
            out@ == old(out)@ + s@.take(i as int),
        decreases s@.len() - i,
    {
        out.push(s[i]);
        i += 1;
        assert(s@.take(i as int) =~= s@.take(i - 1).push(s@[i - 1]));
    }
    assert(s@.take(s@.len() as int) =~= s@);
}

/// Appends the UTF-8 bytes of `s`.
pub fn put_str(out: &mut Vec<u8>, s: &str)
    ensures
        final(out)@ == old(out)@ + s.spec_bytes(),
{
    put_bytes(out, s.as_bytes());
}

/// Appends `n` in decimal.
pub fn put_u64(out: &mut Vec<u8>, n: u64)
    ensures
        final(out)@ == old(out)@ + decimal(n as nat),
    decreases n,
{
    if n >= 10 {
        put_u64(out, n / 10);
    }
    out.push(48 + (n % 10) as u8);
    assert(out@ =~= old(out)@ + decimal(n as nat));
}

/// Appends `n` in decimal, with its sign when it is negative.
pub fn put_i64(out: &mut Vec<u8>, n: i64)
    ensures
        final(out)@ == old(out)@ + signed_decimal(n as int),
{
    if n < 0 {
        out.push(45);
        let magnitude: u64 = if n == i64::MIN {
            9223372036854775808u64
        } else {
            (-n) as u64
        };
        put_u64(out, magnitude);
        assert(out@ =~= old(out)@ + signed_decimal(n as int));
    } else {
        put_u64(out, n as u64);
    }
}

/// Appends the low `width` hexadecimal digits of `value`, most significant first.
pub fn put_hex(out: &mut Vec<u8>, value: u128, width: usize)
    ensures
        final(out)@ == old(out)@ + hexadecimal(value as nat, width as nat),
    decreases width,
{
    if width > 0 {
        put_hex(out, value / 16, width - 1);
        let d = (value % 16) as u8;
        if d < 10 {
            out.push(48 + d);
        } else {
            out.push(87 + d);
        }
    }
    assert(out@ =~= old(out)@ + hexadecimal(value as nat, width as nat));
}

/// Appends one byte of a string, escaped.
pub fn put_escaped_byte(out: &mut Vec<u8>, b: u8)
    ensures
        final(out)@ == old(out)@ + escape_byte(b),
{
    if b == 0x22 {
        out.push(0x5c);
        out.push(0x22);
    } else if b == 0x5c {
        out.push(0x5c);
        out.push(0x5c);
    } else if b == 0x08 {
        out.push(0x5c);
        out.push(0x62);
    } else if b == 0x0c {
        out.push(0x5c);
        out.push(0x66);
    } else if b == 0x0a {
        out.push(0x5c);
        out.push(0x6e);
    } else if b == 0x0d {
        out.push(0x5c);
        out.push(0x72);
    } else if b == 0x09 {
        out.push(0x5c);
        out.push(0x74);
    } else if b < 0x20 {
        out.push(0x5c);
        out.push(0x75);
        out.push(0x30);
        out.push(0x30);
        put_hex(out, b as u128, 2);
    } else {
        out.push(b);
    }
    assert(out@ =~= old(out)@ + escape_byte(b));
}

/// Appends `bytes` as a JSON string literal.
pub fn put_quoted(out: &mut Vec<u8>, bytes: &[u8])
    ensures
        final(out)@ == old(out)@ + quoted(bytes@),
{
    out.push(0x22);
    let mut i: usize = 0;
    assert(bytes@.take(0) =~= Seq::<u8>::empty());
    while i < bytes.len()
        invariant
            i <= bytes@.len(),
            out@ == old(out)@ + seq![0x22u8] + escape(bytes@.take(i as int)),
        decreases bytes@.len() - i,
    {
        put_escaped_byte(out, bytes[i]);
        i += 1;
        proof {
            let now = bytes@.take(i as int);
            assert(now.drop_last() =~= bytes@.take(i - 1));
            assert(now.last() == bytes@[i - 1]);
            assert(out@ =~= old(out)@ + seq![0x22u8] + escape(now));
        }
    }
    assert(bytes@.take(bytes@.len() as int) =~= bytes@);
    out.push(0x22);
    assert(out@ =~= old(out)@ + quoted(bytes@));
}

/// Appends `s` as a JSON string literal.
pub fn put_quoted_str(out: &mut Vec<u8>, s: &str)
    ensures
        final(out)@ == old(out)@ + quoted(s.spec_bytes()),
{
    put_quoted(out, s.as_bytes());
}

} // verus!
