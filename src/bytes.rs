use vstd::prelude::*;

verus! {

/// Big-endian encoding of a 16-bit integer.
pub open spec fn be16(x: u16) -> Seq<u8> {
    seq![(x >> 8u16) as u8, x as u8]
}

/// Big-endian encoding of a 64-bit integer.
pub open spec fn be64(x: u64) -> Seq<u8> {
    seq![
        (x >> 56u64) as u8,
        (x >> 48u64) as u8,
        (x >> 40u64) as u8,
        (x >> 32u64) as u8,
        (x >> 24u64) as u8,
        (x >> 16u64) as u8,
        (x >> 8u64) as u8,
        x as u8,
    ]
}

/// The lower-case hexadecimal digit of a value below sixteen.
pub open spec fn hex_digit(v: u8) -> char {
    if v < 10 {
        (('0' as u8) + v) as char
    } else {
        (('a' as u8) + (v - 10)) as char
    }
}

/// Two lower-case hexadecimal digits per byte, high nibble first.
pub open spec fn hex_of(b: Seq<u8>) -> Seq<char>
    decreases b.len(),
{
    if b.len() == 0 {
        Seq::empty()
    } else {
        hex_of(b.drop_last()) + seq![hex_digit(b.last() / 16), hex_digit(b.last() % 16)]
    }
}

/// A byte string of `n` zero bytes.
pub open spec fn zeros(n: nat) -> Seq<u8> {
    Seq::new(n, |_i: int| 0u8)
}

/// Appends `src` to the end of `dst`.
pub fn append_bytes(dst: &mut Vec<u8>, src: &[u8])
    ensures
        final(dst)@ == old(dst)@ + src@,
{
    let mut i: usize = 0;
    while i < src.len()
        invariant
            i <= src@.len(),
            dst@ == old(dst)@ + src@.subrange(0, i as int),
        decreases src@.len() - i,
    {
        dst.push(src[i]);
        i += 1;
        assert(src@.subrange(0, i as int) == src@.subrange(0, i - 1 as int).push(src@[i - 1]));
    }
    assert(src@.subrange(0, src@.len() as int) == src@);
}

/// Appends the big-endian encoding of `x`.
pub fn append_be16(dst: &mut Vec<u8>, x: u16)
    ensures
        final(dst)@ == old(dst)@ + be16(x),
{
    dst.push((x >> 8u16) as u8);
    dst.push(x as u8);
    assert(dst@ == old(dst)@ + be16(x));
}

/// Appends the big-endian encoding of `x`.
pub fn append_be64(dst: &mut Vec<u8>, x: u64)
    ensures
        final(dst)@ == old(dst)@ + be64(x),
{
    dst.push((x >> 56u64) as u8);
    dst.push((x >> 48u64) as u8);
    dst.push((x >> 40u64) as u8);
    dst.push((x >> 32u64) as u8);
    dst.push((x >> 24u64) as u8);
    dst.push((x >> 16u64) as u8);
    dst.push((x >> 8u64) as u8);
    dst.push(x as u8);
    assert(dst@ == old(dst)@ + be64(x));
}

/// Relies on std's String::push: the character is appended at the end.
#[verifier::external_body]
pub(crate) fn push_char(s: &mut String, c: char)
    ensures
        final(s)@ == old(s)@.push(c),
{
    s.push(c)
}

fn hex_char(v: u8) -> (c: char)
    requires
        v < 16,
    ensures
        c == hex_digit(v),
{
    if v < 10 {
        (('0' as u8) + v) as char
    } else {
        (('a' as u8) + (v - 10)) as char
    }
}

/// Lower-case hexadecimal text of a byte string.
pub fn to_hex(b: &[u8]) -> (r: String)
    ensures
        r@ == hex_of(b@),
{
    let mut out = String::new();
    let mut i: usize = 0;
    while i < b.len()
        invariant
            i <= b@.len(),
            out@ == hex_of(b@.subrange(0, i as int)),
        decreases b@.len() - i,
    {
        let hi = hex_char(b[i] / 16);
        let lo = hex_char(b[i] % 16);
        push_char(&mut out, hi);
        push_char(&mut out, lo);
        i += 1;
        proof {
            let pre = b@.subrange(0, i as int);
            assert(pre.drop_last() == b@.subrange(0, i - 1 as int));
            assert(pre.last() == b@[i - 1]);
        }
    }
    assert(b@.subrange(0, b@.len() as int) == b@);
    out
}

} // verus!
