//! Byte strings: big-endian integers and the few operations on them that
//! the message formats need.

use vstd::prelude::*;

verus! {

/// A 16-bit number as two bytes, most significant first.
pub open spec fn be16(n: int) -> Seq<u8> {
    seq![((n / 256) % 256) as u8, (n % 256) as u8]
}

/// A 32-bit number as four bytes, most significant first.
pub open spec fn be32(n: int) -> Seq<u8> {
    seq![
        ((n / 16777216) % 256) as u8,
        ((n / 65536) % 256) as u8,
        ((n / 256) % 256) as u8,
        (n % 256) as u8,
    ]
}

/// The number that two bytes stand for, most significant first.
pub open spec fn from_be16(high: u8, low: u8) -> int {
    high as int * 256 + low as int
}

/// `be16` loses nothing of a number that fits in 16 bits.
pub proof fn lemma_be16_inverts(n: int)
    requires
        0 <= n < 65536,
    ensures
        be16(n).len() == 2,
        from_be16(be16(n)[0], be16(n)[1]) == n,
{
}

/// Appends the bytes of `tail` to `bytes`.
pub fn append(bytes: &mut Vec<u8>, tail: &[u8])
    ensures
        final(bytes)@ == old(bytes)@ + tail@,
{
    let mut i: usize = 0;
    while i < tail.len()
        invariant
            i <= tail@.len(),
            bytes@ == old(bytes)@ + tail@.subrange(0, i as int),
        decreases tail@.len() - i,
    {
        bytes.push(tail[i]);
        i += 1;
    }
}

/// Appends a 16-bit number to `bytes`, most significant byte first.
pub fn append_be16(bytes: &mut Vec<u8>, n: u16)
    ensures
        final(bytes)@ == old(bytes)@ + be16(n as int),
{
    bytes.push((n / 256) as u8);
    bytes.push((n % 256) as u8);
}

/// The bytes of `bytes` from `from` up to `to`, as a vector of their own.
pub fn copy_range(bytes: &[u8], from: usize, to: usize) -> (out: Vec<u8>)
    requires
        from <= to <= bytes@.len(),
    ensures
        out@ == bytes@.subrange(from as int, to as int),
{
    let mut out: Vec<u8> = Vec::new();
    let mut i: usize = from;
    while i < to
        invariant
            from <= i <= to <= bytes@.len(),
            out@ == bytes@.subrange(from as int, i as int),
        decreases to - i,
    {
        out.push(bytes[i]);
        i += 1;
    }
    out
}

/// Eight bytes of `bytes`, starting at `from`, as an array.
pub fn array8(bytes: &[u8], from: usize) -> (out: [u8; 8])
    requires
        from + 8 <= bytes@.len(),
    ensures
        out@ == bytes@.subrange(from as int, from + 8),
{
    let out = [
        bytes[from],
        bytes[from + 1],
        bytes[from + 2],
        bytes[from + 3],
        bytes[from + 4],
        bytes[from + 5],
        bytes[from + 6],
        bytes[from + 7],
    ];
    out
}

/// Sixteen bytes of `bytes`, starting at `from`, as an array.
pub fn array16(bytes: &[u8], from: usize) -> (out: [u8; 16])
    requires
        from + 16 <= bytes@.len(),
    ensures
        out@ == bytes@.subrange(from as int, from + 16),
{
    let out = [
        bytes[from],
        bytes[from + 1],
        bytes[from + 2],
        bytes[from + 3],
        bytes[from + 4],
        bytes[from + 5],
        bytes[from + 6],
        bytes[from + 7],
        bytes[from + 8],
        bytes[from + 9],
        bytes[from + 10],
        bytes[from + 11],
        bytes[from + 12],
        bytes[from + 13],
        bytes[from + 14],
        bytes[from + 15],
    ];
    out
}

} // verus!
