//! Checksums of the wire format.
//!
//! A field of one byte is followed by that byte with every bit flipped; a
//! longer field is followed by the exclusive or of all its bytes.

use vstd::prelude::*;

verus! {

/// The check byte of a field that is one byte long.
pub open spec fn spec_single(data: u8) -> u8 {
    data ^ 0xff
}

/// The exclusive or of all bytes of `data`, 0 for no bytes.
pub open spec fn spec_iter(data: Seq<u8>) -> u8
    decreases data.len(),
{
    if data.len() == 0 {
        0
    } else {
        spec_iter(data.drop_last()) ^ data.last()
    }
}

/// The checksum of a run is the checksum of its first part, xored with that
/// of its second part.
pub proof fn lemma_iter_concat(a: Seq<u8>, b: Seq<u8>)
    ensures
        spec_iter(a + b) == spec_iter(a) ^ spec_iter(b),
    decreases b.len(),
{
    let x = spec_iter(a);
    if b.len() == 0 {
        assert(a + b =~= a);
        assert(x ^ 0 == x) by (bit_vector);
    } else {
        let y = spec_iter(b.drop_last());
        let z = b.last();
        lemma_iter_concat(a, b.drop_last());
        assert((a + b).drop_last() =~= a + b.drop_last());
        assert((a + b).last() == z);
        assert((x ^ y) ^ z == x ^ (y ^ z)) by (bit_vector);
    }
}

/// The checksum of one byte is that byte.
pub proof fn lemma_iter_one(byte: u8)
    ensures
        spec_iter(seq![byte]) == byte,
{
    let s = seq![byte];
    assert(s.drop_last() =~= Seq::<u8>::empty());
    assert(spec_iter(s.drop_last()) == 0);
    assert(0 ^ byte == byte) by (bit_vector);
}

/// Computes the check byte of a one-byte field: the byte with every bit flipped.
pub fn single(data: u8) -> (sum: u8)
    ensures
        sum == spec_single(data),
{
    data ^ 0xff
}

/// Computes the check byte of a run of bytes: the exclusive or of them all.
pub fn iter(data: &[u8]) -> (sum: u8)
    ensures
        sum == spec_iter(data@),
{
    let mut sum: u8 = 0;
    let mut i: usize = 0;
    while i < data.len()
        invariant
            i <= data.len(),
            sum == spec_iter(data@.take(i as int)),
        decreases data.len() - i,
    {
        proof {
            assert(data@.take(i + 1).drop_last() =~= data@.take(i as int));
        }
        sum = sum ^ data[i];
        i += 1;
    }
    proof {
        assert(data@.take(i as int) =~= data@);
    }
    sum
}

/// A sink that keeps the checksum of everything written to it.
#[derive(Debug, Clone)]
pub struct Buffer {
    state: u8,
}

impl Buffer {
    /// The checksum of everything written so far.
    pub closed spec fn spec_state(&self) -> u8 {
        self.state
    }

    /// Creates a sink to which nothing was written.
    pub fn new() -> (buffer: Self)
        ensures
            buffer.spec_state() == 0,
    {
        Buffer { state: 0 }
    }

    /// Returns the checksum of everything written so far.
    pub fn state(&self) -> (sum: u8)
        ensures
            sum == self.spec_state(),
    {
        self.state
    }

    /// Takes all of `buf` into the checksum and returns how many bytes it took.
    pub fn write(&mut self, buf: &[u8]) -> (taken: usize)
        ensures
            taken == buf@.len(),
            final(self).spec_state() == old(self).spec_state() ^ spec_iter(buf@),
    {
        self.state = self.state ^ iter(buf);
        buf.len()
    }
}

impl Default for Buffer {
    fn default() -> (buffer: Self)
        ensures
            buffer.spec_state() == 0,
    {
        Buffer::new()
    }
}

/// A sink that took `a` and then `b` holds the checksum of `a` followed by `b`.
pub proof fn lemma_buffer_accumulates(a: Seq<u8>, b: Seq<u8>)
    ensures
        (0u8 ^ spec_iter(a)) ^ spec_iter(b) == spec_iter(a + b),
{
    let x = spec_iter(a);
    lemma_iter_concat(a, b);
    assert(0u8 ^ x == x) by (bit_vector);
}

} // verus!
