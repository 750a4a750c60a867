//! Big-endian encodings of integers and a byte writer that can reserve a hole
//! for a size which is only known once the rest has been written.

use vstd::prelude::*;
use crate::key::append_bytes;

verus! {

/// The big-endian encoding of a 16-bit integer.
pub open spec fn u16_be(x: u16) -> Seq<u8> {
    seq![(x / 0x100) as u8, (x % 0x100) as u8]
}

/// The big-endian encoding of a 32-bit integer.
pub open spec fn u32_be(x: u32) -> Seq<u8> {
    seq![
        (x / 0x100_0000) as u8,
        (x / 0x1_0000 % 0x100) as u8,
        (x / 0x100 % 0x100) as u8,
        (x % 0x100) as u8,
    ]
}

/// The big-endian encoding of a 64-bit integer.
pub open spec fn u64_be(x: u64) -> Seq<u8> {
    u32_be((x / 0x1_0000_0000) as u32) + u32_be((x % 0x1_0000_0000) as u32)
}

/// The 16-bit integer that two bytes encode in big-endian order.
pub open spec fn u16_from_be(b: Seq<u8>) -> u16
    recommends
        b.len() == 2,
{
    (b[0] * 0x100 + b[1]) as u16
}

/// The 32-bit integer that four bytes encode in big-endian order.
pub open spec fn u32_from_be(b: Seq<u8>) -> u32
    recommends
        b.len() == 4,
{
    (b[0] * 0x100_0000 + b[1] * 0x1_0000 + b[2] * 0x100 + b[3]) as u32
}

/// Decoding undoes encoding, for 16-bit integers.
pub proof fn lemma_u16_round_trip(x: u16)
    ensures
        u16_be(x).len() == 2,
        u16_from_be(u16_be(x)) == x,
{
}

/// Decoding undoes encoding, for 32-bit integers.
pub proof fn lemma_u32_round_trip(x: u32)
    ensures
        u32_be(x).len() == 4,
        u32_from_be(u32_be(x)) == x,
{
}

/// Encoding undoes decoding, for 16-bit integers.
pub proof fn lemma_u16_be_of_bytes(b: Seq<u8>)
    requires
        b.len() == 2,
    ensures
        u16_be(u16_from_be(b)) == b,
{
}

/// Encoding undoes decoding, for 32-bit integers.
pub proof fn lemma_u32_be_of_bytes(b: Seq<u8>)
    requires
        b.len() == 4,
    ensures
        u32_be(u32_from_be(b)) == b,
{
    let (b0, b1, b2, b3) = (b[0], b[1], b[2], b[3]);
    let x: u32 = u32_from_be(b);
    assert(x / 0x100_0000 == b0 && x / 0x1_0000 % 0x100 == b1 && x / 0x100 % 0x100 == b2 && x
        % 0x100 == b3) by (bit_vector)
        requires
            x == b0 * 0x100_0000 + b1 * 0x1_0000 + b2 * 0x100 + b3,
    ;
}

/// Reads the 16-bit integer that stands at `at` in `bytes`, most significant
/// byte first.
pub(crate) fn get_u16_be(bytes: &[u8], at: usize) -> (value: u16)
    requires
        at + 2 <= bytes@.len(),
    ensures
        value == u16_from_be(bytes@.subrange(at as int, at + 2)),
{
    let high: u16 = bytes[at] as u16;
    let low: u16 = bytes[at + 1] as u16;
    high * 0x100 + low
}

/// Reads the 32-bit integer that stands at `at` in `bytes`, most significant
/// byte first.
pub(crate) fn get_u32_be(bytes: &[u8], at: usize) -> (value: u32)
    requires
        at + 4 <= bytes@.len(),
    ensures
        value == u32_from_be(bytes@.subrange(at as int, at + 4)),
{
    let b0: u32 = bytes[at] as u32;
    let b1: u32 = bytes[at + 1] as u32;
    let b2: u32 = bytes[at + 2] as u32;
    let b3: u32 = bytes[at + 3] as u32;
    b0 * 0x100_0000 + b1 * 0x1_0000 + b2 * 0x100 + b3
}

/// A place reserved in a `Codec` for a value that is written later.
#[derive(Debug, Clone, Copy, PartialEq, Eq)]
pub struct Hole {
    pub offset: usize,
    pub size: usize,
}

/// A growable byte buffer that integers and byte strings are appended to.
#[derive(Debug, Clone, PartialEq, Eq)]
pub struct Codec {
    pub buffer: Vec<u8>,
}

impl View for Codec {
    type V = Seq<u8>;

    open spec fn view(&self) -> Seq<u8> {
        self.buffer@
    }
}

impl Codec {
    /// A writer that holds no byte yet.
    pub fn new() -> (codec: Codec)
        ensures
            codec@ == Seq::<u8>::empty(),
    {
        Codec { buffer: Vec::new() }
    }

    /// Appends one byte.
    pub fn put_u8(&mut self, v: u8)
        ensures
            final(self)@ == old(self)@.push(v),
    {
        self.buffer.push(v);
    }

    /// Appends a 16-bit integer, most significant byte first.
    pub fn put_u16(&mut self, v: u16)
        ensures
            final(self)@ == old(self)@ + u16_be(v),
    {
        self.buffer.push((v / 0x100) as u8);
        self.buffer.push((v % 0x100) as u8);
    }

    /// Appends a 32-bit integer, most significant byte first.
    pub fn put_u32(&mut self, v: u32)
        ensures
            final(self)@ == old(self)@ + u32_be(v),
    {
        self.buffer.push((v / 0x100_0000) as u8);
        self.buffer.push((v / 0x1_0000 % 0x100) as u8);
        self.buffer.push((v / 0x100 % 0x100) as u8);
        self.buffer.push((v % 0x100) as u8);
    }

    /// Appends a 64-bit integer, most significant byte first.
    pub fn put_u64(&mut self, v: u64)
        ensures
            final(self)@ == old(self)@ + u64_be(v),
    {
        self.put_u32((v / 0x1_0000_0000) as u32);
        self.put_u32((v % 0x1_0000_0000) as u32);
    }

    /// Appends a byte string as it is.
    pub fn put_bytes(&mut self, bytes: &[u8])
        ensures
            final(self)@ == old(self)@ + bytes@,
    {
        append_bytes(&mut self.buffer, bytes);
    }

    /// Reserves `size` bytes, zero for now, and returns where they are.
    pub fn hole(&mut self, size: usize) -> (hole: Hole)
        ensures
            final(self)@ == old(self)@ + Seq::new(size as nat, |i: int| 0u8),
            hole.offset == old(self)@.len(),
            hole.size == size,
    {
        let offset = self.buffer.len();
        let mut i: usize = 0;
        while i < size
            invariant
                i <= size,
                self@ == old(self)@ + Seq::new(i as nat, |j: int| 0u8),
            decreases size - i,
        {
            self.buffer.push(0u8);
            i += 1;
        }
        Hole { offset, size }
    }

    /// Writes a 16-bit integer, most significant byte first, into a hole of
    /// two bytes that was reserved in this writer.
    pub fn fill_hole_u16(&mut self, hole: Hole, value: u16)
        requires
            hole.size == 2,
            hole.offset + 2 <= old(self)@.len(),
        ensures
            final(self)@ == old(self)@.take(hole.offset as int) + u16_be(value) + old(
                self,
            )@.skip(hole.offset + 2),
    {
        let len: usize = self.buffer.len();
        let first: usize = hole.offset;
        let second: usize = first + 1;
        self.buffer[first] = (value / 0x100) as u8;
        self.buffer[second] = (value % 0x100) as u8;
    }

    /// The number of bytes written so far, holes included.
    pub fn buffered_len(&self) -> (len: usize)
        ensures
            len == self@.len(),
    {
        self.buffer.len()
    }

    /// The bytes written.
    pub fn into_inner(self) -> (bytes: Vec<u8>)
        ensures
            bytes@ == self@,
    {
        self.buffer
    }
}

} // verus!
