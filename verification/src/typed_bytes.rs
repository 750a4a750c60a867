//! Byte buffers tagged with the type whose encoding they hold. The tag
//! exists at compile time only.

use vstd::prelude::*;
use std::marker::PhantomData;
use crate::key::append_bytes;
use crate::packer::u64_be;

verus! {

/// The finished encoding of a `T`.
#[derive(Debug)]
pub struct ByteArray<T> {
    array: Vec<u8>,
    phantom: PhantomData<T>,
}

impl<T> View for ByteArray<T> {
    type V = Seq<u8>;

    closed spec fn view(&self) -> Seq<u8> {
        self.array@
    }
}

impl<T> ByteArray<T> {
    /// The bytes of the encoding.
    pub fn as_slice(&self) -> (bytes: &[u8])
        ensures
            bytes@ == self@,
    {
        self.array.as_slice()
    }
}

/// The encoding of a `T` while it is being written.
#[derive(Debug)]
pub struct ByteBuilder<T> {
    buffer: Vec<u8>,
    phantom: PhantomData<T>,
}

impl<T> View for ByteBuilder<T> {
    type V = Seq<u8>;

    closed spec fn view(&self) -> Seq<u8> {
        self.buffer@
    }
}

impl<T> ByteBuilder<T> {
    /// A builder that holds no byte yet.
    pub fn new() -> (builder: Self)
        ensures
            builder@ == Seq::<u8>::empty(),
    {
        ByteBuilder { buffer: Vec::new(), phantom: PhantomData }
    }

    /// Appends one byte.
    pub fn u8(self, v: u8) -> (builder: Self)
        ensures
            builder@ == self@.push(v),
    {
        let mut buffer = self.buffer;
        buffer.push(v);
        ByteBuilder { buffer, phantom: PhantomData }
    }

    /// Appends a 64-bit integer, most significant byte first.
    pub fn u64(self, v: u64) -> (builder: Self)
        ensures
            builder@ == self@ + u64_be(v),
    {
        let mut codec = crate::packer::Codec { buffer: self.buffer };
        codec.put_u64(v);
        ByteBuilder { buffer: codec.into_inner(), phantom: PhantomData }
    }

    /// Appends a byte string as it is.
    pub fn bytes(self, v: &[u8]) -> (builder: Self)
        ensures
            builder@ == self@ + v@,
    {
        let mut buffer = self.buffer;
        append_bytes(&mut buffer, v);
        ByteBuilder { buffer, phantom: PhantomData }
    }

    /// The finished encoding.
    pub fn finalize(self) -> (array: ByteArray<T>)
        ensures
            array@ == self@,
    {
        ByteArray { array: self.buffer, phantom: PhantomData }
    }

    /// The finished encoding as a plain vector.
    pub fn finalize_as_vec(self) -> (bytes: Vec<u8>)
        ensures
            bytes@ == self@,
    {
        self.buffer
    }
}

} // verus!
