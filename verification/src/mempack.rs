//! A read cursor over a byte slice, and the errors of decoding.

use vstd::prelude::*;

verus! {

/// Why a value could not be decoded.
#[derive(Debug, Clone, PartialEq, Eq)]
pub enum ReadError {
    /// Fewer bytes are left (first number) than the next value takes (second).
    NotEnoughBytes(usize, usize),
    /// This many bytes are left where the input should have ended.
    UnconsumedData(usize),
    /// The bytes do not encode a value of the expected shape; the text says why.
    StructureInvalid(String),
}

/// A `ReadError` with its text as a sequence of characters.
pub enum ReadErrorView {
    NotEnoughBytes(usize, usize),
    UnconsumedData(usize),
    StructureInvalid(Seq<char>),
}

impl View for ReadError {
    type V = ReadErrorView;

    open spec fn view(&self) -> ReadErrorView {
        match self {
            ReadError::NotEnoughBytes(left, demanded) => ReadErrorView::NotEnoughBytes(
                *left,
                *demanded,
            ),
            ReadError::UnconsumedData(left) => ReadErrorView::UnconsumedData(*left),
            ReadError::StructureInvalid(reason) => ReadErrorView::StructureInvalid(reason@),
        }
    }
}

/// A position in a byte slice from which values are read in turn.
///
/// A read that fails leaves the cursor where it was.
#[derive(Debug, Clone, Copy)]
pub struct ReadBuf<'a> {
    data: &'a [u8],
    offset: usize,
}

impl<'a> ReadBuf<'a> {
    #[verifier::type_invariant]
    spec fn in_bounds(self) -> bool {
        self.offset <= self.data@.len()
    }

    /// The bytes that have not been read yet.
    pub closed spec fn remaining(self) -> Seq<u8> {
        self.data@.skip(self.offset as int)
    }

    /// The number of bytes that have been read.
    pub closed spec fn spec_position(self) -> nat {
        self.offset as nat
    }

    /// The whole input, read or not.
    pub closed spec fn input(self) -> Seq<u8> {
        self.data@
    }

    /// A cursor at the start of `slice`.
    pub fn from(slice: &'a [u8]) -> (buf: ReadBuf<'a>)
        ensures
            buf.remaining() == slice@,
            buf.input() == slice@,
            buf.spec_position() == 0,
    {
        ReadBuf { data: slice, offset: 0 }
    }

    /// The number of bytes read so far.
    pub fn position(&self) -> (position: usize)
        ensures
            position == self.spec_position(),
            position + self.remaining().len() == self.input().len(),
    {
        proof {
            use_type_invariant(self);
        }
        self.offset
    }

    /// The number of bytes left.
    pub fn left(&self) -> (left: usize)
        ensures
            left == self.remaining().len(),
    {
        proof {
            use_type_invariant(self);
        }
        self.data.len() - self.offset
    }

    /// Whether every byte has been read.
    pub fn is_end(&self) -> (end: bool)
        ensures
            end == (self.remaining().len() == 0),
    {
        self.left() == 0
    }

    /// Succeeds when every byte has been read.
    pub fn expect_end(&self) -> (result: Result<(), ReadError>)
        ensures
            self.remaining().len() == 0 ==> result is Ok,
            self.remaining().len() != 0 ==> result is Err && result->Err_0@
                == ReadErrorView::UnconsumedData(self.remaining().len() as usize),
    {
        let left = self.left();
        if left == 0 {
            Ok(())
        } else {
            Err(ReadError::UnconsumedData(left))
        }
    }

    /// The next byte, which stays unread.
    pub fn peek_u8(&self) -> (result: Result<u8, ReadError>)
        ensures
            self.remaining().len() >= 1 ==> result == Ok::<u8, ReadError>(self.remaining()[0]),
            self.remaining().len() < 1 ==> result is Err && result->Err_0@
                == ReadErrorView::NotEnoughBytes(0, 1),
    {
        proof {
            use_type_invariant(self);
        }
        if self.data.len() - self.offset >= 1 {
            Ok(self.data[self.offset])
        } else {
            Err(ReadError::NotEnoughBytes(0, 1))
        }
    }

    /// Reads the next byte.
    pub fn get_u8(&mut self) -> (result: Result<u8, ReadError>)
        ensures
            final(self).input() == old(self).input(),
            old(self).remaining().len() >= 1 ==> result == Ok::<u8, ReadError>(
                old(self).remaining()[0],
            ) && final(self).remaining() == old(self).remaining().skip(1),
            old(self).remaining().len() < 1 ==> result is Err && result->Err_0@
                == ReadErrorView::NotEnoughBytes(0, 1) && *final(self) == *old(self),
    {
        proof {
            use_type_invariant(&*self);
        }
        if self.data.len() - self.offset >= 1 {
            let byte = self.data[self.offset];
            self.offset = self.offset + 1;
            Ok(byte)
        } else {
            Err(ReadError::NotEnoughBytes(0, 1))
        }
    }

    /// Reads the next `size` bytes.
    pub fn get_slice(&mut self, size: usize) -> (result: Result<&'a [u8], ReadError>)
        ensures
            final(self).input() == old(self).input(),
            old(self).remaining().len() >= size ==> result is Ok && result->Ok_0@ == old(
                self,
            ).remaining().take(size as int) && final(self).remaining() == old(
                self,
            ).remaining().skip(size as int),
            old(self).remaining().len() < size ==> result is Err && result->Err_0@
                == ReadErrorView::NotEnoughBytes(old(self).remaining().len() as usize, size)
                && *final(self) == *old(self),
    {
        proof {
            use_type_invariant(&*self);
        }
        let left = self.data.len() - self.offset;
        if left >= size {
            let start = self.offset;
            let end = start + size;
            let data: &'a [u8] = self.data;
            let slice = vstd::slice::slice_subrange(data, start, end);
            self.offset = end;
            Ok(slice)
        } else {
            Err(ReadError::NotEnoughBytes(left, size))
        }
    }
}

} // verus!
