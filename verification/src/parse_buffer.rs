use vstd::prelude::*;

use crate::error::ParseError;

verus! {

/// The number that two bytes denote in network (big-endian) order.
pub open spec fn be_value2(b0: u8, b1: u8) -> int {
    b0 * 256 + b1
}

/// The number that three bytes denote in network (big-endian) order.
pub open spec fn be_value3(b0: u8, b1: u8, b2: u8) -> int {
    b0 * 65536 + b1 * 256 + b2
}

/// A cursor over a received byte string.
///
/// `data()` is the whole underlying buffer and `pos()` the number of bytes
/// already consumed; `rest()` is what is left to read. Every read either
/// consumes exactly the bytes it returns or fails with
/// `ParseError::InsufficientBytes` and consumes nothing.
pub struct ParseBuffer<'b> {
    pos: usize,
    buffer: &'b [u8],
}

impl<'b> ParseBuffer<'b> {
    #[verifier::type_invariant]
    closed spec fn inv(self) -> bool {
        self.pos <= self.buffer@.len()
    }

    /// The whole underlying buffer, read or not.
    pub closed spec fn data(&self) -> Seq<u8> {
        self.buffer@
    }

    /// The number of bytes consumed so far.
    pub closed spec fn pos(&self) -> int {
        self.pos as int
    }

    /// The bytes not yet consumed.
    pub open spec fn rest(&self) -> Seq<u8> {
        if 0 <= self.pos() <= self.data().len() {
            self.data().subrange(self.pos(), self.data().len() as int)
        } else {
            Seq::empty()
        }
    }

    /// A cursor at the start of `buffer`.
    pub fn new(buffer: &'b [u8]) -> (pb: Self)
        ensures
            pb.data() == buffer@,
            pb.pos() == 0,
            pb.rest() == buffer@,
    {
        let pb = ParseBuffer { pos: 0, buffer };
        assert(pb.rest() =~= buffer@);
        pb
    }

    /// The whole underlying buffer, including what was already consumed.
    pub fn as_slice(&self) -> (s: &'b [u8])
        ensures
            s@ == self.data(),
    {
        self.buffer
    }

    /// The number of bytes consumed so far.
    pub fn offset(&self) -> (n: usize)
        ensures
            n == self.pos(),
    {
        self.pos
    }

    /// The number of bytes left to read.
    pub fn remaining(&self) -> (n: usize)
        ensures
            n == self.rest().len(),
    {
        proof {
            use_type_invariant(self);
        }
        self.buffer.len() - self.pos
    }

    /// Whether every byte has been consumed.
    pub fn is_empty(&self) -> (b: bool)
        ensures
            b <==> self.rest().len() == 0,
    {
        self.remaining() == 0
    }

    /// Reads one byte.
    pub fn read_u8(&mut self) -> (r: Result<u8, ParseError>)
        ensures
            final(self).data() == old(self).data(),
            r is Ok <==> old(self).rest().len() >= 1,
            r matches Ok(b) ==> b == old(self).rest()[0] && final(self).pos() == old(self).pos()
                + 1 && final(self).rest() == old(self).rest().skip(1),
            r is Err ==> *final(self) == *old(self) && r == Err::<u8, ParseError>(
                ParseError::InsufficientBytes,
            ),
    {
        if self.remaining() >= 1 {
            let b = self.buffer[self.pos];
            self.pos = self.pos + 1;
            assert(self.rest() =~= old(self).rest().skip(1));
            Ok(b)
        } else {
            Err(ParseError::InsufficientBytes)
        }
    }

    /// Reads a 16-bit integer in network byte order.
    pub fn read_u16(&mut self) -> (r: Result<u16, ParseError>)
        ensures
            final(self).data() == old(self).data(),
            r is Ok <==> old(self).rest().len() >= 2,
            r matches Ok(v) ==> v == be_value2(old(self).rest()[0], old(self).rest()[1])
                && final(self).pos() == old(self).pos() + 2 && final(self).rest() == old(
                self,
            ).rest().skip(2),
            r is Err ==> *final(self) == *old(self) && r == Err::<u16, ParseError>(
                ParseError::InsufficientBytes,
            ),
    {
        if self.remaining() >= 2 {
            let b0 = self.buffer[self.pos];
            let b1 = self.buffer[self.pos + 1];
            self.pos = self.pos + 2;
            assert(self.rest() =~= old(self).rest().skip(2));
            Ok(b0 as u16 * 256 + b1 as u16)
        } else {
            Err(ParseError::InsufficientBytes)
        }
    }

    /// Reads a 24-bit integer in network byte order.
    pub fn read_u24(&mut self) -> (r: Result<u32, ParseError>)
        ensures
            final(self).data() == old(self).data(),
            r is Ok <==> old(self).rest().len() >= 3,
            r matches Ok(v) ==> v == be_value3(
                old(self).rest()[0],
                old(self).rest()[1],
                old(self).rest()[2],
            ) && final(self).pos() == old(self).pos() + 3 && final(self).rest() == old(
                self,
            ).rest().skip(3),
            r is Err ==> *final(self) == *old(self) && r == Err::<u32, ParseError>(
                ParseError::InsufficientBytes,
            ),
    {
        if self.remaining() >= 3 {
            let b0 = self.buffer[self.pos];
            let b1 = self.buffer[self.pos + 1];
            let b2 = self.buffer[self.pos + 2];
            self.pos = self.pos + 3;
            assert(self.rest() =~= old(self).rest().skip(3));
            Ok(b0 as u32 * 65536 + b1 as u32 * 256 + b2 as u32)
        } else {
            Err(ParseError::InsufficientBytes)
        }
    }

    /// Consumes the next `len` bytes and returns a cursor over them.
    pub fn slice(&mut self, len: usize) -> (r: Result<ParseBuffer<'b>, ParseError>)
        ensures
            final(self).data() == old(self).data(),
            r is Ok <==> len <= old(self).rest().len(),
            r matches Ok(sub) ==> sub.data() == old(self).rest().take(len as int) && sub.pos()
                == 0 && final(self).pos() == old(self).pos() + len && final(self).rest() == old(
                self,
            ).rest().skip(len as int),
            r is Err ==> *final(self) == *old(self) && r == Err::<ParseBuffer<'b>, ParseError>(
                ParseError::InsufficientBytes,
            ),
    {
        proof {
            use_type_invariant(&*self);
        }
        if len <= self.buffer.len() - self.pos {
            let start = self.pos;
            let s = vstd::slice::slice_subrange(self.buffer, start, start + len);
            self.pos = start + len;
            assert(s@ =~= old(self).rest().take(len as int));
            assert(self.rest() =~= old(self).rest().skip(len as int));
            Ok(ParseBuffer::new(s))
        } else {
            Err(ParseError::InsufficientBytes)
        }
    }
}

} // verus!
