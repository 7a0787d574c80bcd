use vstd::prelude::*;

use crate::error::TlsError;

verus! {

/// The two bytes of `v` in network (big-endian) order.
pub open spec fn be_u16(v: u16) -> Seq<u8> {
    seq![(v / 256) as u8, (v % 256) as u8]
}

/// The three low bytes of `v` in network (big-endian) order.
pub open spec fn be_u24(v: u32) -> Seq<u8> {
    seq![((v / 65536) % 256) as u8, ((v / 256) % 256) as u8, (v % 256) as u8]
}

/// An output buffer of bounded capacity that handshake messages are encoded into.
///
/// Its view is the sequence of bytes written so far; `cap()` is the number of
/// bytes it can hold, and it never holds more than that. Every write either appends exactly its encoding or, when
/// the encoding does not fit, fails with `TlsError::InsufficientSpace` and
/// leaves the contents unchanged.
pub struct CryptoBuffer {
    data: Vec<u8>,
    capacity: usize,
}

impl View for CryptoBuffer {
    type V = Seq<u8>;

    closed spec fn view(&self) -> Seq<u8> {
        self.data@
    }
}

impl CryptoBuffer {
    #[verifier::type_invariant]
    closed spec fn inv(self) -> bool {
        self.data@.len() <= self.capacity
    }

    /// The number of bytes the buffer can hold in all.
    pub closed spec fn cap(&self) -> nat {
        self.capacity as nat
    }

    /// The number of bytes that can still be written.
    pub open spec fn room(&self) -> int {
        self.cap() - self@.len()
    }

    /// An empty buffer that holds at most `capacity` bytes.
    pub fn new(capacity: usize) -> (buf: Self)
        ensures
            buf@ == Seq::<u8>::empty(),
            buf.cap() == capacity,
    {
        CryptoBuffer { data: Vec::new(), capacity }
    }

    /// The number of bytes written so far; never more than the capacity.
    pub fn len(&self) -> (n: usize)
        ensures
            n == self@.len(),
            n <= self.cap(),
    {
        proof {
            use_type_invariant(self);
        }
        self.data.len()
    }

    /// Whether nothing has been written yet.
    pub fn is_empty(&self) -> (b: bool)
        ensures
            b <==> self@.len() == 0,
    {
        self.data.len() == 0
    }

    /// The number of bytes the buffer can hold in all.
    pub fn capacity(&self) -> (n: usize)
        ensures
            n == self.cap(),
    {
        self.capacity
    }

    /// The bytes written so far.
    pub fn as_slice(&self) -> (s: &[u8])
        ensures
            s@ == self@,
    {
        self.data.as_slice()
    }

    /// The number of bytes that can still be written.
    pub fn free_space(&self) -> (n: usize)
        ensures
            n == self.room(),
    {
        proof {
            use_type_invariant(self);
        }
        self.capacity - self.data.len()
    }

    fn has_room(&self, n: usize) -> (b: bool)
        ensures
            b <==> n <= self.room(),
            self.room() >= 0,
    {
        proof {
            use_type_invariant(self);
        }
        n <= self.capacity - self.data.len()
    }

    /// Moves the written bytes out, leaving the buffer empty.
    fn take_data(&mut self) -> (d: Vec<u8>)
        ensures
            d@ == old(self)@,
            final(self)@ == Seq::<u8>::empty(),
            final(self).cap() == old(self).cap(),
    {
        let mut d: Vec<u8> = Vec::new();
        std::mem::swap(&mut d, &mut self.data);
        d
    }

    /// Appends one byte.
    pub fn push(&mut self, b: u8) -> (r: Result<(), TlsError>)
        ensures
            final(self).cap() == old(self).cap(),
            r is Ok <==> old(self).room() >= 1,
            r is Ok ==> final(self)@ == old(self)@.push(b),
            r is Err ==> final(self)@ == old(self)@ && r == Err::<(), TlsError>(
                TlsError::InsufficientSpace,
            ),
    {
        if self.has_room(1) {
            let mut d = self.take_data();
            d.push(b);
            self.data = d;
            Ok(())
        } else {
            Err(TlsError::InsufficientSpace)
        }
    }

    /// Appends a 16-bit integer in network byte order.
    pub fn push_u16(&mut self, v: u16) -> (r: Result<(), TlsError>)
        ensures
            final(self).cap() == old(self).cap(),
            r is Ok <==> old(self).room() >= 2,
            r is Ok ==> final(self)@ == old(self)@ + be_u16(v),
            r is Err ==> final(self)@ == old(self)@ && r == Err::<(), TlsError>(
                TlsError::InsufficientSpace,
            ),
    {
        if self.has_room(2) {
            let mut d = self.take_data();
            d.push((v / 256) as u8);
            d.push((v % 256) as u8);
            self.data = d;
            assert(self.data@ =~= old(self)@ + be_u16(v));
            Ok(())
        } else {
            Err(TlsError::InsufficientSpace)
        }
    }

    /// Appends the three low bytes of `v` in network byte order.
    pub fn push_u24(&mut self, v: u32) -> (r: Result<(), TlsError>)
        ensures
            final(self).cap() == old(self).cap(),
            r is Ok <==> old(self).room() >= 3,
            r is Ok ==> final(self)@ == old(self)@ + be_u24(v),
            r is Err ==> final(self)@ == old(self)@ && r == Err::<(), TlsError>(
                TlsError::InsufficientSpace,
            ),
    {
        if self.has_room(3) {
            let mut d = self.take_data();
            d.push(((v / 65536) % 256) as u8);
            d.push(((v / 256) % 256) as u8);
            d.push((v % 256) as u8);
            self.data = d;
            assert(self.data@ =~= old(self)@ + be_u24(v));
            Ok(())
        } else {
            Err(TlsError::InsufficientSpace)
        }
    }

    /// Appends all of `other`.
    pub fn extend_from_slice(&mut self, other: &[u8]) -> (r: Result<(), TlsError>)
        ensures
            final(self).cap() == old(self).cap(),
            r is Ok <==> other@.len() <= old(self).room(),
            r is Ok ==> final(self)@ == old(self)@ + other@,
            r is Err ==> final(self)@ == old(self)@ && r == Err::<(), TlsError>(
                TlsError::InsufficientSpace,
            ),
    {
        if self.has_room(other.len()) {
            let mut d = self.take_data();
            let mut i: usize = 0;
            while i < other.len()
                invariant
                    i <= other@.len(),
                    d@ == old(self)@ + other@.subrange(0, i as int),
                decreases other@.len() - i,
            {
                d.push(other[i]);
                i = i + 1;
                assert(d@ =~= old(self)@ + other@.subrange(0, i as int));
            }
            assert(other@.subrange(0, other@.len() as int) =~= other@);
            self.data = d;
            Ok(())
        } else {
            Err(TlsError::InsufficientSpace)
        }
    }
}

} // verus!

verus! {

/// A write of `enc` into `before` that either appends all of it or, when it
/// does not fit, fails with `EncodeError` and leaves the buffer as it was.
pub open spec fn writes_all_or_nothing(
    before: CryptoBuffer,
    after: CryptoBuffer,
    enc: Seq<u8>,
    r: Result<(), TlsError>,
) -> bool {
    &&& after.cap() == before.cap()
    &&& (r is Ok <==> enc.len() <= before.room())
    &&& r is Ok ==> after@ == before@ + enc
    &&& r is Err ==> after@ == before@ && r == Err::<(), TlsError>(TlsError::EncodeError)
}

impl CryptoBuffer {
    /// Appends all of `bytes`, or fails with `EncodeError` and writes nothing.
    pub fn encode_bytes(&mut self, bytes: &[u8]) -> (r: Result<(), TlsError>)
        ensures
            writes_all_or_nothing(*old(self), *final(self), bytes@, r),
    {
        match self.extend_from_slice(bytes) {
            Ok(()) => Ok(()),
            Err(_) => Err(TlsError::EncodeError),
        }
    }
}

} // verus!
