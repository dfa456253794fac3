use vstd::prelude::*;

use crate::error::Error;

verus! {

/// A position-tracking view over an immutable byte buffer.
///
/// Reads consume bytes front to back and advance the position; a read that
/// would run past the end of the buffer fails with
/// [`Error::NotEnoughBytes`] and leaves the cursor where it was.
pub struct Cursor<'a> {
    bytes: &'a [u8],
    pos: usize,
}

/// The value of a two-byte little-endian integer whose wire bytes are
/// `lo` then `hi`.
pub open spec fn le16(lo: u8, hi: u8) -> int {
    lo + 256 * hi
}

impl<'a> Cursor<'a> {
    /// The whole underlying buffer.
    pub closed spec fn spec_bytes(self) -> Seq<u8> {
        self.bytes@
    }

    /// The current read position into the buffer.
    pub closed spec fn spec_pos(self) -> int {
        self.pos as int
    }

    /// The position never runs past the end of the buffer.
    pub open spec fn wf(self) -> bool {
        0 <= self.spec_pos() <= self.spec_bytes().len()
    }

    /// How many bytes remain to be read.
    pub open spec fn spec_remaining(self) -> int {
        self.spec_bytes().len() - self.spec_pos()
    }

    /// A fresh cursor positioned at the start of `bytes`.
    pub fn new(bytes: &'a [u8]) -> (r: Cursor<'a>)
        ensures
            r.wf(),
            r.spec_bytes() == bytes@,
            r.spec_pos() == 0,
    {
        Cursor { bytes, pos: 0 }
    }

    /// How many bytes remain to be read.
    pub fn remaining(&self) -> (r: usize)
        requires
            self.wf(),
        ensures
            r == self.spec_remaining(),
    {
        self.bytes.len() - self.pos
    }

    /// The current read position into the buffer.
    pub fn position(&self) -> (r: usize)
        ensures
            r == self.spec_pos(),
    {
        self.pos
    }

    /// Reads one byte and advances by one; fails on an empty remainder.
    pub fn try_get_u8(&mut self) -> (r: Result<u8, Error>)
        requires
            old(self).wf(),
        ensures
            final(self).wf(),
            final(self).spec_bytes() == old(self).spec_bytes(),
            match r {
                Ok(b) => old(self).spec_remaining() >= 1
                    && b == old(self).spec_bytes()[old(self).spec_pos()]
                    && final(self).spec_pos() == old(self).spec_pos() + 1,
                Err(e) => e == Error::NotEnoughBytes
                    && old(self).spec_remaining() == 0
                    && final(self).spec_pos() == old(self).spec_pos(),
            },
    {
        if self.pos < self.bytes.len() {
            let b = self.bytes[self.pos];
            self.pos = self.pos + 1;
            Ok(b)
        } else {
            Err(Error::NotEnoughBytes)
        }
    }

    /// Reads a two-byte little-endian integer and advances by two; fails,
    /// without advancing, when fewer than two bytes remain.
    pub fn try_get_u16_le(&mut self) -> (r: Result<u16, Error>)
        requires
            old(self).wf(),
        ensures
            final(self).wf(),
            final(self).spec_bytes() == old(self).spec_bytes(),
            match r {
                Ok(v) => old(self).spec_remaining() >= 2
                    && v == le16(
                        old(self).spec_bytes()[old(self).spec_pos()],
                        old(self).spec_bytes()[old(self).spec_pos() + 1],
                    )
                    && final(self).spec_pos() == old(self).spec_pos() + 2,
                Err(e) => e == Error::NotEnoughBytes
                    && old(self).spec_remaining() < 2
                    && final(self).spec_pos() == old(self).spec_pos(),
            },
    {
        if self.bytes.len() - self.pos >= 2 {
            let lo = self.bytes[self.pos];
            let hi = self.bytes[self.pos + 1];
            self.pos = self.pos + 2;
            Ok(lo as u16 + 256 * (hi as u16))
        } else {
            Err(Error::NotEnoughBytes)
        }
    }

    /// Reads a two-byte field and returns its bytes in reversed order,
    /// correcting the wire's least-significant-byte-first transmission into
    /// natural display order. Fails atomically, without advancing, when
    /// fewer than two bytes remain.
    pub fn try_get_rev2(&mut self) -> (r: Result<[u8; 2], Error>)
        requires
            old(self).wf(),
        ensures
            final(self).wf(),
            final(self).spec_bytes() == old(self).spec_bytes(),
            match r {
                Ok(a) => old(self).spec_remaining() >= 2
                    && a@ == old(self).spec_bytes().subrange(
                        old(self).spec_pos(),
                        old(self).spec_pos() + 2,
                    ).reverse()
                    && final(self).spec_pos() == old(self).spec_pos() + 2,
                Err(e) => e == Error::NotEnoughBytes
                    && old(self).spec_remaining() < 2
                    && final(self).spec_pos() == old(self).spec_pos(),
            },
    {
        if self.bytes.len() - self.pos >= 2 {
            let p = self.pos;
            let a: [u8; 2] = [self.bytes[p + 1], self.bytes[p]];
            self.pos = p + 2;
            proof {
                assert(a@ =~= old(self).spec_bytes().subrange(
                    old(self).spec_pos(),
                    old(self).spec_pos() + 2,
                ).reverse());
            }
            Ok(a)
        } else {
            Err(Error::NotEnoughBytes)
        }
    }

    /// Reads an eight-byte field and returns its bytes in reversed order,
    /// correcting the wire's least-significant-byte-first transmission into
    /// natural display order. Fails atomically, without advancing, when
    /// fewer than eight bytes remain.
    pub fn try_get_rev8(&mut self) -> (r: Result<[u8; 8], Error>)
        requires
            old(self).wf(),
        ensures
            final(self).wf(),
            final(self).spec_bytes() == old(self).spec_bytes(),
            match r {
                Ok(a) => old(self).spec_remaining() >= 8
                    && a@ == old(self).spec_bytes().subrange(
                        old(self).spec_pos(),
                        old(self).spec_pos() + 8,
                    ).reverse()
                    && final(self).spec_pos() == old(self).spec_pos() + 8,
                Err(e) => e == Error::NotEnoughBytes
                    && old(self).spec_remaining() < 8
                    && final(self).spec_pos() == old(self).spec_pos(),
            },
    {
        if self.bytes.len() - self.pos >= 8 {
            let p = self.pos;
            let a: [u8; 8] = [
                self.bytes[p + 7],
                self.bytes[p + 6],
                self.bytes[p + 5],
                self.bytes[p + 4],
                self.bytes[p + 3],
                self.bytes[p + 2],
                self.bytes[p + 1],
                self.bytes[p],
            ];
            self.pos = p + 8;
            proof {
                assert(a@ =~= old(self).spec_bytes().subrange(
                    old(self).spec_pos(),
                    old(self).spec_pos() + 8,
                ).reverse());
            }
            Ok(a)
        } else {
            Err(Error::NotEnoughBytes)
        }
    }
}

} // verus!
