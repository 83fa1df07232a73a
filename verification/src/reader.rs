//! A sequential cursor over a byte slice: read exactly `n` bytes or fail,
//! plus little-endian integer reads for length prefixes and record fields.

use vstd::prelude::*;
use vstd::bytes::{spec_u32_from_le_bytes, u32_from_le_bytes};
use vstd::slice::{slice_subrange, slice_to_vec};

use crate::evtc::DecodeError;

verus! {

/// A forward-only cursor over a byte slice.  Reads either return exactly the
/// requested bytes and advance the position, or fail with
/// [`DecodeError::TruncatedInput`] and leave the position unchanged.
pub struct Reader<'a> {
    data: &'a [u8],
    pos: usize,
}

impl<'a> Reader<'a> {
    /// The whole underlying byte sequence.
    pub closed spec fn bytes(self) -> Seq<u8> {
        self.data@
    }

    /// The current read position.
    pub closed spec fn position(self) -> int {
        self.pos as int
    }

    /// The position never runs past the end of the data.
    pub open spec fn wf(self) -> bool {
        0 <= self.position() <= self.bytes().len()
    }

    /// How many bytes are left to read.
    pub open spec fn remaining(self) -> int {
        self.bytes().len() - self.position()
    }

    pub fn new(data: &'a [u8]) -> (r: Self)
        ensures
            r.wf(),
            r.bytes() == data@,
            r.position() == 0,
    {
        Reader { data, pos: 0 }
    }

    /// How many bytes are left to read.
    pub fn remaining_len(&self) -> (n: usize)
        requires
            self.wf(),
        ensures
            n == self.remaining(),
    {
        self.data.len() - self.pos
    }

    /// Read exactly `n` bytes, or fail without moving if fewer remain.
    pub fn read_exact(&mut self, n: usize) -> (r: Result<Vec<u8>, DecodeError>)
        requires
            old(self).wf(),
        ensures
            final(self).wf(),
            final(self).bytes() == old(self).bytes(),
            old(self).remaining() >= n ==> {
                &&& (r matches Ok(v) && v@ == old(self).bytes().subrange(
                    old(self).position(),
                    old(self).position() + n,
                ))
                &&& final(self).position() == old(self).position() + n
            },
            old(self).remaining() < n ==> {
                &&& r == Err::<Vec<u8>, DecodeError>(DecodeError::TruncatedInput)
                &&& final(self).position() == old(self).position()
            },
    {
        if n > self.data.len() - self.pos {
            Err(DecodeError::TruncatedInput)
        } else {
            let start = self.pos;
            self.pos = self.pos + n;
            let piece = slice_subrange(self.data, start, start + n);
            Ok(slice_to_vec(piece))
        }
    }

    /// Read a little-endian unsigned 32-bit integer.
    pub fn read_u32_le(&mut self) -> (r: Result<u32, DecodeError>)
        requires
            old(self).wf(),
        ensures
            final(self).wf(),
            final(self).bytes() == old(self).bytes(),
            old(self).remaining() >= 4 ==> {
                &&& (r matches Ok(x) && x == spec_u32_from_le_bytes(
                    old(self).bytes().subrange(old(self).position(), old(self).position() + 4),
                ))
                &&& final(self).position() == old(self).position() + 4
            },
            old(self).remaining() < 4 ==> {
                &&& r == Err::<u32, DecodeError>(DecodeError::TruncatedInput)
                &&& final(self).position() == old(self).position()
            },
    {
        if 4 > self.data.len() - self.pos {
            Err(DecodeError::TruncatedInput)
        } else {
            let start = self.pos;
            self.pos = self.pos + 4;
            let piece = slice_subrange(self.data, start, start + 4);
            Ok(u32_from_le_bytes(piece))
        }
    }

    /// Read every remaining byte.
    pub fn read_to_end(&mut self) -> (r: Vec<u8>)
        requires
            old(self).wf(),
        ensures
            final(self).wf(),
            final(self).bytes() == old(self).bytes(),
            r@ == old(self).bytes().subrange(old(self).position(), old(self).bytes().len() as int),
            final(self).position() == old(self).bytes().len(),
    {
        let start = self.pos;
        self.pos = self.data.len();
        let piece = slice_subrange(self.data, start, self.data.len());
        slice_to_vec(piece)
    }
}

} // verus!
