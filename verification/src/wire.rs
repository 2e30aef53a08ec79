//! Big-endian integers at fixed positions of a datagram.

use vstd::prelude::*;

verus! {

/// The unsigned 16-bit value whose big-endian encoding starts at `at`.
pub open spec fn be_u16(s: Seq<u8>, at: int) -> int {
    s[at] * 0x100 + s[at + 1]
}

/// The unsigned 32-bit value whose big-endian encoding starts at `at`.
pub open spec fn be_u32(s: Seq<u8>, at: int) -> int {
    s[at] * 0x100_0000 + s[at + 1] * 0x1_0000 + s[at + 2] * 0x100 + s[at + 3]
}

/// The value of a byte read as a two's-complement signed integer.
pub open spec fn signed(b: u8) -> int {
    if b < 0x80 {
        b as int
    } else {
        b - 0x100
    }
}

/// A read position in a datagram. Fields are taken one after another; each
/// read returns the field that starts at the position and moves past it.
pub(crate) struct Cursor<'a> {
    bytes: &'a [u8],
    at: usize,
}

impl<'a> Cursor<'a> {
    /// The datagram being read.
    pub(crate) closed spec fn data(&self) -> Seq<u8> {
        self.bytes@
    }

    /// The position of the next field.
    pub(crate) closed spec fn position(&self) -> int {
        self.at as int
    }

    /// The position never lies past the end of the datagram.
    pub(crate) closed spec fn wf(&self) -> bool {
        self.at <= self.bytes@.len()
    }

    /// At least `n` bytes lie between the position and the end.
    pub(crate) open spec fn can_take(&self, n: int) -> bool {
        self.wf() && self.position() + n <= self.data().len()
    }

    /// This cursor reads the same datagram as `before` and stands `n` bytes
    /// further on.
    pub(crate) open spec fn moved(&self, before: &Self, n: int) -> bool {
        &&& self.wf()
        &&& self.data() == before.data()
        &&& self.position() == before.position() + n
    }

    /// A cursor on `bytes` that stands at `at`.
    pub(crate) fn new(bytes: &'a [u8], at: usize) -> (c: Self)
        requires
            at <= bytes@.len(),
        ensures
            c.wf(),
            c.data() == bytes@,
            c.position() == at,
    {
        Cursor { bytes, at }
    }

    /// Reads one unsigned byte.
    pub(crate) fn take_u8(&mut self) -> (v: u8)
        requires
            old(self).can_take(1),
        ensures
            final(self).moved(old(self), 1),
            v == old(self).data()[old(self).position()],
    {
        let v = self.bytes[self.at];
        self.at = self.at + 1;
        v
    }

    /// Reads one signed byte.
    pub(crate) fn take_i8(&mut self) -> (v: i8)
        requires
            old(self).can_take(1),
        ensures
            final(self).moved(old(self), 1),
            v == signed(old(self).data()[old(self).position()]),
    {
        let b = self.take_u8();
        if b < 0x80 {
            b as i8
        } else {
            let low: u8 = b - 0x80;
            (low as i8) - 0x7f - 1
        }
    }

    /// Reads a big-endian unsigned 16-bit integer.
    pub(crate) fn take_u16(&mut self) -> (v: u16)
        requires
            old(self).can_take(2),
        ensures
            final(self).moved(old(self), 2),
            v == be_u16(old(self).data(), old(self).position()),
    {
        let hi = self.take_u8();
        let lo = self.take_u8();
        (hi as u16) * 0x100 + (lo as u16)
    }

    /// Reads a big-endian unsigned 32-bit integer.
    pub(crate) fn take_u32(&mut self) -> (v: u32)
        requires
            old(self).can_take(4),
        ensures
            final(self).moved(old(self), 4),
            v == be_u32(old(self).data(), old(self).position()),
    {
        let b0 = self.take_u8();
        let b1 = self.take_u8();
        let b2 = self.take_u8();
        let b3 = self.take_u8();
        (b0 as u32) * 0x100_0000 + (b1 as u32) * 0x1_0000 + (b2 as u32) * 0x100 + (b3 as u32)
    }
}

} // verus!
