//! A contiguous byte buffer mapped at a base address.

use vstd::prelude::*;

verus! {

/// A sized byte buffer plus the address of its first byte.
pub struct Ram {
    pub buffer: Vec<u8>,
    pub address_offset: u16,
}

impl View for Ram {
    type V = Seq<u8>;

    open spec fn view(&self) -> Seq<u8> {
        self.buffer@
    }
}

/// Little-endian composition of two bytes.
pub open spec fn word_of(lo: u8, hi: u8) -> u16 {
    (hi as u16 * 256 + lo as u16) as u16
}

impl Ram {
    /// Whether `address` falls inside the region.
    pub open spec fn covers(&self, address: int) -> bool {
        self.address_offset <= address < self.address_offset + self@.len()
    }

    pub open spec fn index_of(&self, address: int) -> int {
        address - self.address_offset
    }

    /// A zero-filled region of `size` bytes starting at `address_offset`.
    pub fn new(size: usize, address_offset: u16) -> (r: Ram)
        ensures
            r@ == Seq::new(size as nat, |i: int| 0u8),
            r.address_offset == address_offset,
    {
        let mut buffer: Vec<u8> = Vec::new();
        while buffer.len() < size
            invariant
                buffer.len() <= size,
                forall|i: int| 0 <= i < buffer.len() ==> buffer@[i] == 0u8,
            decreases size - buffer.len(),
        {
            buffer.push(0u8);
        }
        assert(buffer@ =~= Seq::new(size as nat, |i: int| 0u8));
        Ram { buffer, address_offset }
    }

    pub fn fetch8(&self, address: u16) -> (r: u8)
        requires
            self.covers(address as int),
        ensures
            r == self@[self.index_of(address as int)],
    {
        self.buffer[(address - self.address_offset) as usize]
    }

    /// Reads the little-endian word whose low byte is at `address`.
    pub fn fetch16(&self, address: u16) -> (r: u16)
        requires
            self.covers(address as int),
            self.covers(address + 1),
        ensures
            r == word_of(
                self@[self.index_of(address as int)],
                self@[self.index_of(address + 1)],
            ),
    {
        let i = (address - self.address_offset) as usize;
        let lo = self.buffer[i];
        let hi = self.buffer[i + 1];
        hi as u16 * 256 + lo as u16
    }

    pub fn write8(&mut self, address: u16, value: u8)
        requires
            old(self).covers(address as int),
        ensures
            final(self)@ == old(self)@.update(old(self).index_of(address as int), value),
            final(self).address_offset == old(self).address_offset,
    {
        let i = (address - self.address_offset) as usize;
        self.buffer.set(i, value);
    }

    /// Writes `value` little-endian: low byte at `address`, high byte after it.
    pub fn write16(&mut self, address: u16, value: u16)
        requires
            old(self).covers(address as int),
            old(self).covers(address + 1),
        ensures
            final(self)@ == old(self)@.update(old(self).index_of(address as int), (value % 256) as u8)
                .update(old(self).index_of(address + 1), (value / 256) as u8),
            final(self).address_offset == old(self).address_offset,
    {
        let i = (address - self.address_offset) as usize;
        self.buffer.set(i, (value % 256) as u8);
        self.buffer.set(i + 1, (value / 256) as u8);
    }
}

} // verus!
