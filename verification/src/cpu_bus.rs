//! The memory bus: a flat 64 KiB address space.

use vstd::prelude::*;
use crate::bytes::{high, high_byte, low, low_byte, make_word, word};

verus! {

/// Number of addressable bytes.
pub const ADDRESS_SPACE: usize = 0x10000;

/// The little-endian word that `mem` holds at `addr` and the address after
/// it.
pub open spec fn word_at(mem: Seq<u8>, addr: u16) -> u16 {
    word(mem[addr as int], mem[addr.wrapping_add(1) as int])
}

/// The little-endian word that `mem` holds at `ptr`, with the high byte
/// taken from the page of `ptr`: after $xxFF comes $xx00.
pub open spec fn word_in_page(mem: Seq<u8>, ptr: u16) -> u16 {
    word(mem[ptr as int], mem[word(low(ptr).wrapping_add(1), high(ptr)) as int])
}

/// The memory the processor reads from and writes to.
pub struct Bus {
    ram: Vec<u8>,
}

impl View for Bus {
    type V = Seq<u8>;

    /// The 65536 bytes of memory, by address.
    closed spec fn view(&self) -> Seq<u8> {
        self.ram@
    }
}

impl Bus {
    /// Every address has a byte behind it.
    pub open spec fn wf(&self) -> bool {
        self@.len() == ADDRESS_SPACE
    }

    /// A bus whose memory is all zero.
    pub fn new() -> (bus: Self)
        ensures
            bus.wf(),
            forall|a: int| 0 <= a < ADDRESS_SPACE ==> bus@[a] == 0,
    {
        Bus { ram: vec![0u8; ADDRESS_SPACE] }
    }

    /// The byte at `addr`.
    pub fn read(&self, addr: u16) -> (byte: u8)
        requires
            self.wf(),
        ensures
            byte == self@[addr as int],
    {
        self.ram[addr as usize]
    }

    /// The little-endian word at `addr` and the address after it, which
    /// after $FFFF is $0000.
    pub fn read_word(&self, addr: u16) -> (w: u16)
        requires
            self.wf(),
        ensures
            w == word_at(self@, addr),
    {
        make_word(self.read(addr), self.read(addr.wrapping_add(1)))
    }

    /// The little-endian word at `ptr` whose high byte comes from the page
    /// of `ptr`: after $xxFF it is read at $xx00.
    pub fn read_word_in_page(&self, ptr: u16) -> (w: u16)
        requires
            self.wf(),
        ensures
            w == word_in_page(self@, ptr),
    {
        let lo = self.read(ptr);
        let hi = self.read(make_word(low_byte(ptr).wrapping_add(1), high_byte(ptr)));
        make_word(lo, hi)
    }

    /// Stores `byte` at `addr` and touches nothing else.
    pub fn write(&mut self, addr: u16, byte: u8)
        requires
            old(self).wf(),
        ensures
            final(self)@ == old(self)@.update(addr as int, byte),
            final(self).wf(),
    {
        self.ram.set(addr as usize, byte);
    }
}

} // verus!
