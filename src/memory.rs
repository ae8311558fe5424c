use vstd::prelude::*;

use crate::bus::word_of;

verus! {

/// Number of bytes a flat memory holds: addresses 0x0000..=0xFFFE.
pub const MAP_SIZE: usize = 0xFFFF;

/// Where `load_program` places a program.
pub const PROGRAM_START: usize = 0x8000;

/// A flat, unmapped memory: every address names its own byte.
pub struct MemoryMap {
    map: Vec<u8>,
}

impl View for MemoryMap {
    type V = Seq<u8>;

    closed spec fn view(&self) -> Seq<u8> {
        self.map@
    }
}

impl MemoryMap {
    pub open spec fn wf(&self) -> bool {
        self@.len() == MAP_SIZE
    }

    /// A zeroed memory.
    pub fn new() -> (r: MemoryMap)
        ensures
            r.wf(),
            r@ == Seq::new(0xFFFF, |i: int| 0u8),
    {
        let r = MemoryMap { map: vec![0u8; MAP_SIZE] };
        assert(r@ =~= Seq::new(0xFFFF, |i: int| 0u8));
        r
    }

    /// The byte at `addr`.
    pub fn read_byte(&self, addr: u16) -> (r: u8)
        requires
            self.wf(),
            addr < MAP_SIZE,
        ensures
            r == self@[addr as int],
    {
        self.map[addr as usize]
    }

    /// The little-endian word at `addr` and `addr + 1`.
    pub fn read_word(&self, addr: u16) -> (r: u16)
        requires
            self.wf(),
            addr + 1 < MAP_SIZE,
        ensures
            r == word_of(self@[addr as int], self@[addr + 1]),
    {
        let lo = self.read_byte(addr) as u16;
        let hi = self.read_byte(addr + 1) as u16;
        hi * 256 + lo
    }

    /// Stores `byte` at `addr`.
    pub fn write_byte(&mut self, addr: u16, byte: u8)
        requires
            old(self).wf(),
            addr < MAP_SIZE,
        ensures
            final(self)@ == old(self)@.update(addr as int, byte),
    {
        self.map.set(addr as usize, byte);
    }

    /// Stores `word` little-endian at `addr` and `addr + 1`.
    pub fn write_word(&mut self, addr: u16, word: u16)
        requires
            old(self).wf(),
            addr + 1 < MAP_SIZE,
        ensures
            final(self)@ == old(self)@.update(addr as int, (word % 256) as u8).update(
                addr + 1,
                (word / 256) as u8,
            ),
    {
        self.write_byte(addr, (word % 256) as u8);
        self.write_byte(addr + 1, (word / 256) as u8);
    }

    /// Copies `program` to the bytes from 0x8000 on; the rest is kept.
    pub fn load_program(&mut self, program: Vec<u8>)
        requires
            old(self).wf(),
            PROGRAM_START + program.len() <= MAP_SIZE,
        ensures
            final(self)@ == old(self)@.subrange(0, 0x8000) + program@ + old(self)@.subrange(
                0x8000 + program.len(),
                0xFFFF,
            ),
    {
        let ghost before = self@;
        let mut i: usize = 0;
        while i < program.len()
            invariant
                self.wf(),
                PROGRAM_START + program.len() <= MAP_SIZE,
                i <= program.len(),
                forall|k: int| 0 <= k < 0x8000 ==> self@[k] == before[k],
                forall|k: int| 0 <= k < i ==> self@[0x8000 + k] == program@[k],
                forall|k: int| 0x8000 + i <= k < 0xFFFF ==> self@[k] == before[k],
            decreases program.len() - i,
        {
            self.map.set(PROGRAM_START + i, program[i]);
            i = i + 1;
        }
        assert(self@ =~= before.subrange(0, 0x8000) + program@ + before.subrange(
            0x8000 + program.len(),
            0xFFFF,
        ));
    }
}

} // verus!
