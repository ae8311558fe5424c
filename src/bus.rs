use std::rc::Rc;
use vstd::prelude::*;

use crate::fault::Fault;
use crate::rom::ROM;

verus! {

/// Size of internal RAM; the RAM window repeats with this period.
pub const RAM_SIZE: usize = 0x0800;

/// Size of one program-ROM bank.
pub const PRG_BANK_SIZE: usize = 0x4000;

/// A program-ROM buffer the address space accepts: one or two banks.
pub open spec fn valid_prg_len(len: nat) -> bool {
    len == 0x4000 || len == 0x8000
}

/// Index into RAM that `addr` (in the RAM window) maps to.
pub open spec fn ram_index(addr: u16) -> int {
    (addr as int) % 0x0800
}

/// Index into a program ROM of `len` bytes that `addr` (at or above 0x8000) maps to.
pub open spec fn prg_index(addr: u16, len: nat) -> int {
    (addr as int - 0x8000) % (len as int)
}

/// The fault that any access to `addr` outside RAM and program ROM raises.
pub open spec fn window_fault(addr: u16) -> Option<Fault> {
    if addr <= 0x1FFF {
        None
    } else if addr <= 0x401F {
        Some(Fault::UnmappedRegion { address: addr })
    } else if addr <= 0x7FFF {
        Some(Fault::ForbiddenRegion { address: addr })
    } else {
        None
    }
}

/// The fault that a write to `addr` raises, if any.
pub open spec fn write_fault(addr: u16) -> Option<Fault> {
    if addr >= 0x8000 {
        Some(Fault::ReadOnlyRegion { address: addr })
    } else {
        window_fault(addr)
    }
}

/// What a read of `addr` yields, given the RAM and program-ROM contents.
#[verifier::opaque]
pub open spec fn byte_in(ram: Seq<u8>, prg: Seq<u8>, addr: u16) -> Result<u8, Fault> {
    if addr <= 0x1FFF {
        Ok(ram[ram_index(addr)])
    } else if addr >= 0x8000 {
        Ok(prg[prg_index(addr, prg.len())])
    } else {
        Err(window_fault(addr).unwrap())
    }
}

/// The address one past `addr`, wrapping from 0xFFFF to 0x0000.
pub open spec fn next_addr(addr: u16) -> u16 {
    ((addr as int + 1) % 0x10000) as u16
}

/// Little-endian composition of two bytes.
pub open spec fn word_of(lo: u8, hi: u8) -> u16 {
    (hi as int * 256 + lo as int) as u16
}

/// The address space: 2 KiB of RAM, mirrored over 0x0000..=0x1FFF, and a
/// shared program ROM, mirrored over 0x8000..=0xFFFF.
pub struct Bus {
    ram: Vec<u8>,
    prg_rom: Rc<Vec<u8>>,
}

impl Bus {
    /// Contents of RAM.
    pub closed spec fn ram(&self) -> Seq<u8> {
        self.ram@
    }

    /// Contents of program ROM.
    pub closed spec fn prg(&self) -> Seq<u8> {
        self.prg_rom@
    }

    pub open spec fn wf(&self) -> bool {
        &&& self.ram().len() == RAM_SIZE
        &&& valid_prg_len(self.prg().len())
    }

    /// What a read of `addr` yields in this state.
    pub open spec fn byte_at(&self, addr: u16) -> Result<u8, Fault> {
        byte_in(self.ram(), self.prg(), addr)
    }

    /// What a 16-bit read at `addr` yields: the byte at `addr` is the low
    /// half, the byte at the next address the high half; the first fault wins.
    pub open spec fn word_at(&self, addr: u16) -> Result<u16, Fault> {
        match self.byte_at(addr) {
            Err(e) => Err(e),
            Ok(lo) => match self.byte_at(next_addr(addr)) {
                Err(e) => Err(e),
                Ok(hi) => Ok(word_of(lo, hi)),
            },
        }
    }

    /// Builds the address space over a cartridge's program ROM, with RAM
    /// zeroed. Fails unless the ROM is one or two banks long.
    pub fn new(rom: &ROM) -> (r: Result<Bus, Fault>)
        ensures
            match r {
                Ok(b) => {
                    &&& valid_prg_len(rom.prg_rom@.len())
                    &&& b.wf()
                    &&& b.prg() == rom.prg_rom@
                    &&& b.ram() == Seq::new(0x0800, |i: int| 0u8)
                },
                Err(e) => {
                    &&& !valid_prg_len(rom.prg_rom@.len())
                    &&& e == Fault::MalformedCartridge { length: rom.prg_rom@.len() as usize }
                },
            },
    {
        let len = rom.prg_rom.len();
        if len != PRG_BANK_SIZE && len != 2 * PRG_BANK_SIZE {
            return Err(Fault::MalformedCartridge { length: len });
        }
        let ram: Vec<u8> = vec![0u8; RAM_SIZE];
        let b = Bus { ram, prg_rom: Rc::clone(&rom.prg_rom) };
        assert(b.ram() =~= Seq::new(0x0800, |i: int| 0u8));
        Ok(b)
    }

    /// Reads the byte mapped at `addr`.
    pub fn read_byte(&self, addr: u16) -> (r: Result<u8, Fault>)
        requires
            self.wf(),
        ensures
            r == self.byte_at(addr),
    {
        reveal(byte_in);
        if addr <= 0x1FFF {
            Ok(self.ram[addr as usize % RAM_SIZE])
        } else if addr <= 0x401F {
            Err(Fault::UnmappedRegion { address: addr })
        } else if addr <= 0x7FFF {
            Err(Fault::ForbiddenRegion { address: addr })
        } else {
            Ok(self.prg_rom[(addr as usize - 0x8000) % self.prg_rom.len()])
        }
    }

    /// Reads the little-endian word at `addr`: the low byte at `addr`, the
    /// high byte at the next address (wrapping at 0xFFFF), each mapped on its own.
    pub fn read_word(&self, addr: u16) -> (r: Result<u16, Fault>)
        requires
            self.wf(),
        ensures
            r == self.word_at(addr),
    {
        let lo = self.read_byte(addr)?;
        let hi = self.read_byte(addr.wrapping_add(1))?;
        Ok((hi as u16) * 256 + lo as u16)
    }

    /// Writes `byte` at `addr`. Only RAM is writable; anywhere else the write
    /// faults and nothing changes.
    pub fn write_byte(&mut self, addr: u16, byte: u8) -> (r: Result<(), Fault>)
        requires
            old(self).wf(),
        ensures
            final(self).wf(),
            final(self).prg() == old(self).prg(),
            match write_fault(addr) {
                None => {
                    &&& r is Ok
                    &&& final(self).ram() == old(self).ram().update(ram_index(addr), byte)
                },
                Some(f) => {
                    &&& r == Err::<(), Fault>(f)
                    &&& final(self).ram() == old(self).ram()
                },
            },
    {
        if addr <= 0x1FFF {
            self.ram.set(addr as usize % RAM_SIZE, byte);
            Ok(())
        } else if addr <= 0x401F {
            Err(Fault::UnmappedRegion { address: addr })
        } else if addr <= 0x7FFF {
            Err(Fault::ForbiddenRegion { address: addr })
        } else {
            Err(Fault::ReadOnlyRegion { address: addr })
        }
    }

    /// Writes `word` little-endian at `addr` and the next address (wrapping
    /// at 0xFFFF). Both targets are checked first: if either faults, the
    /// first fault is returned and nothing changes.
    pub fn write_word(&mut self, addr: u16, word: u16) -> (r: Result<(), Fault>)
        requires
            old(self).wf(),
        ensures
            final(self).wf(),
            final(self).prg() == old(self).prg(),
            match (write_fault(addr), write_fault(next_addr(addr))) {
                (None, None) => {
                    &&& r is Ok
                    &&& final(self).ram() == old(self).ram().update(
                        ram_index(addr),
                        (word % 256) as u8,
                    ).update(ram_index(next_addr(addr)), (word / 256) as u8)
                },
                (Some(f), _) => {
                    &&& r == Err::<(), Fault>(f)
                    &&& final(self).ram() == old(self).ram()
                },
                (None, Some(f)) => {
                    &&& r == Err::<(), Fault>(f)
                    &&& final(self).ram() == old(self).ram()
                },
            },
    {
        let next = addr.wrapping_add(1);
        if addr > 0x1FFF {
            return self.write_byte(addr, (word % 256) as u8);
        }
        if next > 0x1FFF {
            return self.write_byte(next, (word / 256) as u8);
        }
        self.write_byte(addr, (word % 256) as u8)?;
        self.write_byte(next, (word / 256) as u8)
    }
}

/// After a byte `v` is written at a RAM address, reading it back at that
/// address and at each of its three mirrors yields `v`.
pub proof fn lemma_ram_mirroring(before: Bus, after: Bus, addr: u16, v: u8)
    requires
        before.wf(),
        addr <= 0x07FF,
        after.ram() == before.ram().update(ram_index(addr), v),
        after.prg() == before.prg(),
    ensures
        write_fault(addr) is None,
        after.byte_at(addr) == Ok::<u8, Fault>(v),
        after.byte_at((addr + 0x0800) as u16) == Ok::<u8, Fault>(v),
        after.byte_at((addr + 0x1000) as u16) == Ok::<u8, Fault>(v),
        after.byte_at((addr + 0x1800) as u16) == Ok::<u8, Fault>(v),
{
    reveal(byte_in);
}

/// With a single-bank program ROM, the upper bank window mirrors the lower one.
pub proof fn lemma_prg_mirroring(b: Bus, i: u16)
    requires
        b.wf(),
        b.prg().len() == 0x4000,
        i <= 0x3FFF,
    ensures
        b.byte_at((0x8000 + i) as u16) is Ok,
        b.byte_at((0x8000 + i) as u16) == b.byte_at((0xC000 + i) as u16),
{
    reveal(byte_in);
}

/// A word written at a RAM address whose successor is also in RAM reads back
/// unchanged, across the end of a mirror period too.
pub proof fn lemma_word_round_trip(before: Bus, after: Bus, addr: u16, w: u16)
    requires
        before.wf(),
        addr <= 0x1FFE,
        after.ram() == before.ram().update(ram_index(addr), (w % 256) as u8).update(
            ram_index(next_addr(addr)),
            (w / 256) as u8,
        ),
        after.prg() == before.prg(),
    ensures
        write_fault(addr) is None,
        write_fault(next_addr(addr)) is None,
        after.word_at(addr) == Ok::<u16, Fault>(w),
{
    reveal(byte_in);
    assert(ram_index(addr) != ram_index(next_addr(addr)));
}

} // verus!
