use std::rc::Rc;
use vstd::prelude::*;

verus! {

/// Background-mirroring configuration of the console, consumed by the
/// picture unit.
#[allow(non_camel_case_types)]
#[derive(Debug, Clone, Copy, PartialEq, Eq, Structural)]
pub enum MirroringType {
    VERTICAL,
    HORIZONTAL,
    FOUR_SCREEN,
}

/// A loaded cartridge image. Program ROM is held through a shared handle so
/// that the address space and other components can keep views of it that do
/// not depend on the cartridge value's lifetime.
pub struct ROM {
    pub prg_rom: Rc<Vec<u8>>,
    pub chr_rom: Vec<u8>,
    pub mapper: u8,
    pub mirroring_type: MirroringType,
}

impl ROM {
    /// Assembles a cartridge from banks already taken out of their container.
    pub fn new(prg_rom: Vec<u8>, chr_rom: Vec<u8>, mapper: u8, mirroring_type: MirroringType) -> (r: ROM)
        ensures
            r.prg_rom@ == prg_rom@,
            r.chr_rom@ == chr_rom@,
            r.mapper == mapper,
            r.mirroring_type == mirroring_type,
    {
        ROM { prg_rom: Rc::new(prg_rom), chr_rom, mapper, mirroring_type }
    }
}

} // verus!
