use vstd::prelude::*;

verus! {

/// Every condition under which the core refuses to go on. All of them are
/// immediate and final: the operation that raised one has changed nothing.
#[derive(Debug, Clone, Copy, PartialEq, Eq, Structural)]
pub enum Fault {
    /// The byte fetched at `address` encodes no operation.
    IllegalOpcode { byte: u8, address: u16 },
    /// Access into the peripheral-register window, which this core does not implement.
    UnmappedRegion { address: u16 },
    /// Access into cartridge expansion / save space.
    ForbiddenRegion { address: u16 },
    /// Write into program ROM.
    ReadOnlyRegion { address: u16 },
    /// Effective-address resolution requested for the no-operand mode.
    InvalidAddressingMode,
    /// The program-ROM buffer is neither one nor two 16 KiB banks; `length` is its size.
    MalformedCartridge { length: usize },
}

} // verus!
