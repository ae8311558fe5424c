//! Instruction-execution core of a 6502-class console emulator: the address
//! space with its mirroring rules, the addressing-mode resolver, and the
//! fetch-decode-execute engine.

pub mod bus;
pub mod cpu;
pub mod fault;
pub mod memory;
pub mod rom;
