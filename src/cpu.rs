use vstd::prelude::*;

use crate::bus::{next_addr, write_fault, Bus};
use crate::fault::Fault;

verus! {

/// The ways an instruction's operand bytes name its operand.
#[derive(Debug, Clone, Copy, PartialEq, Eq, Structural)]
pub enum AddressingMode {
    Immediate,
    ZeroPage,
    ZeroPageX,
    ZeroPageY,
    Absolute,
    AbsoluteX,
    AbsoluteY,
    IndirectX,
    IndirectY,
    NoneAddressing,
}

/// 8-bit wrapping sum.
pub open spec fn add8(a: u8, b: u8) -> u8 {
    ((a as int + b as int) % 256) as u8
}

/// 16-bit wrapping sum.
pub open spec fn add16(a: u16, b: u16) -> u16 {
    ((a as int + b as int) % 0x10000) as u16
}

/// The effective address that `mode` names, with the operand bytes starting
/// at `pc` and index registers `x` and `y`.
pub open spec fn resolve(bus: Bus, pc: u16, x: u8, y: u8, mode: AddressingMode) -> Result<u16, Fault> {
    match mode {
        AddressingMode::Immediate => Ok(pc),
        AddressingMode::ZeroPage => match bus.byte_at(pc) {
            Ok(b) => Ok(b as u16),
            Err(e) => Err(e),
        },
        AddressingMode::ZeroPageX => match bus.byte_at(pc) {
            Ok(b) => Ok(add8(b, x) as u16),
            Err(e) => Err(e),
        },
        AddressingMode::ZeroPageY => match bus.byte_at(pc) {
            Ok(b) => Ok(add8(b, y) as u16),
            Err(e) => Err(e),
        },
        AddressingMode::Absolute => bus.word_at(pc),
        AddressingMode::AbsoluteX => match bus.word_at(pc) {
            Ok(w) => Ok(add16(w, x as u16)),
            Err(e) => Err(e),
        },
        AddressingMode::AbsoluteY => match bus.word_at(pc) {
            Ok(w) => Ok(add16(w, y as u16)),
            Err(e) => Err(e),
        },
        AddressingMode::IndirectX => match bus.byte_at(pc) {
            Ok(b) => bus.word_at(add8(b, x) as u16),
            Err(e) => Err(e),
        },
        AddressingMode::IndirectY => match bus.byte_at(pc) {
            Ok(b) => match bus.word_at(b as u16) {
                Ok(w) => Ok(add16(w, y as u16)),
                Err(e) => Err(e),
            },
            Err(e) => Err(e),
        },
        AddressingMode::NoneAddressing => Err(Fault::InvalidAddressingMode),
    }
}

/// Resolves the effective address of `mode` for operand bytes at `pc`.
#[verifier::rlimit(60)]
pub fn operand_address(bus: &Bus, pc: u16, x: u8, y: u8, mode: AddressingMode) -> (r: Result<u16, Fault>)
    requires
        bus.wf(),
    ensures
        r == resolve(*bus, pc, x, y, mode),
{
    match mode {
        AddressingMode::Immediate => Ok(pc),
        AddressingMode::ZeroPage => match bus.read_byte(pc) {
            Ok(b) => Ok(b as u16),
            Err(e) => Err(e),
        },
        AddressingMode::ZeroPageX => match bus.read_byte(pc) {
            Ok(b) => Ok(b.wrapping_add(x) as u16),
            Err(e) => Err(e),
        },
        AddressingMode::ZeroPageY => match bus.read_byte(pc) {
            Ok(b) => Ok(b.wrapping_add(y) as u16),
            Err(e) => Err(e),
        },
        AddressingMode::Absolute => bus.read_word(pc),
        AddressingMode::AbsoluteX => match bus.read_word(pc) {
            Ok(w) => Ok(w.wrapping_add(x as u16)),
            Err(e) => Err(e),
        },
        AddressingMode::AbsoluteY => match bus.read_word(pc) {
            Ok(w) => Ok(w.wrapping_add(y as u16)),
            Err(e) => Err(e),
        },
        AddressingMode::IndirectX => match bus.read_byte(pc) {
            Ok(b) => bus.read_word(b.wrapping_add(x) as u16),
            Err(e) => Err(e),
        },
        AddressingMode::IndirectY => match bus.read_byte(pc) {
            Ok(b) => match bus.read_word(b as u16) {
                Ok(w) => Ok(w.wrapping_add(y as u16)),
                Err(e) => Err(e),
            },
            Err(e) => Err(e),
        },
        AddressingMode::NoneAddressing => Err(Fault::InvalidAddressingMode),
    }
}

/// The zero-page indexed forms never leave the zero page: the index sum
/// wraps within eight bits.
pub proof fn lemma_zero_page_indexed_wraps(bus: Bus, pc: u16, x: u8, y: u8)
    requires
        bus.wf(),
    ensures
        resolve(bus, pc, x, y, AddressingMode::ZeroPageX) is Ok ==> resolve(
            bus,
            pc,
            x,
            y,
            AddressingMode::ZeroPageX,
        )->Ok_0 <= 0xFF,
        resolve(bus, pc, x, y, AddressingMode::ZeroPageY) is Ok ==> resolve(
            bus,
            pc,
            x,
            y,
            AddressingMode::ZeroPageY,
        )->Ok_0 <= 0xFF,
        bus.byte_at(pc) == Ok::<u8, Fault>(0xFF) && x == 1 ==> resolve(
            bus,
            pc,
            x,
            y,
            AddressingMode::ZeroPageX,
        ) == Ok::<u16, Fault>(0),
{
}

/// The operations the dispatch engine executes.
#[derive(Debug, Clone, Copy, PartialEq, Eq, Structural)]
pub enum Operation {
    LDA,
    LDX,
    LDY,
    STA,
    STX,
    STY,
    TAX,
    TAY,
    TXA,
    TYA,
    INX,
    INY,
    DEX,
    DEY,
    NOP,
}

/// A decoded opcode: what to do, how the operand is named, how many operand
/// bytes follow the opcode, and the base cycle cost.
#[derive(Debug, Clone, Copy, PartialEq, Eq, Structural)]
pub struct Instruction {
    pub op: Operation,
    pub mode: AddressingMode,
    pub operand_len: u8,
    pub cycles: u8,
}

/// Number of operand bytes that follow an opcode using `mode`.
pub open spec fn mode_len(mode: AddressingMode) -> u8 {
    match mode {
        AddressingMode::Absolute | AddressingMode::AbsoluteX | AddressingMode::AbsoluteY => 2,
        AddressingMode::NoneAddressing => 0,
        _ => 1,
    }
}

/// The table entry for `op` under `mode`, with its operand length.
pub open spec fn entry(op: Operation, mode: AddressingMode, cycles: u8) -> Instruction {
    Instruction { op, mode, operand_len: mode_len(mode), cycles }
}

/// The opcode table: the instruction each opcode byte encodes, if any.
pub open spec fn instruction_for(opcode: u8) -> Option<Instruction> {
    match opcode {
        0x81 => Some(entry(Operation::STA, AddressingMode::IndirectX, 6)),
        0x84 => Some(entry(Operation::STY, AddressingMode::ZeroPage, 3)),
        0x85 => Some(entry(Operation::STA, AddressingMode::ZeroPage, 3)),
        0x86 => Some(entry(Operation::STX, AddressingMode::ZeroPage, 3)),
        0x88 => Some(entry(Operation::DEY, AddressingMode::NoneAddressing, 2)),
        0x8A => Some(entry(Operation::TXA, AddressingMode::NoneAddressing, 2)),
        0x8C => Some(entry(Operation::STY, AddressingMode::Absolute, 4)),
        0x8D => Some(entry(Operation::STA, AddressingMode::Absolute, 4)),
        0x8E => Some(entry(Operation::STX, AddressingMode::Absolute, 4)),
        0x91 => Some(entry(Operation::STA, AddressingMode::IndirectY, 6)),
        0x94 => Some(entry(Operation::STY, AddressingMode::ZeroPageX, 4)),
        0x95 => Some(entry(Operation::STA, AddressingMode::ZeroPageX, 4)),
        0x96 => Some(entry(Operation::STX, AddressingMode::ZeroPageY, 4)),
        0x98 => Some(entry(Operation::TYA, AddressingMode::NoneAddressing, 2)),
        0x99 => Some(entry(Operation::STA, AddressingMode::AbsoluteY, 5)),
        0x9D => Some(entry(Operation::STA, AddressingMode::AbsoluteX, 5)),
        0xA0 => Some(entry(Operation::LDY, AddressingMode::Immediate, 2)),
        0xA1 => Some(entry(Operation::LDA, AddressingMode::IndirectX, 6)),
        0xA2 => Some(entry(Operation::LDX, AddressingMode::Immediate, 2)),
        0xA4 => Some(entry(Operation::LDY, AddressingMode::ZeroPage, 3)),
        0xA5 => Some(entry(Operation::LDA, AddressingMode::ZeroPage, 3)),
        0xA6 => Some(entry(Operation::LDX, AddressingMode::ZeroPage, 3)),
        0xA8 => Some(entry(Operation::TAY, AddressingMode::NoneAddressing, 2)),
        0xA9 => Some(entry(Operation::LDA, AddressingMode::Immediate, 2)),
        0xAA => Some(entry(Operation::TAX, AddressingMode::NoneAddressing, 2)),
        0xAC => Some(entry(Operation::LDY, AddressingMode::Absolute, 4)),
        0xAD => Some(entry(Operation::LDA, AddressingMode::Absolute, 4)),
        0xAE => Some(entry(Operation::LDX, AddressingMode::Absolute, 4)),
        0xB1 => Some(entry(Operation::LDA, AddressingMode::IndirectY, 5)),
        0xB4 => Some(entry(Operation::LDY, AddressingMode::ZeroPageX, 4)),
        0xB5 => Some(entry(Operation::LDA, AddressingMode::ZeroPageX, 4)),
        0xB6 => Some(entry(Operation::LDX, AddressingMode::ZeroPageY, 4)),
        0xB9 => Some(entry(Operation::LDA, AddressingMode::AbsoluteY, 4)),
        0xBC => Some(entry(Operation::LDY, AddressingMode::AbsoluteX, 4)),
        0xBD => Some(entry(Operation::LDA, AddressingMode::AbsoluteX, 4)),
        0xBE => Some(entry(Operation::LDX, AddressingMode::AbsoluteY, 4)),
        0xC8 => Some(entry(Operation::INY, AddressingMode::NoneAddressing, 2)),
        0xCA => Some(entry(Operation::DEX, AddressingMode::NoneAddressing, 2)),
        0xE8 => Some(entry(Operation::INX, AddressingMode::NoneAddressing, 2)),
        0xEA => Some(entry(Operation::NOP, AddressingMode::NoneAddressing, 2)),
        _ => None,
    }
}

/// Number of operand bytes that follow an opcode using `mode`.
pub fn operand_len(mode: AddressingMode) -> (r: u8)
    ensures
        r == mode_len(mode),
{
    match mode {
        AddressingMode::Absolute | AddressingMode::AbsoluteX | AddressingMode::AbsoluteY => 2,
        AddressingMode::NoneAddressing => 0,
        _ => 1,
    }
}

fn make_entry(op: Operation, mode: AddressingMode, cycles: u8) -> (r: Instruction)
    ensures
        r == entry(op, mode, cycles),
{
    Instruction { op, mode, operand_len: operand_len(mode), cycles }
}

/// Looks `opcode` up in the opcode table.
pub fn decode(opcode: u8) -> (r: Option<Instruction>)
    ensures
        r == instruction_for(opcode),
{
    match opcode {
        0x81 => Some(make_entry(Operation::STA, AddressingMode::IndirectX, 6)),
        0x84 => Some(make_entry(Operation::STY, AddressingMode::ZeroPage, 3)),
        0x85 => Some(make_entry(Operation::STA, AddressingMode::ZeroPage, 3)),
        0x86 => Some(make_entry(Operation::STX, AddressingMode::ZeroPage, 3)),
        0x88 => Some(make_entry(Operation::DEY, AddressingMode::NoneAddressing, 2)),
        0x8A => Some(make_entry(Operation::TXA, AddressingMode::NoneAddressing, 2)),
        0x8C => Some(make_entry(Operation::STY, AddressingMode::Absolute, 4)),
        0x8D => Some(make_entry(Operation::STA, AddressingMode::Absolute, 4)),
        0x8E => Some(make_entry(Operation::STX, AddressingMode::Absolute, 4)),
        0x91 => Some(make_entry(Operation::STA, AddressingMode::IndirectY, 6)),
        0x94 => Some(make_entry(Operation::STY, AddressingMode::ZeroPageX, 4)),
        0x95 => Some(make_entry(Operation::STA, AddressingMode::ZeroPageX, 4)),
        0x96 => Some(make_entry(Operation::STX, AddressingMode::ZeroPageY, 4)),
        0x98 => Some(make_entry(Operation::TYA, AddressingMode::NoneAddressing, 2)),
        0x99 => Some(make_entry(Operation::STA, AddressingMode::AbsoluteY, 5)),
        0x9D => Some(make_entry(Operation::STA, AddressingMode::AbsoluteX, 5)),
        0xA0 => Some(make_entry(Operation::LDY, AddressingMode::Immediate, 2)),
        0xA1 => Some(make_entry(Operation::LDA, AddressingMode::IndirectX, 6)),
        0xA2 => Some(make_entry(Operation::LDX, AddressingMode::Immediate, 2)),
        0xA4 => Some(make_entry(Operation::LDY, AddressingMode::ZeroPage, 3)),
        0xA5 => Some(make_entry(Operation::LDA, AddressingMode::ZeroPage, 3)),
        0xA6 => Some(make_entry(Operation::LDX, AddressingMode::ZeroPage, 3)),
        0xA8 => Some(make_entry(Operation::TAY, AddressingMode::NoneAddressing, 2)),
        0xA9 => Some(make_entry(Operation::LDA, AddressingMode::Immediate, 2)),
        0xAA => Some(make_entry(Operation::TAX, AddressingMode::NoneAddressing, 2)),
        0xAC => Some(make_entry(Operation::LDY, AddressingMode::Absolute, 4)),
        0xAD => Some(make_entry(Operation::LDA, AddressingMode::Absolute, 4)),
        0xAE => Some(make_entry(Operation::LDX, AddressingMode::Absolute, 4)),
        0xB1 => Some(make_entry(Operation::LDA, AddressingMode::IndirectY, 5)),
        0xB4 => Some(make_entry(Operation::LDY, AddressingMode::ZeroPageX, 4)),
        0xB5 => Some(make_entry(Operation::LDA, AddressingMode::ZeroPageX, 4)),
        0xB6 => Some(make_entry(Operation::LDX, AddressingMode::ZeroPageY, 4)),
        0xB9 => Some(make_entry(Operation::LDA, AddressingMode::AbsoluteY, 4)),
        0xBC => Some(make_entry(Operation::LDY, AddressingMode::AbsoluteX, 4)),
        0xBD => Some(make_entry(Operation::LDA, AddressingMode::AbsoluteX, 4)),
        0xBE => Some(make_entry(Operation::LDX, AddressingMode::AbsoluteY, 4)),
        0xC8 => Some(make_entry(Operation::INY, AddressingMode::NoneAddressing, 2)),
        0xCA => Some(make_entry(Operation::DEX, AddressingMode::NoneAddressing, 2)),
        0xE8 => Some(make_entry(Operation::INX, AddressingMode::NoneAddressing, 2)),
        0xEA => Some(make_entry(Operation::NOP, AddressingMode::NoneAddressing, 2)),
        _ => None,
    }
}

/// Register and flag state together with the address space it runs against.
pub struct CPU {
    pub bus: Bus,
    pub pc: u16,
    pub accumulator: u8,
    pub x: u8,
    pub y: u8,
    pub stack_ptr: u8,
    pub c: bool,
    pub z: bool,
    pub i: bool,
    pub d: bool,
    pub v: bool,
    pub n: bool,
    /// The two break-flag bits of the packed status byte.
    pub b_1: bool,
    pub b_2: bool,
}

/// Operations that take an operand from memory.
pub open spec fn is_load(op: Operation) -> bool {
    op == Operation::LDA || op == Operation::LDX || op == Operation::LDY
}

/// Operations that store a register into memory.
pub open spec fn is_store(op: Operation) -> bool {
    op == Operation::STA || op == Operation::STX || op == Operation::STY
}

/// `t` is `s` with nothing changed.
pub open spec fn unchanged(s: CPU, t: CPU) -> bool {
    &&& t.bus.ram() == s.bus.ram()
    &&& t.bus.prg() == s.bus.prg()
    &&& t.pc == s.pc
    &&& t.accumulator == s.accumulator
    &&& t.x == s.x
    &&& t.y == s.y
    &&& t.stack_ptr == s.stack_ptr
    &&& t.c == s.c && t.z == s.z && t.i == s.i && t.d == s.d
    &&& t.v == s.v && t.n == s.n && t.b_1 == s.b_1 && t.b_2 == s.b_2
}

/// Z and N describe `v`: Z iff it is zero, N its bit 7.
pub open spec fn flags_for(t: CPU, v: u8) -> bool {
    t.z == (v == 0) && t.n == (v >= 0x80)
}

/// The effective address of `ins` when its opcode was fetched from `s.pc`.
pub open spec fn effective_address(s: CPU, ins: Instruction) -> Result<u16, Fault> {
    resolve(s.bus, next_addr(s.pc), s.x, s.y, ins.mode)
}

/// The fault that executing `ins` from `s` raises, if any.
pub open spec fn execute_fault_of(s: CPU, ins: Instruction) -> Option<Fault> {
    if is_load(ins.op) {
        match effective_address(s, ins) {
            Err(e) => Some(e),
            Ok(addr) => match s.bus.byte_at(addr) {
                Err(e) => Some(e),
                Ok(_) => None,
            },
        }
    } else if is_store(ins.op) {
        match effective_address(s, ins) {
            Err(e) => Some(e),
            Ok(addr) => write_fault(addr),
        }
    } else {
        None
    }
}

/// The fault that executing `opcode`, fetched from `s.pc`, raises in state `s`, if any.
pub open spec fn execute_fault(s: CPU, opcode: u8) -> Option<Fault> {
    match instruction_for(opcode) {
        None => Some(Fault::IllegalOpcode { byte: opcode, address: s.pc }),
        Some(ins) => execute_fault_of(s, ins),
    }
}

/// What every instruction keeps or sets alike: program ROM, the program
/// counter moved past the operand bytes, and the flags and registers no
/// operation here touches.
pub open spec fn common_post(s: CPU, t: CPU, ins: Instruction) -> bool {
    &&& t.bus.prg() == s.bus.prg()
    &&& t.pc == add16(next_addr(s.pc), ins.operand_len as u16)
    &&& t.stack_ptr == s.stack_ptr
    &&& t.c == s.c && t.i == s.i && t.d == s.d && t.v == s.v && t.b_1 == s.b_1 && t.b_2 == s.b_2
}

/// Effect of a load that read `val`: the target register gets it, Z and N describe it.
pub open spec fn load_post(s: CPU, t: CPU, op: Operation, val: u8) -> bool {
    &&& t.bus.ram() == s.bus.ram()
    &&& flags_for(t, val)
    &&& t.accumulator == (if op == Operation::LDA { val } else { s.accumulator })
    &&& t.x == (if op == Operation::LDX { val } else { s.x })
    &&& t.y == (if op == Operation::LDY { val } else { s.y })
}

/// Effect of a store to `addr`: the source register's value lands in RAM;
/// registers and flags stay.
pub open spec fn store_post(s: CPU, t: CPU, op: Operation, addr: u16) -> bool {
    let v = if op == Operation::STA {
        s.accumulator
    } else if op == Operation::STX {
        s.x
    } else {
        s.y
    };
    &&& t.bus.ram() == s.bus.ram().update(crate::bus::ram_index(addr), v)
    &&& t.accumulator == s.accumulator && t.x == s.x && t.y == s.y
    &&& t.z == s.z && t.n == s.n
}

/// Effect of an operation without a memory operand.
pub open spec fn implied_post(s: CPU, t: CPU, op: Operation) -> bool {
    &&& t.bus.ram() == s.bus.ram()
    &&& match op {
        Operation::TAX => t.accumulator == s.accumulator && t.x == s.accumulator && t.y == s.y
            && flags_for(t, s.accumulator),
        Operation::TAY => t.accumulator == s.accumulator && t.x == s.x && t.y == s.accumulator
            && flags_for(t, s.accumulator),
        Operation::TXA => t.accumulator == s.x && t.x == s.x && t.y == s.y && flags_for(t, s.x),
        Operation::TYA => t.accumulator == s.y && t.x == s.x && t.y == s.y && flags_for(t, s.y),
        Operation::INX => t.accumulator == s.accumulator && t.x == add8(s.x, 1) && t.y == s.y
            && flags_for(t, add8(s.x, 1)),
        Operation::INY => t.accumulator == s.accumulator && t.x == s.x && t.y == add8(s.y, 1)
            && flags_for(t, add8(s.y, 1)),
        Operation::DEX => t.accumulator == s.accumulator && t.x == add8(s.x, 0xFF) && t.y == s.y
            && flags_for(t, add8(s.x, 0xFF)),
        Operation::DEY => t.accumulator == s.accumulator && t.x == s.x && t.y == add8(s.y, 0xFF)
            && flags_for(t, add8(s.y, 0xFF)),
        _ => t.accumulator == s.accumulator && t.x == s.x && t.y == s.y && t.z == s.z && t.n == s.n,
    }
}

/// `t` is the state after executing `ins` from `s`, given that it does not fault.
pub open spec fn execute_post(s: CPU, t: CPU, ins: Instruction) -> bool {
    &&& common_post(s, t, ins)
    &&& if is_load(ins.op) {
        let addr = effective_address(s, ins)->Ok_0;
        load_post(s, t, ins.op, s.bus.byte_at(addr)->Ok_0)
    } else if is_store(ins.op) {
        store_post(s, t, ins.op, effective_address(s, ins)->Ok_0)
    } else {
        implied_post(s, t, ins.op)
    }
}

/// Executing `opcode` from `s` gives `r` and leaves `t`: a fault leaves
/// everything as it was; otherwise the instruction's effect and its base cycle cost.
pub open spec fn executes(s: CPU, t: CPU, opcode: u8, r: Result<u8, Fault>) -> bool {
    match execute_fault(s, opcode) {
        Some(f) => r == Err::<u8, Fault>(f) && unchanged(s, t),
        None => {
            &&& r == Ok::<u8, Fault>(instruction_for(opcode)->Some_0.cycles)
            &&& execute_post(s, t, instruction_for(opcode)->Some_0)
        },
    }
}

fn is_load_op(op: Operation) -> (r: bool)
    ensures
        r == is_load(op),
{
    matches!(op, Operation::LDA | Operation::LDX | Operation::LDY)
}

fn is_store_op(op: Operation) -> (r: bool)
    ensures
        r == is_store(op),
{
    matches!(op, Operation::STA | Operation::STX | Operation::STY)
}

/// The packed status byte: C in bit 0, Z 1, I 2, D 3, the break bits in 4
/// and 5, V 6, N 7.
pub open spec fn pack_status(c: bool, z: bool, i: bool, d: bool, b_1: bool, b_2: bool, v: bool, n: bool) -> u8 {
    (if c { 0x01u8 } else { 0u8 }) | (if z { 0x02u8 } else { 0u8 }) | (if i { 0x04u8 } else { 0u8 })
        | (if d { 0x08u8 } else { 0u8 }) | (if b_1 { 0x10u8 } else { 0u8 }) | (if b_2 { 0x20u8 } else { 0u8 })
        | (if v { 0x40u8 } else { 0u8 }) | (if n { 0x80u8 } else { 0u8 })
}

/// The status byte of state `s`.
pub open spec fn status_of(s: CPU) -> u8 {
    pack_status(s.c, s.z, s.i, s.d, s.b_1, s.b_2, s.v, s.n)
}

/// Whether bit `mask` is set in `p`.
pub open spec fn has_bit(p: u8, mask: u8) -> bool {
    p & mask != 0
}

/// Unpacking a status byte into flags and packing them again gives the byte back.
pub proof fn lemma_status_byte_round_trip(p: u8)
    ensures
        pack_status(
            has_bit(p, 0x01),
            has_bit(p, 0x02),
            has_bit(p, 0x04),
            has_bit(p, 0x08),
            has_bit(p, 0x10),
            has_bit(p, 0x20),
            has_bit(p, 0x40),
            has_bit(p, 0x80),
        ) == p,
{
    assert(((if p & 0x01 != 0 { 0x01u8 } else { 0u8 }) | (if p & 0x02 != 0 { 0x02u8 } else { 0u8 })
        | (if p & 0x04 != 0 { 0x04u8 } else { 0u8 }) | (if p & 0x08 != 0 { 0x08u8 } else { 0u8 })
        | (if p & 0x10 != 0 { 0x10u8 } else { 0u8 }) | (if p & 0x20 != 0 { 0x20u8 } else { 0u8 })
        | (if p & 0x40 != 0 { 0x40u8 } else { 0u8 }) | (if p & 0x80 != 0 { 0x80u8 } else { 0u8 })) == p)
        by (bit_vector);
}

/// Packing flags into a status byte and unpacking it gives the flags back.
pub proof fn lemma_status_flags_round_trip(c: bool, z: bool, i: bool, d: bool, b_1: bool, b_2: bool, v: bool, n: bool)
    ensures
        has_bit(pack_status(c, z, i, d, b_1, b_2, v, n), 0x01) == c,
        has_bit(pack_status(c, z, i, d, b_1, b_2, v, n), 0x02) == z,
        has_bit(pack_status(c, z, i, d, b_1, b_2, v, n), 0x04) == i,
        has_bit(pack_status(c, z, i, d, b_1, b_2, v, n), 0x08) == d,
        has_bit(pack_status(c, z, i, d, b_1, b_2, v, n), 0x10) == b_1,
        has_bit(pack_status(c, z, i, d, b_1, b_2, v, n), 0x20) == b_2,
        has_bit(pack_status(c, z, i, d, b_1, b_2, v, n), 0x40) == v,
        has_bit(pack_status(c, z, i, d, b_1, b_2, v, n), 0x80) == n,
{
    let p = pack_status(c, z, i, d, b_1, b_2, v, n);
    let (c8, z8, i8, d8) = (
        if c { 0x01u8 } else { 0u8 },
        if z { 0x02u8 } else { 0u8 },
        if i { 0x04u8 } else { 0u8 },
        if d { 0x08u8 } else { 0u8 },
    );
    let (b18, b28, v8, n8) = (
        if b_1 { 0x10u8 } else { 0u8 },
        if b_2 { 0x20u8 } else { 0u8 },
        if v { 0x40u8 } else { 0u8 },
        if n { 0x80u8 } else { 0u8 },
    );
    assert(p == c8 | z8 | i8 | d8 | b18 | b28 | v8 | n8);
    assert(
        (c8 == 0 || c8 == 0x01) && (z8 == 0 || z8 == 0x02) && (i8 == 0 || i8 == 0x04) && (d8 == 0 || d8 == 0x08)
        && (b18 == 0 || b18 == 0x10) && (b28 == 0 || b28 == 0x20) && (v8 == 0 || v8 == 0x40)
        && (n8 == 0 || n8 == 0x80) ==> {
            let q = c8 | z8 | i8 | d8 | b18 | b28 | v8 | n8;
            &&& (q & 0x01 != 0) == (c8 != 0)
            &&& (q & 0x02 != 0) == (z8 != 0)
            &&& (q & 0x04 != 0) == (i8 != 0)
            &&& (q & 0x08 != 0) == (d8 != 0)
            &&& (q & 0x10 != 0) == (b18 != 0)
            &&& (q & 0x20 != 0) == (b28 != 0)
            &&& (q & 0x40 != 0) == (v8 != 0)
            &&& (q & 0x80 != 0) == (n8 != 0)
        }
    ) by (bit_vector);
}

impl CPU {
    /// A processor at power-on over `bus`: every register zero and every flag
    /// clear except Z, which describes the zero accumulator.
    pub fn new(bus: Bus) -> (r: CPU)
        ensures
            r.bus == bus,
            r.pc == 0 && r.accumulator == 0 && r.x == 0 && r.y == 0 && r.stack_ptr == 0,
            r.z,
            !r.c && !r.i && !r.d && !r.v && !r.n && !r.b_1 && !r.b_2,
    {
        CPU {
            bus,
            pc: 0,
            accumulator: 0,
            x: 0,
            y: 0,
            stack_ptr: 0,
            c: false,
            z: true,
            i: false,
            d: false,
            v: false,
            n: false,
            b_1: false,
            b_2: false,
        }
    }

    /// Fetches the byte at `index`.
    pub fn get_instruction(&self, index: u16) -> (r: Result<u8, Fault>)
        requires
            self.bus.wf(),
        ensures
            r == self.bus.byte_at(index),
    {
        self.bus.read_byte(index)
    }

    /// The effective address of `mode` for operand bytes at the program counter.
    pub fn get_operand_address(&self, mode: &AddressingMode) -> (r: Result<u16, Fault>)
        requires
            self.bus.wf(),
        ensures
            r == resolve(self.bus, self.pc, self.x, self.y, *mode),
    {
        operand_address(&self.bus, self.pc, self.x, self.y, *mode)
    }

    fn set_zn(&mut self, v: u8)
        ensures
            *final(self) == (CPU { z: v == 0, n: v >= 0x80, ..*old(self) }),
    {
        self.z = v == 0;
        self.n = v >= 0x80;
    }

    /// Loads the accumulator from the operand that `mode` names at the
    /// program counter, and sets Z and N from the value. A fault changes nothing.
    pub fn lda(&mut self, mode: &AddressingMode) -> (r: Result<(), Fault>)
        requires
            old(self).bus.wf(),
        ensures
            match resolve(old(self).bus, old(self).pc, old(self).x, old(self).y, *mode) {
                Err(e) => r == Err::<(), Fault>(e) && *final(self) == *old(self),
                Ok(addr) => match old(self).bus.byte_at(addr) {
                    Err(e) => r == Err::<(), Fault>(e) && *final(self) == *old(self),
                    Ok(v) => r is Ok && *final(self) == (CPU {
                        accumulator: v,
                        z: v == 0,
                        n: v >= 0x80,
                        ..*old(self)
                    }),
                },
            },
    {
        let addr = match self.get_operand_address(mode) {
            Ok(a) => a,
            Err(e) => return Err(e),
        };
        let v = match self.bus.read_byte(addr) {
            Ok(v) => v,
            Err(e) => return Err(e),
        };
        self.accumulator = v;
        self.set_zn(v);
        Ok(())
    }
    fn execute_load(&mut self, ins: Instruction) -> (r: Result<u8, Fault>)
        requires
            old(self).bus.wf(),
            is_load(ins.op),
        ensures
            final(self).bus.wf(),
            match execute_fault_of(*old(self), ins) {
                Some(f) => r == Err::<u8, Fault>(f) && unchanged(*old(self), *final(self)),
                None => r == Ok::<u8, Fault>(ins.cycles) && execute_post(*old(self), *final(self), ins),
            },
    {
        let addr = match operand_address(&self.bus, self.pc.wrapping_add(1), self.x, self.y, ins.mode) {
            Ok(a) => a,
            Err(e) => return Err(e),
        };
        let v = match self.bus.read_byte(addr) {
            Ok(v) => v,
            Err(e) => return Err(e),
        };
        match ins.op {
            Operation::LDA => self.accumulator = v,
            Operation::LDX => self.x = v,
            _ => self.y = v,
        }
        self.set_zn(v);
        self.pc = self.pc.wrapping_add(1).wrapping_add(ins.operand_len as u16);
        Ok(ins.cycles)
    }

    fn execute_store(&mut self, ins: Instruction) -> (r: Result<u8, Fault>)
        requires
            old(self).bus.wf(),
            is_store(ins.op),
        ensures
            final(self).bus.wf(),
            match execute_fault_of(*old(self), ins) {
                Some(f) => r == Err::<u8, Fault>(f) && unchanged(*old(self), *final(self)),
                None => r == Ok::<u8, Fault>(ins.cycles) && execute_post(*old(self), *final(self), ins),
            },
    {
        let addr = match operand_address(&self.bus, self.pc.wrapping_add(1), self.x, self.y, ins.mode) {
            Ok(a) => a,
            Err(e) => return Err(e),
        };
        let v = match ins.op {
            Operation::STA => self.accumulator,
            Operation::STX => self.x,
            _ => self.y,
        };
        match self.bus.write_byte(addr, v) {
            Ok(()) => {},
            Err(e) => return Err(e),
        }
        self.pc = self.pc.wrapping_add(1).wrapping_add(ins.operand_len as u16);
        Ok(ins.cycles)
    }

    fn execute_implied(&mut self, ins: Instruction)
        requires
            !is_load(ins.op),
            !is_store(ins.op),
        ensures
            final(self).bus == old(self).bus,
            common_post(*old(self), *final(self), ins),
            implied_post(*old(self), *final(self), ins.op),
    {
        let a = self.accumulator;
        let x = self.x;
        let y = self.y;
        let (na, nx, ny): (u8, u8, u8) = match ins.op {
            Operation::TAX => (a, a, y),
            Operation::TAY => (a, x, a),
            Operation::TXA => (x, x, y),
            Operation::TYA => (y, x, y),
            Operation::INX => (a, x.wrapping_add(1), y),
            Operation::INY => (a, x, y.wrapping_add(1)),
            Operation::DEX => (a, x.wrapping_sub(1), y),
            Operation::DEY => (a, x, y.wrapping_sub(1)),
            _ => (a, x, y),
        };
        self.accumulator = na;
        self.x = nx;
        self.y = ny;
        if !matches!(ins.op, Operation::NOP) {
            let v: u8 = match ins.op {
                Operation::TAX | Operation::INX | Operation::DEX => nx,
                Operation::TAY | Operation::INY | Operation::DEY => ny,
                _ => na,
            };
            self.z = v == 0;
            self.n = v >= 0x80;
        }
        self.pc = self.pc.wrapping_add(1).wrapping_add(ins.operand_len as u16);
    }

    /// Executes `opcode` as fetched from the program counter: its operand
    /// bytes follow it, and the program counter moves past them. Returns the
    /// base cycle cost. A fault changes nothing.
    pub fn process_instruction(&mut self, opcode: u8) -> (r: Result<u8, Fault>)
        requires
            old(self).bus.wf(),
        ensures
            final(self).bus.wf(),
            executes(*old(self), *final(self), opcode, r),
    {
        let ins = match decode(opcode) {
            Some(i) => i,
            None => return Err(Fault::IllegalOpcode { byte: opcode, address: self.pc }),
        };
        if is_load_op(ins.op) {
            self.execute_load(ins)
        } else if is_store_op(ins.op) {
            self.execute_store(ins)
        } else {
            self.execute_implied(ins);
            Ok(ins.cycles)
        }
    }

    /// Runs one fetch-decode-execute cycle and returns its cycle cost. A fault
    /// (in the fetch or in the instruction) changes nothing.
    pub fn step(&mut self) -> (r: Result<u8, Fault>)
        requires
            old(self).bus.wf(),
        ensures
            final(self).bus.wf(),
            match old(self).bus.byte_at(old(self).pc) {
                Err(e) => r == Err::<u8, Fault>(e) && unchanged(*old(self), *final(self)),
                Ok(opcode) => executes(*old(self), *final(self), opcode, r),
            },
    {
        let opcode = match self.get_instruction(self.pc) {
            Ok(b) => b,
            Err(e) => return Err(e),
        };
        self.process_instruction(opcode)
    }

    /// The flags packed into the status byte, as pushed to the stack.
    pub fn status_byte(&self) -> (r: u8)
        ensures
            r == status_of(*self),
    {
        (if self.c { 0x01u8 } else { 0u8 }) | (if self.z { 0x02u8 } else { 0u8 }) | (if self.i { 0x04u8 } else { 0u8 })
            | (if self.d { 0x08u8 } else { 0u8 }) | (if self.b_1 { 0x10u8 } else { 0u8 })
            | (if self.b_2 { 0x20u8 } else { 0u8 }) | (if self.v { 0x40u8 } else { 0u8 })
            | (if self.n { 0x80u8 } else { 0u8 })
    }

    /// Sets every flag from the status byte `p`, as pulled from the stack.
    pub fn set_status_byte(&mut self, p: u8)
        ensures
            *final(self) == (CPU {
                c: has_bit(p, 0x01),
                z: has_bit(p, 0x02),
                i: has_bit(p, 0x04),
                d: has_bit(p, 0x08),
                b_1: has_bit(p, 0x10),
                b_2: has_bit(p, 0x20),
                v: has_bit(p, 0x40),
                n: has_bit(p, 0x80),
                ..*old(self)
            }),
    {
        self.c = p & 0x01 != 0;
        self.z = p & 0x02 != 0;
        self.i = p & 0x04 != 0;
        self.d = p & 0x08 != 0;
        self.b_1 = p & 0x10 != 0;
        self.b_2 = p & 0x20 != 0;
        self.v = p & 0x40 != 0;
        self.n = p & 0x80 != 0;
    }
}

} // verus!
