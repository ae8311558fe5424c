use nes_emu_rust::bus::Bus;
use nes_emu_rust::cpu::{decode, operand_address, AddressingMode, Instruction, Operation, CPU};
use nes_emu_rust::fault::Fault;
use nes_emu_rust::rom::{MirroringType, ROM};

fn zeroed_bus() -> Bus {
    let rom = ROM::new(vec![0; 0x4000], Vec::new(), 0, MirroringType::VERTICAL);
    Bus::new(&rom).unwrap()
}

/// A processor whose RAM holds `program` from address 0, where execution starts.
fn cpu_with_program(program: &[u8]) -> CPU {
    let mut cpu = CPU::new(zeroed_bus());
    for (i, byte) in program.iter().enumerate() {
        cpu.bus.write_byte(i as u16, *byte).unwrap();
    }
    cpu
}

#[test]
fn test() {
    let memory = zeroed_bus();
    let mut cpu = CPU::new(memory);
    cpu.bus.write_byte(0x0000, 8).unwrap();
    let addr = cpu.get_operand_address(&AddressingMode::Immediate);
    assert!(addr == Ok(0x0000));
}

#[test]
fn power_on_state() {
    let cpu = CPU::new(zeroed_bus());
    assert_eq!((cpu.pc, cpu.accumulator, cpu.x, cpu.y, cpu.stack_ptr), (0, 0, 0, 0, 0));
    assert!(cpu.z);
    assert!(!cpu.c && !cpu.i && !cpu.d && !cpu.v && !cpu.n && !cpu.b_1 && !cpu.b_2);
}

#[test]
fn zero_page_x_wraps_within_page() {
    let mut cpu = cpu_with_program(&[0xFF]);
    cpu.x = 1;
    assert_eq!(cpu.get_operand_address(&AddressingMode::ZeroPageX), Ok(0x0000));
    cpu.y = 2;
    assert_eq!(cpu.get_operand_address(&AddressingMode::ZeroPageY), Ok(0x0001));
}

#[test]
fn each_mode_resolves() {
    // operand bytes at 0x0010: 0x20 0x01; zero-page pointers at 0x20/0x21 and 0x25/0x26
    let mut bus = zeroed_bus();
    bus.write_byte(0x0010, 0x20).unwrap();
    bus.write_byte(0x0011, 0x01).unwrap();
    bus.write_byte(0x0020, 0x00).unwrap();
    bus.write_byte(0x0021, 0x03).unwrap();
    bus.write_byte(0x0025, 0x34).unwrap();
    bus.write_byte(0x0026, 0x12).unwrap();
    let (x, y) = (5u8, 0x10u8);
    assert_eq!(operand_address(&bus, 0x10, x, y, AddressingMode::Immediate), Ok(0x0010));
    assert_eq!(operand_address(&bus, 0x10, x, y, AddressingMode::ZeroPage), Ok(0x0020));
    assert_eq!(operand_address(&bus, 0x10, x, y, AddressingMode::ZeroPageX), Ok(0x0025));
    assert_eq!(operand_address(&bus, 0x10, x, y, AddressingMode::ZeroPageY), Ok(0x0030));
    assert_eq!(operand_address(&bus, 0x10, x, y, AddressingMode::Absolute), Ok(0x0120));
    assert_eq!(operand_address(&bus, 0x10, x, y, AddressingMode::AbsoluteX), Ok(0x0125));
    assert_eq!(operand_address(&bus, 0x10, x, y, AddressingMode::AbsoluteY), Ok(0x0130));
    assert_eq!(operand_address(&bus, 0x10, x, y, AddressingMode::IndirectX), Ok(0x1234));
    assert_eq!(operand_address(&bus, 0x10, x, y, AddressingMode::IndirectY), Ok(0x0310));
    assert_eq!(
        operand_address(&bus, 0x10, x, y, AddressingMode::NoneAddressing),
        Err(Fault::InvalidAddressingMode)
    );
}

#[test]
fn absolute_indexed_wraps_at_sixteen_bits() {
    let mut bus = zeroed_bus();
    bus.write_byte(0x0000, 0xFF).unwrap();
    bus.write_byte(0x0001, 0xFF).unwrap();
    assert_eq!(operand_address(&bus, 0, 2, 0, AddressingMode::AbsoluteX), Ok(0x0001));
}

#[test]
fn resolving_through_unmapped_memory_faults() {
    let bus = zeroed_bus();
    assert_eq!(
        operand_address(&bus, 0x2000, 0, 0, AddressingMode::ZeroPage),
        Err(Fault::UnmappedRegion { address: 0x2000 })
    );
}

#[test]
fn lda_sets_zero_and_negative() {
    let mut cpu = cpu_with_program(&[0x00, 0x80]);
    cpu.accumulator = 0x55;
    cpu.n = true;
    cpu.z = false;
    assert_eq!(cpu.lda(&AddressingMode::Immediate), Ok(()));
    assert_eq!(cpu.accumulator, 0x00);
    assert!(cpu.z && !cpu.n);
    cpu.pc = 1;
    assert_eq!(cpu.lda(&AddressingMode::Immediate), Ok(()));
    assert_eq!(cpu.accumulator, 0x80);
    assert!(!cpu.z && cpu.n);
}

#[test]
fn lda_immediate_through_step() {
    let mut cpu = cpu_with_program(&[0xA9, 0x00, 0xA9, 0x80]);
    assert_eq!(cpu.step(), Ok(2));
    assert_eq!(cpu.pc, 2);
    assert_eq!(cpu.accumulator, 0x00);
    assert!(cpu.z && !cpu.n);
    assert_eq!(cpu.step(), Ok(2));
    assert_eq!(cpu.pc, 4);
    assert_eq!(cpu.accumulator, 0x80);
    assert!(!cpu.z && cpu.n);
}

#[test]
fn lda_absolute_reads_rom() {
    let mut prg = vec![0u8; 0x4000];
    prg[0x0123] = 0x7E;
    let rom = ROM::new(prg, Vec::new(), 0, MirroringType::FOUR_SCREEN);
    let mut cpu = CPU::new(Bus::new(&rom).unwrap());
    for (i, byte) in [0xADu8, 0x23, 0xC1].iter().enumerate() {
        cpu.bus.write_byte(i as u16, *byte).unwrap();
    }
    assert_eq!(cpu.step(), Ok(4));
    assert_eq!(cpu.pc, 3);
    assert_eq!(cpu.accumulator, 0x7E);
}

#[test]
fn load_and_store_registers() {
    // LDX #$03; LDY #$04; STX $40; STY $41
    let mut cpu = cpu_with_program(&[0xA2, 0x03, 0xA0, 0x04, 0x86, 0x40, 0x84, 0x41]);
    assert_eq!(cpu.step(), Ok(2));
    assert_eq!(cpu.step(), Ok(2));
    assert_eq!((cpu.x, cpu.y), (3, 4));
    assert_eq!(cpu.step(), Ok(3));
    assert_eq!(cpu.step(), Ok(3));
    assert_eq!(cpu.bus.read_byte(0x40), Ok(3));
    assert_eq!(cpu.bus.read_byte(0x41), Ok(4));
    assert_eq!(cpu.pc, 8);
}

#[test]
fn store_into_rom_faults_and_changes_nothing() {
    // LDA #$09; STA $8000
    let mut cpu = cpu_with_program(&[0xA9, 0x09, 0x8D, 0x00, 0x80]);
    assert_eq!(cpu.step(), Ok(2));
    assert_eq!(cpu.step(), Err(Fault::ReadOnlyRegion { address: 0x8000 }));
    assert_eq!(cpu.pc, 2);
    assert_eq!(cpu.accumulator, 0x09);
    assert_eq!(cpu.bus.read_byte(0x8000), Ok(0));
}

#[test]
fn transfers_and_counters() {
    // LDA #$FF; TAX; INX; TAY; DEY; TXA; TYA; DEX; NOP
    let mut cpu = cpu_with_program(&[0xA9, 0xFF, 0xAA, 0xE8, 0xA8, 0x88, 0x8A, 0x98, 0xCA, 0xEA]);
    assert_eq!(cpu.step(), Ok(2));
    assert_eq!(cpu.step(), Ok(2));
    assert_eq!(cpu.x, 0xFF);
    assert!(cpu.n && !cpu.z);
    assert_eq!(cpu.step(), Ok(2));
    assert_eq!(cpu.x, 0x00);
    assert!(cpu.z && !cpu.n);
    assert_eq!(cpu.step(), Ok(2));
    assert_eq!(cpu.y, 0xFF);
    assert_eq!(cpu.step(), Ok(2));
    assert_eq!(cpu.y, 0xFE);
    assert_eq!(cpu.step(), Ok(2));
    assert_eq!(cpu.accumulator, 0x00);
    assert!(cpu.z);
    assert_eq!(cpu.step(), Ok(2));
    assert_eq!(cpu.accumulator, 0xFE);
    assert!(cpu.n && !cpu.z);
    assert_eq!(cpu.step(), Ok(2));
    assert_eq!(cpu.x, 0xFF);
    let before = (cpu.accumulator, cpu.x, cpu.y, cpu.z, cpu.n);
    assert_eq!(cpu.step(), Ok(2));
    assert_eq!((cpu.accumulator, cpu.x, cpu.y, cpu.z, cpu.n), before);
    assert_eq!(cpu.pc, 10);
}

#[test]
fn illegal_opcode_faults_with_byte_and_address() {
    let mut cpu = cpu_with_program(&[0xEA, 0x02]);
    assert_eq!(cpu.step(), Ok(2));
    assert_eq!(cpu.step(), Err(Fault::IllegalOpcode { byte: 0x02, address: 0x0001 }));
    assert_eq!(cpu.pc, 1);
}

#[test]
fn fetch_from_unmapped_region_faults() {
    let mut cpu = CPU::new(zeroed_bus());
    cpu.pc = 0x4020;
    assert_eq!(cpu.step(), Err(Fault::ForbiddenRegion { address: 0x4020 }));
    assert_eq!(cpu.get_instruction(0x3000), Err(Fault::UnmappedRegion { address: 0x3000 }));
}

#[test]
fn opcode_table_entries() {
    assert_eq!(
        decode(0xA9),
        Some(Instruction { op: Operation::LDA, mode: AddressingMode::Immediate, operand_len: 1, cycles: 2 })
    );
    assert_eq!(
        decode(0xB1),
        Some(Instruction { op: Operation::LDA, mode: AddressingMode::IndirectY, operand_len: 1, cycles: 5 })
    );
    assert_eq!(
        decode(0x9D),
        Some(Instruction { op: Operation::STA, mode: AddressingMode::AbsoluteX, operand_len: 2, cycles: 5 })
    );
    assert_eq!(
        decode(0xE8),
        Some(Instruction { op: Operation::INX, mode: AddressingMode::NoneAddressing, operand_len: 0, cycles: 2 })
    );
    assert_eq!(decode(0x00), None);
    assert_eq!(decode(0xFF), None);
}

#[test]
fn process_instruction_uses_bytes_after_program_counter() {
    let mut cpu = cpu_with_program(&[0x00, 0x42]);
    assert_eq!(cpu.process_instruction(0xA9), Ok(2));
    assert_eq!(cpu.accumulator, 0x42);
    assert_eq!(cpu.pc, 2);
}

#[test]
fn status_byte_packs_every_flag() {
    let mut cpu = CPU::new(zeroed_bus());
    assert_eq!(cpu.status_byte(), 0x02);
    cpu.c = true;
    cpu.b_2 = true;
    cpu.n = true;
    assert_eq!(cpu.status_byte(), 0x02 | 0x01 | 0x20 | 0x80);
}

#[test]
fn status_byte_round_trips() {
    let mut cpu = CPU::new(zeroed_bus());
    cpu.set_status_byte(0x5A);
    assert!(!cpu.c && cpu.z && !cpu.i && cpu.d && cpu.b_1 && !cpu.b_2 && cpu.v && !cpu.n);
    assert_eq!(cpu.status_byte(), 0x5A);
    for p in 0..=255u8 {
        cpu.set_status_byte(p);
        assert_eq!(cpu.status_byte(), p);
    }
}
