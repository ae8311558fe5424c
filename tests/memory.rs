use nes_emu_rust::memory::MemoryMap;

#[test]
fn memory_testers_test_read_byte() {
    let mut mm = MemoryMap::new();
    mm.write_byte(0x0000, 0xAA);
    mm.write_byte(0xABAB, 0xBB);
    mm.write_byte(0xFFFE, 0xCC);

    assert!(mm.read_byte(0x0000) == 0xAA);
    assert!(mm.read_byte(0xABAB) == 0xBB);
    assert!(mm.read_byte(0xFFFE) == 0xCC);
}

#[test]
fn memory_testers_test_read_word() {
    let mut mm = MemoryMap::new();
    mm.write_byte(0x0000, 0xCD);
    mm.write_byte(0x0001, 0xAB);
    mm.write_byte(0x0002, 0xEF);

    assert!(mm.read_word(0) == 0xABCD);
    assert!(mm.read_word(1) == 0xEFAB);
    assert!(mm.read_word(2) == 0x00EF);
}

#[test]
fn memory_testers_test_write_byte() {
    let mut mm = MemoryMap::new();
    mm.write_byte(0xDDDD, 0xFE);

    assert!(mm.read_byte(0xDDDD) == 0xFE);

    // verify that no other memory has been changed
    for i in 0..0xFFFFu16 {
        if i != 0xDDDD {
            assert!(mm.read_byte(i) == 0);
        }
    }
}

#[test]
fn memory_testers_test_write_word() {
    let mut mm = MemoryMap::new();
    mm.write_word(0xCCCC, 0xABCD);

    assert!(mm.read_byte(0xCCCC) == 0xCD && mm.read_byte(0xCCCD) == 0xAB);

    // verify that that no other memory has been changed
    for i in 0..0xFFFFu16 {
        if i < 0xCCCC || i > 0xCCCD {
            assert!(mm.read_byte(i) == 0);
        }
    }
}

#[test]
fn test_load_program() {
    let program: Vec<u8> = vec![0xAA, 0xBB, 0xCC, 0xDD, 0xEE, 0xFF];
    let mut mm = MemoryMap::new();
    mm.load_program(program.clone());

    for i in 0..0xFFFFusize {
        if i >= 0x8000 && i < 0x8000 + program.len() {
            // should be program data
            assert!(mm.read_byte(i as u16) == program[i - 0x8000]);
        } else {
            // should be 0x00
            assert!(mm.read_byte(i as u16) == 0);
        }
    }
}

#[test]
fn load_program_keeps_surrounding_bytes() {
    let mut mm = MemoryMap::new();
    mm.write_byte(0x7FFF, 0x11);
    mm.write_byte(0x8002, 0x22);
    mm.load_program(vec![0x01, 0x02]);
    assert_eq!(mm.read_byte(0x7FFF), 0x11);
    assert_eq!(mm.read_byte(0x8000), 0x01);
    assert_eq!(mm.read_byte(0x8001), 0x02);
    assert_eq!(mm.read_byte(0x8002), 0x22);
}

#[test]
fn load_program_of_largest_size() {
    let mut mm = MemoryMap::new();
    mm.load_program(vec![0x5A; 0x7FFF]);
    assert_eq!(mm.read_byte(0x8000), 0x5A);
    assert_eq!(mm.read_byte(0xFFFE), 0x5A);
    assert_eq!(mm.read_byte(0x7FFF), 0x00);
}
