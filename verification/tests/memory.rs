use cpu6502::cpu::addressable_bus::DataBus;
use cpu6502::cpu::memory::Memory;
use cpu6502::stack_memory::StackMemory;

#[test]
fn new_memory_is_all_zero() {
    let memory = Memory::new();
    for addr in 0..=0xFFFFu16 {
        assert_eq!(memory.get(addr), 0);
    }
}

#[test]
fn a_byte_written_is_read_back_and_nothing_else_changes() {
    let mut memory = Memory::new();
    memory.set(0x1234, 0xAB);
    memory.set(0xFFFF, 0xCD);
    memory.set(0x0000, 0xEF);
    for addr in 0..=0xFFFFu16 {
        let expected = match addr {
            0x1234 => 0xAB,
            0xFFFF => 0xCD,
            0x0000 => 0xEF,
            _ => 0,
        };
        assert_eq!(memory.get(addr), expected);
    }
}

#[test]
fn words_are_little_endian() {
    let mut memory = Memory::new();
    memory.set_word(0x0200, 0xBEEF);
    assert_eq!(memory.get(0x0200), 0xEF);
    assert_eq!(memory.get(0x0201), 0xBE);
    assert_eq!(memory.get_word(0x0200), 0xBEEF);
    memory.set(0x0300, 0x34);
    memory.set(0x0301, 0x12);
    assert_eq!(memory.get_word(0x0300), 0x1234);
}

#[test]
fn a_word_at_the_last_address_wraps_to_the_first() {
    let mut memory = Memory::new();
    memory.set_word(0xFFFF, 0xA1B2);
    assert_eq!(memory.get(0xFFFF), 0xB2);
    assert_eq!(memory.get(0x0000), 0xA1);
    assert_eq!(memory.get_word(0xFFFF), 0xA1B2);
}

#[test]
fn a_program_lands_contiguously_at_its_offset() {
    let mut memory = Memory::new();
    memory.set(0x7FFF, 0x11);
    memory.set(0x8003, 0x22);
    memory.load_program(0x8000, &[0xA9, 0x05, 0xEA]);
    assert_eq!(memory.get(0x7FFF), 0x11);
    assert_eq!(memory.get(0x8000), 0xA9);
    assert_eq!(memory.get(0x8001), 0x05);
    assert_eq!(memory.get(0x8002), 0xEA);
    assert_eq!(memory.get(0x8003), 0x22);
}

#[test]
fn a_program_that_runs_past_the_end_is_cut_off() {
    let mut memory = Memory::new();
    memory.load_program(0xFFFE, &[1, 2, 3, 4]);
    assert_eq!(memory.get(0xFFFE), 1);
    assert_eq!(memory.get(0xFFFF), 2);
    assert_eq!(memory.get(0x0000), 0);
    assert_eq!(memory.get(0x0001), 0);
}

#[test]
fn an_empty_program_changes_nothing() {
    let mut memory = Memory::new();
    memory.set(0x8000, 7);
    memory.load_program(0x8000, &[]);
    assert_eq!(memory.get(0x8000), 7);
}

#[test]
fn a_program_can_fill_the_whole_memory() {
    let image: Vec<u8> = (0..0x1_0000u32).map(|a| (a % 251) as u8).collect();
    let mut memory = Memory::new();
    memory.load_program(0, &image);
    for addr in 0..=0xFFFFu16 {
        assert_eq!(memory.get(addr), (addr as u32 % 251) as u8);
    }
}

#[test]
fn a_lent_cell_writes_through() {
    let mut memory = Memory::new();
    memory.set(0x0042, 9);
    {
        let cell = memory.ref_mut(0x0042);
        assert_eq!(*cell, 9);
        *cell = 10;
    }
    assert_eq!(memory.get(0x0042), 10);
    assert_eq!(memory.get(0x0041), 0);
    assert_eq!(memory.get(0x0043), 0);
}

#[test]
fn memory_serves_as_a_bus() {
    let mut memory = Memory::new();
    DataBus::set(&mut memory, 0x10, 0x77);
    assert_eq!(DataBus::get(&memory, 0x10), 0x77);
    DataBus::set_word(&mut memory, 0x20, 0x0102);
    assert_eq!(DataBus::get(&memory, 0x20), 0x02);
    assert_eq!(DataBus::get(&memory, 0x21), 0x01);
    assert_eq!(DataBus::get_word(&memory, 0x20), 0x0102);
    DataBus::load(&mut memory, 0x30, &[5, 6]);
    assert_eq!(memory.get(0x30), 5);
    assert_eq!(memory.get(0x31), 6);
}

#[test]
fn stack_memory_starts_zeroed() {
    let memory = StackMemory::new();
    let other = StackMemory::default();
    for addr in 0..=0xFFFFu16 {
        assert_eq!(memory.get(addr), 0);
        assert_eq!(other.get(addr), 0);
    }
}

#[test]
fn stack_memory_reads_writes_and_loads() {
    let mut memory = StackMemory::new();
    memory.set(0xFFFF, 0x5A);
    assert_eq!(memory.get(0xFFFF), 0x5A);
    memory.set_word(0x1000, 0xCAFE);
    assert_eq!(memory.get(0x1000), 0xFE);
    assert_eq!(memory.get(0x1001), 0xCA);
    assert_eq!(memory.get_word(0x1000), 0xCAFE);
    memory.load_data(0x8000, &[1, 2, 3]);
    assert_eq!(memory.get(0x7FFF), 0);
    assert_eq!(memory.get(0x8000), 1);
    assert_eq!(memory.get(0x8001), 2);
    assert_eq!(memory.get(0x8002), 3);
    assert_eq!(memory.get(0x8003), 0);
}

#[test]
fn stack_memory_cuts_a_program_off_at_the_end() {
    let mut memory = StackMemory::new();
    memory.load_data(0xFFFF, &[9, 8, 7]);
    assert_eq!(memory.get(0xFFFF), 9);
    assert_eq!(memory.get(0x0000), 0);
    assert_eq!(memory.get(0x0001), 0);
}
