use cpu6502::cpu::status::{ProcessorStatus, StatusFlag};

fn every_flag() -> [StatusFlag; 8] {
    [
        StatusFlag::Negative,
        StatusFlag::Overflow,
        StatusFlag::Ignored,
        StatusFlag::Break,
        StatusFlag::Decimal,
        StatusFlag::Interrupt,
        StatusFlag::Zero,
        StatusFlag::Carry,
    ]
}

#[test]
fn flags_sit_at_their_documented_bits() {
    assert_eq!(StatusFlag::Negative.mask(), 0x80);
    assert_eq!(StatusFlag::Overflow.mask(), 0x40);
    assert_eq!(StatusFlag::Ignored.mask(), 0x20);
    assert_eq!(StatusFlag::Break.mask(), 0x10);
    assert_eq!(StatusFlag::Decimal.mask(), 0x08);
    assert_eq!(StatusFlag::Interrupt.mask(), 0x04);
    assert_eq!(StatusFlag::Zero.mask(), 0x02);
    assert_eq!(StatusFlag::Carry.mask(), 0x01);
}

#[test]
fn setting_a_flag_sets_its_bit_only() {
    for flag in every_flag() {
        let mut status = ProcessorStatus(0);
        status.set_flag(flag, true);
        assert_eq!(status.0, flag.mask());
        assert!(status.get_flag(flag));
    }
}

#[test]
fn clearing_a_flag_clears_its_bit_only() {
    for flag in every_flag() {
        let mut status = ProcessorStatus(0xFF);
        status.set_flag(flag, false);
        assert_eq!(status.0, 0xFF - flag.mask());
        assert!(!status.get_flag(flag));
    }
}

#[test]
fn a_write_to_one_flag_leaves_the_others() {
    for byte in 0..=255u8 {
        for flag in every_flag() {
            for set in [false, true] {
                let before = ProcessorStatus(byte);
                let mut after = before;
                after.set_flag(flag, set);
                for other in every_flag() {
                    if other == flag {
                        assert_eq!(after.get_flag(other), set);
                    } else {
                        assert_eq!(after.get_flag(other), before.get_flag(other));
                    }
                }
            }
        }
    }
}

#[test]
fn get_flag_reads_the_packed_byte() {
    let status = ProcessorStatus(0b1010_0101);
    assert!(status.get_flag(StatusFlag::Negative));
    assert!(!status.get_flag(StatusFlag::Overflow));
    assert!(status.get_flag(StatusFlag::Ignored));
    assert!(!status.get_flag(StatusFlag::Break));
    assert!(!status.get_flag(StatusFlag::Decimal));
    assert!(status.get_flag(StatusFlag::Interrupt));
    assert!(!status.get_flag(StatusFlag::Zero));
    assert!(status.get_flag(StatusFlag::Carry));
}

#[test]
fn status_starts_clear_and_converts_from_a_byte() {
    assert_eq!(ProcessorStatus::default(), ProcessorStatus(0));
    assert_eq!(ProcessorStatus::from(0x24), ProcessorStatus(0x24));
    assert_eq!(ProcessorStatus::from(0x24).0, 0x24);
}
