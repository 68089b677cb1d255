use cpu6502::cpu::shifting::{rotate_left, rotate_right};

#[test]
fn rotate_left_takes_the_entering_bit_and_gives_the_top_bit() {
    assert_eq!(rotate_left(true, 0b1000_0001), (0b0000_0011, true));
    assert_eq!(rotate_left(false, 0b0100_0000), (0b1000_0000, false));
    assert_eq!(rotate_left(false, 0xFF), (0xFE, true));
    assert_eq!(rotate_left(true, 0x00), (0x01, false));
}

#[test]
fn rotate_right_takes_the_entering_bit_and_gives_the_bottom_bit() {
    assert_eq!(rotate_right(true, 0b0000_0001), (0b1000_0000, true));
    assert_eq!(rotate_right(false, 0b0000_0010), (0b0000_0001, false));
    assert_eq!(rotate_right(false, 0xFF), (0x7F, true));
    assert_eq!(rotate_right(true, 0x00), (0x80, false));
}

#[test]
fn rotate_left_is_doubling_modulo_256() {
    for x in 0..=255u8 {
        for entering in [false, true] {
            let (y, carry) = rotate_left(entering, x);
            assert_eq!(y as u16, (2 * x as u16 + entering as u16) % 256);
            assert_eq!(carry, x >= 128);
        }
    }
}

#[test]
fn rotate_right_is_halving() {
    for x in 0..=255u8 {
        for entering in [false, true] {
            let (y, carry) = rotate_right(entering, x);
            assert_eq!(y as u16, x as u16 / 2 + 128 * entering as u16);
            assert_eq!(carry, x % 2 == 1);
        }
    }
}

#[test]
fn rotate_left_moves_each_bit_one_place_up() {
    for x in 0..=255u8 {
        for entering in [false, true] {
            let (y, carry) = rotate_left(entering, x);
            assert_eq!(y & 1 == 1, entering);
            for index in 1..8 {
                assert_eq!((y >> index) & 1, (x >> (index - 1)) & 1);
            }
            assert_eq!(carry, (x >> 7) & 1 == 1);
        }
    }
}

#[test]
fn rotate_right_moves_each_bit_one_place_down() {
    for x in 0..=255u8 {
        for entering in [false, true] {
            let (y, carry) = rotate_right(entering, x);
            assert_eq!((y >> 7) & 1 == 1, entering);
            for index in 0..7 {
                assert_eq!((y >> index) & 1, (x >> (index + 1)) & 1);
            }
            assert_eq!(carry, x & 1 == 1);
        }
    }
}

#[test]
fn rotating_back_with_the_carry_restores_the_byte() {
    for x in 0..=255u8 {
        for entering in [false, true] {
            let (y, carry) = rotate_left(entering, x);
            assert_eq!(rotate_right(carry, y), (x, entering));
        }
    }
}

#[test]
fn shifting_left_then_right_loses_only_the_top_bit() {
    for x in 0..=255u8 {
        let (y, carry) = rotate_left(false, x);
        let (z, dropped) = rotate_right(false, y);
        assert_eq!(z, x & 0x7F);
        assert!(!dropped);
        assert_eq!(carry, x & 0x80 != 0);
        assert_eq!(z | ((carry as u8) << 7), x);
    }
}
