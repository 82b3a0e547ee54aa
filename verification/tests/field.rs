use stm32f30x_hal::field::{test_bit, with_bit, with_nibble, with_pair};

#[test]
fn bit_is_read() {
    assert!(test_bit(1, 0));
    assert!(!test_bit(1, 1));
    assert!(test_bit(0x8000_0000, 31));
    assert!(!test_bit(0x7fff_ffff, 31));
    assert!(test_bit(0x0002_0000, 17));
}

#[test]
fn bit_is_replaced_and_the_others_kept() {
    assert_eq!(with_bit(0, 0, true), 1);
    assert_eq!(with_bit(0, 31, true), 0x8000_0000);
    assert_eq!(with_bit(0xffff_ffff, 31, false), 0x7fff_ffff);
    assert_eq!(with_bit(0xffff_ffff, 4, false), 0xffff_ffef);
    assert_eq!(with_bit(0x1234_5678, 3, true), 0x1234_5678);
    assert_eq!(with_bit(0x1234_5678, 0, false), 0x1234_5678);
}

#[test]
fn pair_is_replaced_and_the_others_kept() {
    assert_eq!(with_pair(0, 0, 0b11), 0b11);
    assert_eq!(with_pair(0, 15, 0b10), 0x8000_0000);
    assert_eq!(with_pair(0xffff_ffff, 10, 0b10), 0xffef_ffff);
    assert_eq!(with_pair(0xffff_ffff, 0, 0b00), 0xffff_fffc);
    assert_eq!(with_pair(0xa800_0000, 10, 0b10), 0xa820_0000);
    assert_eq!(with_pair(0x1234_5678, 1, 0b10), 0x1234_5678);
}

#[test]
fn nibble_is_replaced_and_the_others_kept() {
    assert_eq!(with_nibble(0, 0, 0xf), 0xf);
    assert_eq!(with_nibble(0, 7, 0x7), 0x7000_0000);
    assert_eq!(with_nibble(0xffff_ffff, 2, 0x7), 0xffff_f7ff);
    assert_eq!(with_nibble(0x1234_5678, 4, 0), 0x1230_5678);
    assert_eq!(with_nibble(0x1234_5678, 4, 4), 0x1234_5678);
}
