use fault_recorder::word::{change_bit, get_bit, get_bit16, i16_from_be_bytes, i16_from_le_bytes, i16_to_le_bytes, reset_bit, set_bit, to_be_bytes};

#[test]
fn bits_of_a_value() {
    assert!(get_bit(0b100, 2));
    assert!(!get_bit(0b100, 1));
    assert_eq!(set_bit(0, 3), 8);
    assert_eq!(reset_bit(15, 0), 14);
    assert_eq!(change_bit(0, true, 63), i64::MIN);
    assert_eq!(change_bit(-1, false, 0), -2);
    assert!(get_bit16(-1, 15));
}

#[test]
fn words_from_bytes() {
    assert_eq!(i16_from_le_bytes(0x34, 0x12), 0x1234);
    assert_eq!(i16_from_be_bytes(0x12, 0x34), 0x1234);
    assert_eq!(i16_from_be_bytes(0xff, 0xfe), -2);
    assert_eq!(i16_to_le_bytes(-2), (0xfe, 0xff));
    let (lo, hi) = i16_to_le_bytes(12345);
    assert_eq!(i16_from_le_bytes(lo, hi), 12345);
    assert_eq!(to_be_bytes(0x0102, 2), vec![1, 2]);
    assert_eq!(to_be_bytes(0x0102, 4), vec![0, 0, 1, 2]);
    assert_eq!(to_be_bytes(u64::MAX, 1), vec![0xff]);
}
