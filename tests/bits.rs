use rfce::bits::{as_address, Addr, Bitwise};

#[test]
fn test_bit_test() {
    assert_eq!(1.test_bit(0), true);
    assert_eq!(0xff.test_bit(7), true);
    assert_eq!(0x7fffu16.test_bit(15), false);
    assert_eq!((u128::MAX - (1 << 127)).test_bit(127), false);
    assert_eq!(i128::MIN.test_bit(127), true);
}

#[test]
fn lsb_msb_test() {
    assert_eq!(0x1234.msb(), 0x12);
    assert_eq!(0x1234.lsb(), 0x34);
}

#[test]
fn as_address_combines_bytes() {
    assert_eq!(as_address(0x34, 0x12), 0x1234);
    assert_eq!(as_address(0xff, 0x00), 0x00ff);
}

#[test]
fn test_bit_on_bytes() {
    assert!(0b1000_0000u8.test_bit(7));
    assert!(!0b1000_0000u8.test_bit(6));
    assert!((-1i8).test_bit(7));
}
