use flow_inspector::wire::{read_be128, read_be16, read_be32, read_be64};

const BYTES: [u8; 18] = [
    0x00, 0x01, 0x23, 0x45, 0x67, 0x89, 0xab, 0xcd, 0xef, 0xfe, 0xdc, 0xba, 0x98, 0x76, 0x54, 0x32,
    0x10, 0xff,
];

#[test]
fn sixteen_bits_are_read_high_byte_first() {
    assert_eq!(read_be16(&BYTES, 0), 0x0001);
    assert_eq!(read_be16(&BYTES, 1), 0x0123);
    assert_eq!(read_be16(&BYTES, 16), 0x10ff);
    assert_eq!(read_be16(&[0xff, 0xff], 0), u16::MAX);
    assert_eq!(read_be16(&[0x01, 0xbb], 0), 443);
}

#[test]
fn thirty_two_bits_are_read_high_byte_first() {
    assert_eq!(read_be32(&BYTES, 1), 0x0123_4567);
    assert_eq!(read_be32(&BYTES, 14), 0x5432_10ff);
    assert_eq!(read_be32(&[10, 0, 0, 5], 0), 0x0a00_0005);
    assert_eq!(read_be32(&[0xff; 4], 0), u32::MAX);
}

#[test]
fn sixty_four_bits_are_read_high_byte_first() {
    assert_eq!(read_be64(&BYTES, 1), 0x0123_4567_89ab_cdef);
    assert_eq!(read_be64(&BYTES, 10), 0xdcba_9876_5432_10ff);
    assert_eq!(read_be64(&[0xff; 8], 0), u64::MAX);
}

#[test]
fn one_hundred_and_twenty_eight_bits_are_read_high_byte_first() {
    assert_eq!(read_be128(&BYTES, 1), 0x0123_4567_89ab_cdef_fedc_ba98_7654_3210);
    assert_eq!(read_be128(&BYTES, 2), 0x2345_6789_abcd_effe_dcba_9876_5432_10ff);
    assert_eq!(read_be128(&[0xff; 16], 0), u128::MAX);
    assert_eq!(read_be128(&[0; 16], 0), 0);
}

#[test]
fn readers_agree_with_the_conversions_of_std() {
    for at in 0..=2 {
        let mut two = [0u8; 2];
        two.copy_from_slice(&BYTES[at..at + 2]);
        assert_eq!(read_be16(&BYTES, at), u16::from_be_bytes(two));
        let mut four = [0u8; 4];
        four.copy_from_slice(&BYTES[at..at + 4]);
        assert_eq!(read_be32(&BYTES, at), u32::from_be_bytes(four));
        let mut eight = [0u8; 8];
        eight.copy_from_slice(&BYTES[at..at + 8]);
        assert_eq!(read_be64(&BYTES, at), u64::from_be_bytes(eight));
        let mut sixteen = [0u8; 16];
        sixteen.copy_from_slice(&BYTES[at..at + 16]);
        assert_eq!(read_be128(&BYTES, at), u128::from_be_bytes(sixteen));
    }
}
