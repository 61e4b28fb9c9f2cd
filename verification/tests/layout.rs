use mini_kernel::layout::{le_u16, le_u32, le_u64};

#[test]
fn sixteen_bits_low_byte_first() {
    assert_eq!(le_u16(0x1234), [0x34, 0x12]);
    assert_eq!(le_u16(0), [0, 0]);
    assert_eq!(le_u16(u16::MAX), [0xff, 0xff]);
    for x in [1u16, 0xff, 0x100, 0x8000, 0xfffe] {
        assert_eq!(le_u16(x), x.to_le_bytes());
    }
}

#[test]
fn thirty_two_bits_low_byte_first() {
    assert_eq!(le_u32(0x1234_5678), [0x78, 0x56, 0x34, 0x12]);
    for x in [0u32, 1, 0xff, 0x100, 0xffff, 0x1_0000, 0x8000_0000, u32::MAX] {
        assert_eq!(le_u32(x), x.to_le_bytes());
    }
}

#[test]
fn sixty_four_bits_low_byte_first() {
    assert_eq!(le_u64(0x0102_0304_0506_0708), [8, 7, 6, 5, 4, 3, 2, 1]);
    for x in [0u64, 1, 0xff00, 0xffff_ffff, 0x1_0000_0000, 1 << 63, u64::MAX] {
        assert_eq!(le_u64(x), x.to_le_bytes());
    }
}
