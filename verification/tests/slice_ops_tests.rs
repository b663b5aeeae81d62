use gubtool::address::Address;
use gubtool::slice_ops::{
    get_hook_bytes, read_from_slice, rel_i32, u32_from_u64, write_rel_i32, write_to_slice, SliceError,
};

#[test]
fn read_u32_little_endian() {
    let bytes = [1u8, 2, 3, 4, 5];
    assert_eq!(read_from_slice::<u32>(&bytes, 1), Ok(0x0504_0302));
}

#[test]
fn read_i32_negative() {
    let bytes = [0xFEu8, 0xFF, 0xFF, 0xFF];
    assert_eq!(read_from_slice::<i32>(&bytes, 0), Ok(-2));
}

#[test]
fn read_past_end_fails() {
    let bytes = [1u8, 2, 3, 4];
    assert_eq!(read_from_slice::<u32>(&bytes, 1), Err(SliceError::ReadOutOfBounds));
}

#[test]
fn read_with_overflowing_offset_fails() {
    let bytes = [0u8; 8];
    assert_eq!(read_from_slice::<u64>(&bytes, u64::MAX - 3), Err(SliceError::OffsetOverflow));
}

#[test]
fn write_then_read_gives_back_the_value() {
    let mut bytes = vec![0xAAu8; 10];
    assert_eq!(write_to_slice::<u64>(&mut bytes, 1, 0x1122_3344_5566_7788), Ok(()));
    assert_eq!(bytes, vec![0xAA, 0x88, 0x77, 0x66, 0x55, 0x44, 0x33, 0x22, 0x11, 0xAA]);
    assert_eq!(read_from_slice::<u64>(&bytes, 1), Ok(0x1122_3344_5566_7788));
}

#[test]
fn write_past_end_leaves_buffer() {
    let mut bytes = vec![1u8, 2, 3];
    assert_eq!(write_to_slice::<u32>(&mut bytes, 0, 7), Err(SliceError::WriteOutOfBounds));
    assert_eq!(bytes, vec![1, 2, 3]);
}

#[test]
fn relative_distance() {
    assert_eq!(rel_i32(0x1000, 0x1100), Ok(-0x100));
    assert_eq!(rel_i32(0x1_0000_0000, 0), Err(SliceError::RelativeOutOfRange));
}

#[test]
fn write_relative_displacement() {
    let mut code = vec![0u8; 8];
    assert_eq!(write_rel_i32(&mut code, 0x1000, 2, 0x2000, 4), Ok(()));
    // 0x2000 - (0x1000 + 2 + 4) = 0xFFA
    assert_eq!(code, vec![0, 0, 0xFA, 0x0F, 0, 0, 0, 0]);
}

#[test]
fn hook_bytes_jump_and_nops() {
    let hook = get_hook_bytes(0x2000, 0x1000, 7).unwrap();
    // 0x2000 - (0x1000 + 5) = 0xFFB
    assert_eq!(hook, vec![0xE9, 0xFB, 0x0F, 0x00, 0x00, 0x90, 0x90]);
}

#[test]
fn hook_bytes_short_instruction() {
    let hook = get_hook_bytes(0x1000, 0x2000, 3).unwrap();
    let d: i32 = 0x1000 - (0x2000 + 5);
    let b = d.to_le_bytes();
    assert_eq!(hook, vec![0xE9, b[0], b[1], b[2], b[3]]);
}

#[test]
fn hook_out_of_range() {
    assert_eq!(get_hook_bytes(0x1_0000_0000_0000, 0, 5), Err(SliceError::RelativeOutOfRange));
}

#[test]
fn u32_conversion() {
    assert_eq!(u32_from_u64(5), Ok(5));
    assert_eq!(u32_from_u64(1 << 32), Err(SliceError::ConversionFailed));
}

#[test]
fn address_offsets_saturate() {
    let a: u64 = 10;
    assert_eq!(a.add_offset(5), 15);
    assert_eq!(a.sub_offset(20), 0);
    assert_eq!(u64::MAX.add_offset(1), u64::MAX);
    assert_eq!(a.add_offset(5).sub_offset(5), 10);
}
