use vm::error::Error;
use vm::memory::Memory;

#[test]
pub fn memory_write_then_read_same_width() {
    let mut memory = Memory::new();

    memory.put_u8(10, 0xAB);
    assert_eq!(memory.get_u8(10), Ok(0xAB));

    memory.put_u16(20, 0xBEEF);
    assert_eq!(memory.get_u16(20), Ok(0xBEEF));

    memory.put_u32(30, 0xCAFE_F00D);
    assert_eq!(memory.get_u32(30), Ok(0xCAFE_F00D));

    memory.put_u64(40, 0x0123_4567_89AB_CDEF);
    assert_eq!(memory.get_u64(40), Ok(0x0123_4567_89AB_CDEF));
}

#[test]
pub fn memory_read_before_write_fails() {
    let memory = Memory::new();
    assert_eq!(memory.get_u8(5), Err(Error::AddressNotPresent));
    assert_eq!(memory.get_u64(5), Err(Error::AddressNotPresent));

    let mut memory = Memory::new();
    memory.put_u8(5, 1);
    assert_eq!(memory.get_u8(6), Err(Error::AddressNotPresent));
}

#[test]
pub fn memory_read_wider_than_cell_fails() {
    let mut memory = Memory::new();
    memory.put_u8(5, 0x7F);

    assert_eq!(memory.get_u16(5), Err(Error::WidthMismatch));
    assert_eq!(memory.get_u32(5), Err(Error::WidthMismatch));
    assert_eq!(memory.get_u64(5), Err(Error::WidthMismatch));

    memory.put_u32(6, 0xDEAD_BEEF);
    assert_eq!(memory.get_u64(6), Err(Error::WidthMismatch));
}

#[test]
pub fn memory_read_narrower_than_cell_truncates() {
    let mut memory = Memory::new();
    memory.put_u64(5, 0x1122_3344_5566_7788);

    assert_eq!(memory.get_u8(5), Ok(0x88));
    assert_eq!(memory.get_u16(5), Ok(0x7788));
    assert_eq!(memory.get_u32(5), Ok(0x5566_7788));
}

#[test]
pub fn memory_write_replaces_cell() {
    // A write replaces the whole cell: a prior wider cell does not survive
    // under a narrower write.
    let mut memory = Memory::new();
    memory.put_u64(5, 0x1122_3344_5566_7788);
    memory.put_u8(5, 0x01);

    assert_eq!(memory.get_u8(5), Ok(0x01));
    assert_eq!(memory.get_u64(5), Err(Error::WidthMismatch));
}

#[test]
pub fn memory_signed_values_roundtrip() {
    let mut memory = Memory::new();

    memory.put_i8(1, -1);
    assert_eq!(memory.get_i8(1), Ok(-1));
    assert_eq!(memory.get_u8(1), Ok(0xFF));

    memory.put_i16(2, -2);
    assert_eq!(memory.get_i16(2), Ok(-2));

    memory.put_i32(3, -3);
    assert_eq!(memory.get_i32(3), Ok(-3));

    memory.put_i64(4, -4);
    assert_eq!(memory.get_i64(4), Ok(-4));
    assert_eq!(memory.get_u64(4), Ok(0xFFFF_FFFF_FFFF_FFFC));
}
