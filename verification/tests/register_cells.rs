use vm::register::{Register, ReservedIndex, Width};
use vm::Vm;

#[test]
pub fn register_roundtrip_u8() {
    for value in [0u8, 1, 0x7F, 0xAB, 0xFF] {
        let mut register = Register::new(0x1122_3344_5566_7788);
        register.assign_u8(value);
        assert_eq!(register.as_u8(), value);
    }
}

#[test]
pub fn register_roundtrip_u16() {
    for value in [0u16, 1, 0xABCD, 0xFFFF] {
        let mut register = Register::new(0x1122_3344_5566_7788);
        register.assign_u16(value);
        assert_eq!(register.as_u16(), value);
    }
}

#[test]
pub fn register_roundtrip_u32() {
    for value in [0u32, 1, 0xDEAD_BEEF, 0xFFFF_FFFF] {
        let mut register = Register::new(0x1122_3344_5566_7788);
        register.assign_u32(value);
        assert_eq!(register.as_u32(), value);
    }
}

#[test]
pub fn register_roundtrip_u64() {
    for value in [0u64, 1, 0x0123_4567_89AB_CDEF, u64::MAX] {
        let mut register = Register::new(0x1122_3344_5566_7788);
        register.assign_u64(value);
        assert_eq!(register.as_u64(), value);
    }
}

#[test]
pub fn register_roundtrip_every_index_and_width() {
    // Every register of the bank behaves the same at every width.
    let mut vm = Vm::new();
    let handle = vm.new_processor();
    let processor = vm.processor_mut(handle).unwrap();

    for index in 0..16usize {
        let register = processor.register_mut(index).unwrap();
        register.assign_u8(0xA5);
        assert_eq!(processor.register(index).unwrap().as_u8(), 0xA5);

        let register = processor.register_mut(index).unwrap();
        register.assign_u16(0xBEEF);
        assert_eq!(processor.register(index).unwrap().as_u16(), 0xBEEF);

        let register = processor.register_mut(index).unwrap();
        register.assign_u32(0xCAFE_F00D);
        assert_eq!(processor.register(index).unwrap().as_u32(), 0xCAFE_F00D);

        let register = processor.register_mut(index).unwrap();
        register.assign_u64(0x0123_4567_89AB_CDEF);
        assert_eq!(
            processor.register(index).unwrap().as_u64(),
            0x0123_4567_89AB_CDEF
        );
    }

    assert!(processor.register(16).is_err());
    assert!(processor.register_mut(16).is_err());
}

#[test]
pub fn register_narrow_write_keeps_high_bytes() {
    // A narrow write replaces only the low bytes; a wider read returns the
    // narrow value zero-extended in the low bytes with the prior content in
    // the high bytes.
    let mut register = Register::new(0x1122_3344_5566_7788);
    register.assign_u8(0xAB);
    assert_eq!(register.as_u16(), 0x77AB);
    assert_eq!(register.as_u32(), 0x5566_77AB);
    assert_eq!(register.as_u64(), 0x1122_3344_5566_77AB);

    let mut register = Register::new(0x1122_3344_5566_7788);
    register.assign_u16(0xAB);
    assert_eq!(register.as_u32(), 0x5566_00AB);
    assert_eq!(register.as_u64(), 0x1122_3344_5566_00AB);

    let mut register = Register::new(0x1122_3344_5566_7788);
    register.assign_u32(0xAB);
    assert_eq!(register.as_u64(), 0x1122_3344_0000_00AB);
}

#[test]
pub fn register_signed_reinterprets_bits() {
    let mut register = Register::new(0);
    register.assign_i8(-1);
    assert_eq!(register.as_u8(), 0xFF);
    assert_eq!(register.as_i8(), -1);

    register.assign_i16(-2);
    assert_eq!(register.as_u16(), 0xFFFE);
    assert_eq!(register.as_i16(), -2);

    register.assign_i32(-3);
    assert_eq!(register.as_u32(), 0xFFFF_FFFD);
    assert_eq!(register.as_i32(), -3);

    register.assign_i64(-4);
    assert_eq!(register.as_u64(), 0xFFFF_FFFF_FFFF_FFFC);
    assert_eq!(register.as_i64(), -4);
}

#[test]
pub fn width_views_truncate_registers() {
    let mut vm = Vm::new();
    let handle = vm.new_processor();
    let processor = vm.processor_mut(handle).unwrap();
    processor
        .register_mut(3)
        .unwrap()
        .assign_u64(0x1122_3344_5566_7788);

    let processor = vm.processor(handle).unwrap();
    assert_eq!(Width::Byte(3).as_u64(processor).unwrap(), 0x88);
    assert_eq!(Width::Word(3).as_u64(processor).unwrap(), 0x7788);
    assert_eq!(Width::DWord(3).as_u64(processor).unwrap(), 0x5566_7788);
    assert_eq!(
        Width::QWord(3).as_u64(processor).unwrap(),
        0x1122_3344_5566_7788
    );
    assert_eq!(Width::Word(3).as_u8(processor).unwrap(), 0x88);
    assert_eq!(Width::QWord(3).as_u16(processor).unwrap(), 0x7788);
    assert_eq!(Width::QWord(3).as_u32(processor).unwrap(), 0x5566_7788);
    assert_eq!(Width::Byte(3).as_u32(processor).unwrap(), 0x88);
    assert!(Width::Byte(16).as_u64(processor).is_err());
}

#[test]
pub fn reserved_indices_name_flags_and_counter() {
    assert_eq!(ReservedIndex::Flags.index(), 14);
    assert_eq!(ReservedIndex::InstructionCounter.index(), 15);
}
