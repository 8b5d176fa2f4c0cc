use crate::error::Error;
use vstd::prelude::*;

verus! {

/// One eight-byte storage cell of the register bank.
///
/// The four widths view the low one, two, four or eight bytes of the cell,
/// little-endian: writing a narrow width replaces the low bytes and keeps the
/// high bytes; reading a narrow width truncates to the low bytes. The cell is
/// modelled as the 64-bit value its eight bytes encode.
#[derive(Debug, PartialEq, Eq, Clone, Copy)]
pub struct Register {
    value: u64,
}

impl View for Register {
    type V = u64;

    closed spec fn view(&self) -> u64 {
        self.value
    }
}

/// The reserved indices of the register bank.
#[derive(Debug, PartialEq, Eq, Clone, Copy)]
pub enum ReservedIndex {
    /// The flag bitset lives in this register.
    Flags,
    /// The instruction counter lives in this register.
    InstructionCounter,
}

impl ReservedIndex {
    /// The register index this reserved slot names.
    pub fn index(&self) -> (i: usize)
        ensures
            i == self.spec_index(),
    {
        match self {
            ReservedIndex::Flags => 14,
            ReservedIndex::InstructionCounter => 15,
        }
    }

    /// The register index this reserved slot names.
    pub open spec fn spec_index(&self) -> usize {
        match self {
            ReservedIndex::Flags => 14,
            ReservedIndex::InstructionCounter => 15,
        }
    }
}

/// The flags recorded by `Cmp` and `Add` and read by `Jz` and `Jnz`,
/// packed as single bits of the flags register.
#[derive(Debug, PartialEq, Eq, Clone, Copy)]
pub enum Flag {
    /// Set by `Cmp` when the operands are equal under wraparound subtraction.
    Zero,
    /// Set by `Cmp` when the value is unsigned-greater than the comparator.
    Greater,
    /// Set by `Add` when the sum wrapped at the destination's bit width.
    Overflow,
}

/// The bit of the flags register that records the given flag.
pub open spec fn flag_bit(f: Flag) -> u64 {
    match f {
        Flag::Zero => 1,
        Flag::Greater => 2,
        Flag::Overflow => 4,
    }
}

/// Whether the given flag is set in a flags-register value.
pub open spec fn flag_in(flags: u64, f: Flag) -> bool {
    flags & flag_bit(f) != 0
}

/// A flags-register value with one flag forced to the given state and
/// every other bit kept.
pub open spec fn flags_with(flags: u64, f: Flag, state: bool) -> u64 {
    if state {
        flags | flag_bit(f)
    } else {
        flags & !flag_bit(f)
    }
}

impl Flag {
    /// The bit of the flags register that records this flag.
    pub fn bit(&self) -> (b: u64)
        ensures
            b == flag_bit(*self),
    {
        match self {
            Flag::Zero => 1,
            Flag::Greater => 2,
            Flag::Overflow => 4,
        }
    }
}

/// Forcing one flag leaves exactly that flag in the requested state and
/// every other flag as it was, whatever the rest of the register holds.
pub proof fn lemma_flags_with(flags: u64, f: Flag, state: bool)
    ensures
        flag_in(flags_with(flags, f, state), f) == state,
        forall|g: Flag| g != f ==> flag_in(flags_with(flags, f, state), g) == flag_in(flags, g),
{
    let b = flag_bit(f);
    assert forall|g: Flag| g != f implies flag_in(flags_with(flags, f, state), g) == flag_in(
        flags,
        g,
    ) by {
        let c = flag_bit(g);
        assert(b == 1 || b == 2 || b == 4);
        assert(c == 1 || c == 2 || c == 4);
        assert(b != c);
        assert(((flags | b) & c != 0) == (flags & c != 0)) by (bit_vector)
            requires
                (b == 1 || b == 2 || b == 4) && (c == 1 || c == 2 || c == 4) && b != c,
        ;
        assert(((flags & !b) & c != 0) == (flags & c != 0)) by (bit_vector)
            requires
                (b == 1 || b == 2 || b == 4) && (c == 1 || c == 2 || c == 4) && b != c,
        ;
    }
    assert(b == 1 || b == 2 || b == 4);
    assert((flags | b) & b != 0) by (bit_vector)
        requires
            b == 1 || b == 2 || b == 4,
    ;
    assert((flags & !b) & b == 0) by (bit_vector)
        requires
            b == 1 || b == 2 || b == 4,
    ;
}

/// A 64-bit value whose low byte is replaced by `v` and whose high bytes
/// are kept.
pub open spec fn set_low8(old_value: u64, v: u64) -> u64 {
    (old_value & 0xFFFF_FFFF_FFFF_FF00) | (v & 0xFF)
}

/// A 64-bit value whose low two bytes are replaced by `v` and whose high
/// bytes are kept.
pub open spec fn set_low16(old_value: u64, v: u64) -> u64 {
    (old_value & 0xFFFF_FFFF_FFFF_0000) | (v & 0xFFFF)
}

/// A 64-bit value whose low four bytes are replaced by `v` and whose high
/// bytes are kept.
pub open spec fn set_low32(old_value: u64, v: u64) -> u64 {
    (old_value & 0xFFFF_FFFF_0000_0000) | (v & 0xFFFF_FFFF)
}

impl Register {
    /// Constructs a register holding the given 64-bit value.
    pub fn new(value: u64) -> (r: Self)
        ensures
            r@ == value,
    {
        Register { value }
    }

    /// The low byte of the cell.
    pub fn as_u8(&self) -> (r: u8)
        ensures
            r == self@ as u8,
    {
        #[verifier::truncate] (self.value as u8)
    }

    /// The low two bytes of the cell, little-endian.
    pub fn as_u16(&self) -> (r: u16)
        ensures
            r == self@ as u16,
    {
        #[verifier::truncate] (self.value as u16)
    }

    /// The low four bytes of the cell, little-endian.
    pub fn as_u32(&self) -> (r: u32)
        ensures
            r == self@ as u32,
    {
        #[verifier::truncate] (self.value as u32)
    }

    /// The whole cell as a 64-bit value.
    pub fn as_u64(&self) -> (r: u64)
        ensures
            r == self@,
    {
        self.value
    }

    /// Replaces the low byte of the cell and keeps the high bytes.
    pub fn assign_u8(&mut self, value: u8)
        ensures
            final(self)@ == set_low8(old(self)@, value as u64),
    {
        self.value = (self.value & 0xFFFF_FFFF_FFFF_FF00) | ((value as u64) & 0xFF);
    }

    /// Replaces the low two bytes of the cell and keeps the high bytes.
    pub fn assign_u16(&mut self, value: u16)
        ensures
            final(self)@ == set_low16(old(self)@, value as u64),
    {
        self.value = (self.value & 0xFFFF_FFFF_FFFF_0000) | ((value as u64) & 0xFFFF);
    }

    /// Replaces the low four bytes of the cell and keeps the high bytes.
    pub fn assign_u32(&mut self, value: u32)
        ensures
            final(self)@ == set_low32(old(self)@, value as u64),
    {
        self.value = (self.value & 0xFFFF_FFFF_0000_0000) | ((value as u64) & 0xFFFF_FFFF);
    }

    /// Replaces the whole cell.
    pub fn assign_u64(&mut self, value: u64)
        ensures
            final(self)@ == value,
    {
        self.value = value;
    }

    /// The low byte of the cell, reinterpreted as a signed value.
    pub fn as_i8(&self) -> (r: i8)
        ensures
            r == self@ as i8,
    {
        #[verifier::truncate] (self.value as i8)
    }

    /// The low two bytes of the cell, reinterpreted as a signed value.
    pub fn as_i16(&self) -> (r: i16)
        ensures
            r == self@ as i16,
    {
        #[verifier::truncate] (self.value as i16)
    }

    /// The low four bytes of the cell, reinterpreted as a signed value.
    pub fn as_i32(&self) -> (r: i32)
        ensures
            r == self@ as i32,
    {
        #[verifier::truncate] (self.value as i32)
    }

    /// The whole cell, reinterpreted as a signed value.
    pub fn as_i64(&self) -> (r: i64)
        ensures
            r == self@ as i64,
    {
        #[verifier::truncate] (self.value as i64)
    }

    /// Writes the byte encoding of a signed value into the low byte.
    pub fn assign_i8(&mut self, value: i8)
        ensures
            final(self)@ == set_low8(old(self)@, (value as u8) as u64),
    {
        self.assign_u8(#[verifier::truncate] (value as u8));
    }

    /// Writes the byte encoding of a signed value into the low two bytes.
    pub fn assign_i16(&mut self, value: i16)
        ensures
            final(self)@ == set_low16(old(self)@, (value as u16) as u64),
    {
        self.assign_u16(#[verifier::truncate] (value as u16));
    }

    /// Writes the byte encoding of a signed value into the low four bytes.
    pub fn assign_i32(&mut self, value: i32)
        ensures
            final(self)@ == set_low32(old(self)@, (value as u32) as u64),
    {
        self.assign_u32(#[verifier::truncate] (value as u32));
    }

    /// Writes the byte encoding of a signed value into the whole cell.
    pub fn assign_i64(&mut self, value: i64)
        ensures
            final(self)@ == value as u64,
    {
        self.assign_u64(#[verifier::truncate] (value as u64));
    }
}

/// A width-tagged register index: one of the four little-endian views over
/// the eight bytes of one register cell.
///
/// The payload names the register the view applies to. `Byte` views the low
/// byte, `Word` the low two bytes, `DWord` the low four bytes and `QWord`
/// the whole cell.
#[derive(Debug, PartialEq, Eq, Clone, Copy)]
pub enum Width {
    Byte(usize),
    Word(usize),
    DWord(usize),
    QWord(usize),
}

/// The register index a width view names.
pub open spec fn width_index(w: Width) -> usize {
    match w {
        Width::Byte(i) => i,
        Width::Word(i) => i,
        Width::DWord(i) => i,
        Width::QWord(i) => i,
    }
}

/// The number of low bytes a width views.
pub open spec fn width_bytes(w: Width) -> u64 {
    match w {
        Width::Byte(_) => 1,
        Width::Word(_) => 2,
        Width::DWord(_) => 4,
        Width::QWord(_) => 8,
    }
}

/// A 64-bit value truncated to its low `bytes` bytes, zero-extended.
/// Meaningful for one, two, four or eight bytes.
pub open spec fn truncate_value(bytes: u64, v: u64) -> u64 {
    if bytes == 1 {
        (v as u8) as u64
    } else if bytes == 2 {
        (v as u16) as u64
    } else if bytes == 4 {
        (v as u32) as u64
    } else {
        v
    }
}

/// A register cell after the low `bytes` bytes are replaced by `v` and the
/// high bytes are kept. Meaningful for one, two, four or eight bytes.
pub open spec fn set_low(bytes: u64, old_value: u64, v: u64) -> u64 {
    if bytes == 1 {
        set_low8(old_value, v)
    } else if bytes == 2 {
        set_low16(old_value, v)
    } else if bytes == 4 {
        set_low32(old_value, v)
    } else {
        v
    }
}

impl Width {
    /// The register index this width view names.
    pub fn index(&self) -> (i: usize)
        ensures
            i == width_index(*self),
    {
        match self {
            Width::Byte(i) => *i,
            Width::Word(i) => *i,
            Width::DWord(i) => *i,
            Width::QWord(i) => *i,
        }
    }

    /// The number of low bytes this width views.
    pub fn bytes(&self) -> (b: u64)
        ensures
            b == width_bytes(*self),
    {
        match self {
            Width::Byte(_) => 1,
            Width::Word(_) => 2,
            Width::DWord(_) => 4,
            Width::QWord(_) => 8,
        }
    }

    /// The named register viewed at this width, truncated to an 8-bit
    /// value.
    pub fn as_u8(&self, processor: &crate::processor::Processor) -> (r: Result<u8, Error>)
        requires
            processor.wf(),
        ensures
            width_index(*self) < 16 ==> r == Ok::<u8, Error>(
                truncate_value(width_bytes(*self), processor.regs()[width_index(*self) as int])
                    as u8,
            ),
            width_index(*self) >= 16 ==> r == Err::<u8, Error>(Error::RegisterIndexOutOfBounds),
    {
        match self.as_u64(processor) {
            Ok(v) => Ok(#[verifier::truncate] (v as u8)),
            Err(e) => Err(e),
        }
    }

    /// The named register viewed at this width, truncated to a 16-bit
    /// value.
    pub fn as_u16(&self, processor: &crate::processor::Processor) -> (r: Result<u16, Error>)
        requires
            processor.wf(),
        ensures
            width_index(*self) < 16 ==> r == Ok::<u16, Error>(
                truncate_value(width_bytes(*self), processor.regs()[width_index(*self) as int])
                    as u16,
            ),
            width_index(*self) >= 16 ==> r == Err::<u16, Error>(Error::RegisterIndexOutOfBounds),
    {
        match self.as_u64(processor) {
            Ok(v) => Ok(#[verifier::truncate] (v as u16)),
            Err(e) => Err(e),
        }
    }

    /// The named register viewed at this width, truncated to a 32-bit
    /// value.
    pub fn as_u32(&self, processor: &crate::processor::Processor) -> (r: Result<u32, Error>)
        requires
            processor.wf(),
        ensures
            width_index(*self) < 16 ==> r == Ok::<u32, Error>(
                truncate_value(width_bytes(*self), processor.regs()[width_index(*self) as int])
                    as u32,
            ),
            width_index(*self) >= 16 ==> r == Err::<u32, Error>(Error::RegisterIndexOutOfBounds),
    {
        match self.as_u64(processor) {
            Ok(v) => Ok(#[verifier::truncate] (v as u32)),
            Err(e) => Err(e),
        }
    }

    /// The named register viewed at this width, zero-extended to a 64-bit
    /// value: the value a register operand of this width resolves to.
    pub fn as_u64(&self, processor: &crate::processor::Processor) -> (r: Result<u64, Error>)
        requires
            processor.wf(),
        ensures
            width_index(*self) < 16 ==> r == Ok::<u64, Error>(
                truncate_value(width_bytes(*self), processor.regs()[width_index(*self) as int]),
            ),
            width_index(*self) >= 16 ==> r == Err::<u64, Error>(Error::RegisterIndexOutOfBounds),
    {
        match self {
            Width::Byte(index) => Ok(processor.register(*index)?.as_u8() as u64),
            Width::Word(index) => Ok(processor.register(*index)?.as_u16() as u64),
            Width::DWord(index) => Ok(processor.register(*index)?.as_u32() as u64),
            Width::QWord(index) => Ok(processor.register(*index)?.as_u64()),
        }
    }
}

/// Writing a value at any width and reading the same width back returns
/// the value unchanged — truncated to that width — whatever the cell held
/// before, at every width the bank supports.
pub proof fn lemma_set_low_roundtrip(bytes: u64, cell: u64, v: u64)
    by (bit_vector)
    requires
        bytes == 1 || bytes == 2 || bytes == 4 || bytes == 8,
    ensures
        truncate_value(bytes, set_low(bytes, cell, truncate_value(bytes, v))) == truncate_value(
            bytes,
            v,
        ),
{
}

/// Reading a wider width after a narrower write returns the prior wider
/// content with only its low bytes replaced by the written value: the
/// written value sits zero-extended in the low bytes and the high bytes
/// retain the prior register content.
pub proof fn lemma_set_low_wider_view(bytes: u64, wider: u64, cell: u64, v: u64)
    by (bit_vector)
    requires
        bytes == 1 || bytes == 2 || bytes == 4 || bytes == 8,
        wider == 1 || wider == 2 || wider == 4 || wider == 8,
        bytes <= wider,
    ensures
        truncate_value(wider, set_low(bytes, cell, truncate_value(bytes, v))) == set_low(
            bytes,
            truncate_value(wider, cell),
            truncate_value(bytes, v),
        ),
{
}

/// Writing a value at any width and reading the same width back returns
/// the value unchanged, whatever the cell held before.
pub proof fn lemma_register_roundtrip(cell: u64, v8: u8, v16: u16, v32: u32)
    by (bit_vector)
    ensures
        set_low8(cell, v8 as u64) as u8 == v8,
        set_low16(cell, v16 as u64) as u16 == v16,
        set_low32(cell, v32 as u64) as u32 == v32,
{
}

/// Writing a narrow width and reading a wider width returns the narrow
/// value zero-extended in the low bytes, with the high bytes of the wider
/// view retaining the prior register content.
pub proof fn lemma_register_narrow_write_wide_read(cell: u64, v8: u8, v16: u16, v32: u32)
    by (bit_vector)
    ensures
        set_low8(cell, v8 as u64) as u16 == ((cell as u16) & 0xFF00) | (v8 as u16),
        set_low8(cell, v8 as u64) as u32 == ((cell as u32) & 0xFFFF_FF00) | (v8 as u32),
        set_low8(cell, v8 as u64) == (cell & 0xFFFF_FFFF_FFFF_FF00) | (v8 as u64),
        set_low16(cell, v16 as u64) as u32 == ((cell as u32) & 0xFFFF_0000) | (v16 as u32),
        set_low16(cell, v16 as u64) == (cell & 0xFFFF_FFFF_FFFF_0000) | (v16 as u64),
        set_low32(cell, v32 as u64) == (cell & 0xFFFF_FFFF_0000_0000) | (v32 as u64),
{
}

} // verus!
