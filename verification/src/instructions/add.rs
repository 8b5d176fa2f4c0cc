use crate::error::Error;
use crate::instructions::{
    read_operand_value, write_operand_value, Execute, Instruction, Operand,
};
use crate::memory::Memory;
use crate::processor::Processor;
use crate::register::{Flag, Width};
use crate::semantics::width_max;
use vstd::prelude::*;

verus! {

/// Adds two resolved values with wraparound at the destination's bit width,
/// records in the overflow flag whether the sum wrapped, and writes the
/// wrapped sum to the destination.
#[derive(Debug, Default, PartialEq, Eq, Clone, Copy)]
pub struct Add {
    pub value: Operand,
    pub source: Operand,
    pub destination: Operand,
}

impl Add {
    /// Constructs a new `Add`.
    pub fn new(value: Operand, source: Operand, destination: Operand) -> (r: Self)
        ensures
            r.instr() == Instruction::Add(value, source, destination),
    {
        Add { value, source, destination }
    }
}

/// The largest value the given width holds: the bound the overflow flag is
/// judged against.
fn width_max_value(w: &Width) -> (r: u64)
    ensures
        r == width_max(crate::register::width_bytes(*w)),
{
    match w {
        Width::Byte(_) => 0xFF,
        Width::Word(_) => 0xFFFF,
        Width::DWord(_) => 0xFFFF_FFFF,
        Width::QWord(_) => 0xFFFF_FFFF_FFFF_FFFF,
    }
}

impl Execute for Add {
    open spec fn instr(&self) -> Instruction {
        Instruction::Add(self.value, self.source, self.destination)
    }

    fn execute(&self, processor: &mut Processor, memory: &mut Memory) -> (r: Result<(), Error>) {
        let a = match read_operand_value(processor, memory, &self.source) {
            Ok(v) => v,
            Err(e) => {
                return Err(e);
            },
        };
        let b = match read_operand_value(processor, memory, &self.value) {
            Ok(v) => v,
            Err(e) => {
                return Err(e);
            },
        };
        let max = match &self.destination {
            Operand::Register(w) => width_max_value(w),
            Operand::Memory(w) => width_max_value(w),
            Operand::MemoryRegister(w) => width_max_value(w),
            _ => {
                return Err(Error::InvalidOperand);
            },
        };
        let sum = (a as u128) + (b as u128);
        let overflowed = sum > (max as u128);
        let wrapped = #[verifier::truncate] (sum as u64);
        proof {
            assert(sum as u64 == (sum % 0x1_0000_0000_0000_0000u128) as u64) by (bit_vector);
        }
        processor.set_flag(Flag::Overflow, overflowed);
        write_operand_value(processor, memory, &self.destination, wrapped)
    }
}

} // verus!
