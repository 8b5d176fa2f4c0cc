use crate::error::Error;
use crate::instructions::{read_operand_value, Execute, Instruction, Operand};
use crate::memory::Memory;
use crate::processor::Processor;
use crate::register::Flag;
use vstd::prelude::*;

verus! {

/// Compares two resolved values: records in the zero flag whether their
/// wraparound difference is zero and in the greater flag whether the value
/// is unsigned-greater than the comparator. The overflow flag is untouched.
#[derive(Debug, Default, PartialEq, Eq, Clone, Copy)]
pub struct Cmp {
    pub value: Operand,
    pub comparator: Operand,
}

impl Cmp {
    /// Constructs a new `Cmp`.
    pub fn new(value: Operand, comparator: Operand) -> (r: Self)
        ensures
            r.instr() == Instruction::Cmp(value, comparator),
    {
        Cmp { value, comparator }
    }
}

impl Execute for Cmp {
    open spec fn instr(&self) -> Instruction {
        Instruction::Cmp(self.value, self.comparator)
    }

    fn execute(&self, processor: &mut Processor, memory: &mut Memory) -> (r: Result<(), Error>) {
        let value = match read_operand_value(processor, memory, &self.value) {
            Ok(v) => v,
            Err(e) => {
                return Err(e);
            },
        };
        let comparator = match read_operand_value(processor, memory, &self.comparator) {
            Ok(v) => v,
            Err(e) => {
                return Err(e);
            },
        };
        processor.set_flag(Flag::Zero, value.wrapping_sub(comparator) == 0);
        processor.set_flag(Flag::Greater, value > comparator);
        Ok(())
    }
}

} // verus!
