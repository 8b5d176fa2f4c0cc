use crate::error::Error;
use crate::instructions::{read_operand_value, Execute, Instruction, Operand};
use crate::memory::Memory;
use crate::processor::Processor;
use crate::register::Flag;
use vstd::prelude::*;

verus! {

/// Transfers control to the resolved target if the zero flag is clear,
/// leaving every flag untouched; falls through otherwise.
#[derive(Debug, Default, PartialEq, Eq, Clone, Copy)]
pub struct Jnz {
    pub source: Operand,
}

impl Jnz {
    /// Constructs a new `Jnz`.
    pub fn new(source: Operand) -> (r: Self)
        ensures
            r.instr() == Instruction::Jnz(source),
    {
        Jnz { source }
    }
}

impl Execute for Jnz {
    open spec fn instr(&self) -> Instruction {
        Instruction::Jnz(self.source)
    }

    fn execute(&self, processor: &mut Processor, memory: &mut Memory) -> (r: Result<(), Error>) {
        if processor.flag(Flag::Zero) {
            return Ok(());
        }
        let target = match read_operand_value(processor, memory, &self.source) {
            Ok(v) => v,
            Err(e) => {
                return Err(e);
            },
        };
        match processor.register_assign_u64(15, target) {
            Ok(_) => Ok(()),
            Err(e) => Err(e),
        }
    }
}

} // verus!
