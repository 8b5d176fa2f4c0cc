use crate::error::Error;
use crate::instructions::{read_operand_value, Execute, Instruction, Operand};
use crate::memory::Memory;
use crate::processor::Processor;
use crate::register::Flag;
use vstd::prelude::*;

verus! {

/// Transfers control to the resolved target if the zero flag is set,
/// clearing the flag; falls through otherwise.
#[derive(Debug, Default, PartialEq, Eq, Clone, Copy)]
pub struct Jz {
    pub source: Operand,
}

impl Jz {
    /// Constructs a new `Jz`.
    pub fn new(source: Operand) -> (r: Self)
        ensures
            r.instr() == Instruction::Jz(source),
    {
        Jz { source }
    }
}

impl Execute for Jz {
    open spec fn instr(&self) -> Instruction {
        Instruction::Jz(self.source)
    }

    fn execute(&self, processor: &mut Processor, memory: &mut Memory) -> (r: Result<(), Error>) {
        if !processor.flag(Flag::Zero) {
            return Ok(());
        }
        processor.set_flag(Flag::Zero, false);
        let target = match read_operand_value(processor, memory, &self.source) {
            Ok(v) => v,
            Err(e) => {
                return Err(e);
            },
        };
        match processor.register_assign_u64(15, target) {
            Ok(_) => Ok(()),
            Err(e) => Err(e),
        }
    }
}

} // verus!
