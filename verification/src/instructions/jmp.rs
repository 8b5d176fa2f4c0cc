use crate::error::Error;
use crate::instructions::{read_operand_value, Execute, Instruction, Operand};
use crate::memory::Memory;
use crate::processor::Processor;
use vstd::prelude::*;

verus! {

/// Transfers control to the resolved target: loads it into the
/// instruction counter.
#[derive(Debug, Default, PartialEq, Eq, Clone, Copy)]
pub struct Jmp {
    pub source: Operand,
}

impl Jmp {
    /// Constructs a new `Jmp`.
    pub fn new(source: Operand) -> (r: Self)
        ensures
            r.instr() == Instruction::Jmp(source),
    {
        Jmp { source }
    }
}

impl Execute for Jmp {
    open spec fn instr(&self) -> Instruction {
        Instruction::Jmp(self.source)
    }

    fn execute(&self, processor: &mut Processor, memory: &mut Memory) -> (r: Result<(), Error>) {
        let target = match read_operand_value(processor, memory, &self.source) {
            Ok(v) => v,
            Err(e) => {
                return Err(e);
            },
        };
        match processor.register_assign_u64(15, target) {
            Ok(_) => Ok(()),
            Err(e) => Err(e),
        }
    }
}

} // verus!
