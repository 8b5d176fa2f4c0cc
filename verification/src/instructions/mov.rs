use crate::error::Error;
use crate::instructions::{read_operand_value, write_operand_value, Execute, Instruction, Operand};
use crate::memory::Memory;
use crate::processor::Processor;
use vstd::prelude::*;

verus! {

/// Moves data from a source operand to a destination operand.
#[derive(Debug, Default, PartialEq, Eq, Clone, Copy)]
pub struct Mov {
    pub source: Operand,
    pub destination: Operand,
}

impl Mov {
    /// Constructs a new `Mov`.
    pub fn new(source: Operand, destination: Operand) -> (r: Self)
        ensures
            r.instr() == Instruction::Mov(source, destination),
    {
        Mov { source, destination }
    }
}

impl Execute for Mov {
    open spec fn instr(&self) -> Instruction {
        Instruction::Mov(self.source, self.destination)
    }

    fn execute(&self, processor: &mut Processor, memory: &mut Memory) -> (r: Result<(), Error>) {
        let value = match read_operand_value(processor, memory, &self.source) {
            Ok(v) => v,
            Err(e) => {
                return Err(e);
            },
        };
        write_operand_value(processor, memory, &self.destination, value)
    }
}

} // verus!
