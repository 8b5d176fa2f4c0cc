use crate::error::Error;
use crate::instructions::{read_operand_value, Execute, Instruction, Operand};
use crate::memory::Memory;
use crate::processor::Processor;
use vstd::prelude::*;

verus! {

/// The call indices the machine itself defines. Index zero is reserved for
/// the built-in diagnostic dump of processor state; every other index
/// belongs to the embedder and names no callback registered here.
#[derive(Debug, PartialEq, Eq, Clone, Copy)]
pub enum CallIndex {
    /// Appends a snapshot of the processor's registers to its diagnostic
    /// log.
    PrintProcessor,
}

impl CallIndex {
    /// The built-in callback a call index names; an index with no
    /// registered callback fails with `CallIndexUnknown`.
    pub fn from_index(value: u64) -> (r: Result<CallIndex, Error>)
        ensures
            value == 0 ==> r == Ok::<CallIndex, Error>(CallIndex::PrintProcessor),
            value != 0 ==> r == Err::<CallIndex, Error>(Error::CallIndexUnknown),
    {
        if value == 0 {
            Ok(CallIndex::PrintProcessor)
        } else {
            Err(Error::CallIndexUnknown)
        }
    }

    /// The numeric index this callback is keyed by.
    pub fn index(&self) -> (r: u64)
        ensures
            r == 0,
    {
        match self {
            CallIndex::PrintProcessor => 0,
        }
    }
}

/// Calls the host callback keyed by the resolved index. The reserved index
/// zero performs the built-in diagnostic dump; any other index fails with
/// `CallIndexUnknown` without crashing the engine.
#[derive(Debug, Default, PartialEq, Eq, Clone, Copy)]
pub struct Call {
    pub call_index: Operand,
}

impl Call {
    /// Constructs a new `Call`.
    pub fn new(call_index: Operand) -> (r: Self)
        ensures
            r.instr() == Instruction::Call(call_index),
    {
        Call { call_index }
    }
}

impl Execute for Call {
    open spec fn instr(&self) -> Instruction {
        Instruction::Call(self.call_index)
    }

    fn execute(&self, processor: &mut Processor, memory: &mut Memory) -> (r: Result<(), Error>) {
        let index = match read_operand_value(processor, memory, &self.call_index) {
            Ok(v) => v,
            Err(e) => {
                return Err(e);
            },
        };
        match CallIndex::from_index(index) {
            Ok(CallIndex::PrintProcessor) => {
                processor.push_dump();
                Ok(())
            },
            Err(e) => Err(e),
        }
    }
}

} // verus!
