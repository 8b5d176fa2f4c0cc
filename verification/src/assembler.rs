use crate::instructions::{Executable, Instruction, Operand};
use crate::processor::prog_of;
use vstd::prelude::*;

verus! {

/// A pure builder of instruction streams: accumulates instructions through
/// chained append calls, one per instruction kind, and compiles them to the
/// executable stream the machine loads.
///
/// Holds no machine state and performs no resolution: identical call
/// sequences always compile to identical streams.
#[derive(Debug, Default)]
pub struct Assembler {
    instructions: Vec<Instruction>,
}

impl View for Assembler {
    type V = Seq<Instruction>;

    closed spec fn view(&self) -> Seq<Instruction> {
        self.instructions@
    }
}

impl Assembler {
    /// Constructs an assembler holding no instructions.
    pub fn new() -> (r: Self)
        ensures
            r@ =~= Seq::<Instruction>::empty(),
    {
        Assembler { instructions: Vec::new() }
    }

    /// The instructions accumulated so far, in order.
    pub fn instructions(&self) -> (r: &Vec<Instruction>)
        ensures
            r@ == self@,
    {
        &self.instructions
    }

    /// Appends a `Call` of the given index operand.
    pub fn call(self, index: Operand) -> (r: Self)
        ensures
            r@ == self@.push(Instruction::Call(index)),
    {
        let mut assembler = self;
        assembler.instructions.push(Instruction::Call(index));
        assembler
    }

    /// Appends a `Mov` from the source operand to the destination operand.
    pub fn mov(self, source: Operand, destination: Operand) -> (r: Self)
        ensures
            r@ == self@.push(Instruction::Mov(source, destination)),
    {
        let mut assembler = self;
        assembler.instructions.push(Instruction::Mov(source, destination));
        assembler
    }

    /// Appends a `Jmp` to the given target operand.
    pub fn jmp(self, source: Operand) -> (r: Self)
        ensures
            r@ == self@.push(Instruction::Jmp(source)),
    {
        let mut assembler = self;
        assembler.instructions.push(Instruction::Jmp(source));
        assembler
    }

    /// Appends a `Jz` to the given target operand.
    pub fn jz(self, source: Operand) -> (r: Self)
        ensures
            r@ == self@.push(Instruction::Jz(source)),
    {
        let mut assembler = self;
        assembler.instructions.push(Instruction::Jz(source));
        assembler
    }

    /// Appends a `Jnz` to the given target operand.
    pub fn jnz(self, source: Operand) -> (r: Self)
        ensures
            r@ == self@.push(Instruction::Jnz(source)),
    {
        let mut assembler = self;
        assembler.instructions.push(Instruction::Jnz(source));
        assembler
    }

    /// Appends a `Cmp` of the value operand against the comparator operand.
    pub fn cmp(self, value: Operand, comparator: Operand) -> (r: Self)
        ensures
            r@ == self@.push(Instruction::Cmp(value, comparator)),
    {
        let mut assembler = self;
        assembler.instructions.push(Instruction::Cmp(value, comparator));
        assembler
    }

    /// Appends an `Add` of the value and source operands into the
    /// destination operand.
    pub fn add(self, value: Operand, source: Operand, destination: Operand) -> (r: Self)
        ensures
            r@ == self@.push(Instruction::Add(value, source, destination)),
    {
        let mut assembler = self;
        assembler.instructions.push(Instruction::Add(value, source, destination));
        assembler
    }

    /// Compiles the accumulated instructions, in order, to the executable
    /// stream the machine loads.
    pub fn compile(self) -> (r: Vec<Executable>)
        ensures
            prog_of(r@) =~= self@,
    {
        let mut stream: Vec<Executable> = Vec::new();
        let mut i: usize = 0;
        while i < self.instructions.len()
            invariant
                i <= self@.len(),
                stream@.len() == i,
                forall|j: int| 0 <= j < i ==> (#[trigger] stream@[j]).instr() == self@[j],
            decreases self@.len() - i,
        {
            stream.push(self.instructions[i].executable());
            i = i + 1;
        }
        stream
    }
}

} // verus!
