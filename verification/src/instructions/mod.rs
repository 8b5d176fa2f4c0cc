pub mod add;
pub mod call;
pub mod cmp;
pub mod jmp;
pub mod jnz;
pub mod jz;
pub mod mov;

use crate::error::Error;
use crate::memory::Memory;
use crate::processor::Processor;
use crate::register::Width;
use crate::semantics::{read_operand, step_instr, write_operand, State};
use vstd::prelude::*;

verus! {

/// A typed reference to a value's source or destination.
///
/// `Value` is an immediate. `Register` views a register at a width.
/// `Memory` views the memory cell at a fixed address at a width.
/// `MemoryRegister` reads the full 64-bit value of the named register as an
/// address, then accesses memory at that address at the given width. `None`
/// stands for an absent operand and resolves to no value.
#[derive(Debug, Default, PartialEq, Eq, Clone, Copy)]
pub enum Operand {
    #[default]
    Absent,
    Value(u64),
    Register(Width),
    Memory(Width),
    MemoryRegister(Width),
}

/// One instruction of the closed instruction set, over typed operands.
/// Immutable once compiled; a stream of these is indexed by the
/// instruction counter.
#[derive(Debug, PartialEq, Eq, Clone, Copy)]
pub enum Instruction {
    /// Calls the host callback keyed by the resolved index; index zero is
    /// the built-in diagnostic dump of processor state.
    Call(Operand),
    /// Moves the resolved source value into the destination.
    Mov(Operand, Operand),
    /// Transfers control to the resolved target.
    Jmp(Operand),
    /// Transfers control to the resolved target if the zero flag is set,
    /// clearing it.
    Jz(Operand),
    /// Transfers control to the resolved target if the zero flag is clear.
    Jnz(Operand),
    /// Compares two resolved values and records the zero and greater flags.
    Cmp(Operand, Operand),
    /// Adds two resolved values with wraparound at the destination's width,
    /// records the overflow flag, and writes the sum to the destination.
    Add(Operand, Operand, Operand),
}

/// An instruction in the executable form the engine dispatches on: a
/// tagged variant holding the per-instruction executor.
#[derive(Debug, PartialEq, Eq, Clone, Copy)]
pub enum Executable {
    Call(call::Call),
    Mov(mov::Mov),
    Jmp(jmp::Jmp),
    Jz(jz::Jz),
    Jnz(jnz::Jnz),
    Cmp(cmp::Cmp),
    Add(add::Add),
}

/// An executor for one instruction: executing it transforms the processor's
/// registers, the shared memory and the diagnostic log exactly as the
/// instruction's semantics dictate.
pub trait Execute: Sized {
    /// The instruction this executor stands for.
    spec fn instr(&self) -> Instruction;

    /// Executes the instruction, mutating registers, memory, flags and the
    /// diagnostic log; on failure the state is the one the semantics
    /// prescribe for that failure.
    fn execute(&self, processor: &mut Processor, memory: &mut Memory) -> (r: Result<(), Error>)
        requires
            old(processor).wf(),
            old(memory).wf(),
        ensures
            final(processor).wf(),
            final(memory).wf(),
            step_instr(
                State {
                    regs: old(processor).regs(),
                    mem: old(memory)@,
                    dumps: old(processor).dump_log(),
                },
                self.instr(),
            ) == (
                r,
                State {
                    regs: final(processor).regs(),
                    mem: final(memory)@,
                    dumps: final(processor).dump_log(),
                },
            ),
            final(processor).ctx() == old(processor).ctx(),
    ;
}

impl Executable {
    /// The instruction this executable form stands for.
    pub open spec fn instr(&self) -> Instruction {
        match self {
            Executable::Call(i) => i.instr(),
            Executable::Mov(i) => i.instr(),
            Executable::Jmp(i) => i.instr(),
            Executable::Jz(i) => i.instr(),
            Executable::Jnz(i) => i.instr(),
            Executable::Cmp(i) => i.instr(),
            Executable::Add(i) => i.instr(),
        }
    }

    /// Dispatches exhaustively to the executor of the variant.
    pub fn execute(&self, processor: &mut Processor, memory: &mut Memory) -> (r: Result<
        (),
        Error,
    >)
        requires
            old(processor).wf(),
            old(memory).wf(),
        ensures
            final(processor).wf(),
            final(memory).wf(),
            step_instr(
                State {
                    regs: old(processor).regs(),
                    mem: old(memory)@,
                    dumps: old(processor).dump_log(),
                },
                self.instr(),
            ) == (
                r,
                State {
                    regs: final(processor).regs(),
                    mem: final(memory)@,
                    dumps: final(processor).dump_log(),
                },
            ),
            final(processor).ctx() == old(processor).ctx(),
    {
        match self {
            Executable::Call(i) => i.execute(processor, memory),
            Executable::Mov(i) => i.execute(processor, memory),
            Executable::Jmp(i) => i.execute(processor, memory),
            Executable::Jz(i) => i.execute(processor, memory),
            Executable::Jnz(i) => i.execute(processor, memory),
            Executable::Cmp(i) => i.execute(processor, memory),
            Executable::Add(i) => i.execute(processor, memory),
        }
    }
}

impl Instruction {
    /// Converts the instruction into the executable form the engine runs.
    pub fn executable(self) -> (r: Executable)
        ensures
            r.instr() == self,
    {
        match self {
            Instruction::Call(index) => Executable::Call(call::Call::new(index)),
            Instruction::Mov(source, destination) => Executable::Mov(
                mov::Mov::new(source, destination),
            ),
            Instruction::Jmp(source) => Executable::Jmp(jmp::Jmp::new(source)),
            Instruction::Jz(source) => Executable::Jz(jz::Jz::new(source)),
            Instruction::Jnz(source) => Executable::Jnz(jnz::Jnz::new(source)),
            Instruction::Cmp(value, comparator) => Executable::Cmp(
                cmp::Cmp::new(value, comparator),
            ),
            Instruction::Add(value, source, destination) => Executable::Add(
                add::Add::new(value, source, destination),
            ),
        }
    }
}

/// Resolves an operand to the value it references, as the semantics
/// prescribe: an immediate is itself; a register view is the register's low
/// bytes zero-extended; a memory view reads the cell; a memory-register
/// view reads the full register value as an address and then the cell
/// there; an absent operand fails with `InvalidOperand`.
pub fn read_operand_value(processor: &Processor, memory: &Memory, op: &Operand) -> (r: Result<
    u64,
    Error,
>)
    requires
        processor.wf(),
        memory.wf(),
    ensures
        r == read_operand(
            State { regs: processor.regs(), mem: memory@, dumps: processor.dump_log() },
            *op,
        ),
{
    match op {
        Operand::Absent => Err(Error::InvalidOperand),
        Operand::Value(v) => Ok(*v),
        Operand::Register(w) => w.as_u64(processor),
        Operand::Memory(w) => memory.get_cell(w.index() as u64, w.bytes()),
        Operand::MemoryRegister(w) => {
            let address = processor.register(w.index())?.as_u64();
            memory.get_cell(address, w.bytes())
        },
    }
}

/// Writes a value through a destination operand, as the semantics
/// prescribe: a register view replaces the register's low bytes; a memory
/// or memory-register view replaces the addressed cell with one of the
/// operand's width; an immediate or absent operand fails with
/// `InvalidOperand`. The written value is truncated to the operand's width.
pub fn write_operand_value(
    processor: &mut Processor,
    memory: &mut Memory,
    op: &Operand,
    value: u64,
) -> (r: Result<(), Error>)
    requires
        old(processor).wf(),
        old(memory).wf(),
    ensures
        final(processor).wf(),
        final(memory).wf(),
        final(processor).dump_log() == old(processor).dump_log(),
        final(processor).ctx() == old(processor).ctx(),
        match write_operand(
            State {
                regs: old(processor).regs(),
                mem: old(memory)@,
                dumps: old(processor).dump_log(),
            },
            *op,
            value,
        ) {
            Ok(s) => r == Ok::<(), Error>(()) && final(processor).regs() == s.regs && final(memory)@ == s.mem,
            Err(e) => r == Err::<(), Error>(e) && final(processor).regs() == old(processor).regs() && final(memory)@ == old(memory)@,
        },
{
    match op {
        Operand::Absent => Err(Error::InvalidOperand),
        Operand::Value(_) => Err(Error::InvalidOperand),
        Operand::Register(w) => match w {
            Width::Byte(i) => processor.register_assign_u8(
                *i,
                #[verifier::truncate] (value as u8),
            ),
            Width::Word(i) => processor.register_assign_u16(
                *i,
                #[verifier::truncate] (value as u16),
            ),
            Width::DWord(i) => processor.register_assign_u32(
                *i,
                #[verifier::truncate] (value as u32),
            ),
            Width::QWord(i) => processor.register_assign_u64(*i, value),
        },
        Operand::Memory(w) => {
            memory.put_cell(w.index() as u64, w.bytes(), value);
            Ok(())
        },
        Operand::MemoryRegister(w) => {
            let address = processor.register(w.index())?.as_u64();
            memory.put_cell(address, w.bytes(), value);
            Ok(())
        },
    }
}

} // verus!
