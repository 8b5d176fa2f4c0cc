use crate::error::Error;
use crate::instructions::{Executable, Instruction};
use crate::memory::Memory;
use crate::register::{
    flag_in, flags_with, set_low16, set_low32, set_low8, Flag, Register,
};
use crate::semantics::{cycle, lemma_run_n_stable, run_n, RunOut, State};
use crate::VmCtx;
use std::sync::Arc;
use vstd::prelude::*;

verus! {

/// A single-threaded execution unit: a private bank of sixteen registers, a
/// diagnostic log, and a shared reference to the context — instruction
/// stream and memory store — it runs against.
///
/// Processors are mutually independent even when they share one context:
/// no register state is shared.
pub struct Processor {
    vm_ctx: Arc<VmCtx>,
    registers: Vec<Register>,
    dumps: Vec<Vec<u64>>,
}

impl Processor {
    /// The values of the sixteen registers.
    pub closed spec fn regs(&self) -> Seq<u64> {
        self.registers@.map_values(|r: Register| r@)
    }

    /// The diagnostic log: one sixteen-register snapshot per built-in dump
    /// call executed by this processor.
    pub closed spec fn dump_log(&self) -> Seq<Seq<u64>> {
        self.dumps@.map_values(|v: Vec<u64>| v@)
    }

    /// The shared context this processor runs against.
    pub closed spec fn ctx(&self) -> Arc<VmCtx> {
        self.vm_ctx
    }

    /// Whether the processor is well formed: sixteen registers, and a
    /// well-formed shared context. Constructed processors are well formed
    /// and every method preserves it.
    pub open spec fn wf(&self) -> bool {
        &&& self.regs().len() == 16
        &&& self.ctx().wf()
    }

    /// The state this processor forms together with a memory: what the
    /// instruction semantics act on.
    pub open spec fn state_with(&self, mem: Map<u64, crate::memory::MemCell>) -> State {
        State { regs: self.regs(), mem, dumps: self.dump_log() }
    }

    /// Constructs a processor bound to the given shared context, with every
    /// register zeroed and an empty diagnostic log.
    pub fn new(vm_ctx: &Arc<VmCtx>) -> (p: Self)
        requires
            vm_ctx.wf(),
        ensures
            p.wf(),
            p.regs() =~= Seq::new(16, |i: int| 0u64),
            p.dump_log() =~= Seq::<Seq<u64>>::empty(),
            p.ctx() == *vm_ctx,
    {
        let mut registers: Vec<Register> = Vec::new();
        let mut i: usize = 0;
        while i < 16
            invariant
                i <= 16,
                registers@.len() == i,
                forall|j: int| 0 <= j < i ==> registers@[j]@ == 0u64,
            decreases 16 - i,
        {
            registers.push(Register::new(0));
            i = i + 1;
        }
        let p = Processor { vm_ctx: share_ctx(vm_ctx), registers, dumps: Vec::new() };
        proof {
            assert(p.regs() =~= Seq::new(16, |i: int| 0u64));
            assert(p.dump_log() =~= Seq::<Seq<u64>>::empty());
        }
        p
    }

    /// A reference to the register at the given index; an index outside the
    /// sixteen-cell bank fails with `RegisterIndexOutOfBounds`.
    pub fn register(&self, index: usize) -> (r: Result<&Register, Error>)
        requires
            self.wf(),
        ensures
            index < 16 ==> (r matches Ok(reg) && reg@ == self.regs()[index as int]),
            index >= 16 ==> r == Err::<&Register, Error>(Error::RegisterIndexOutOfBounds),
    {
        if index < self.registers.len() {
            Ok(&self.registers[index])
        } else {
            Err(Error::RegisterIndexOutOfBounds)
        }
    }

    /// A mutable reference to the register at the given index; an index
    /// outside the sixteen-cell bank fails with `RegisterIndexOutOfBounds`.
    /// The bank afterwards holds whatever the caller leaves in the
    /// referenced cell, and nothing else changes.
    pub fn register_mut(&mut self, index: usize) -> (r: Result<&mut Register, Error>)
        requires
            old(self).wf(),
        ensures
            index >= 16 ==> r == Err::<&mut Register, Error>(Error::RegisterIndexOutOfBounds)
                && *final(self) == *old(self),
            index < 16 ==> (r matches Ok(reg) && *reg == old(self).registers()[index as int]
                && final(self).regs() == old(self).regs().update(index as int, final(reg)@)
                && final(self).dump_log() == old(self).dump_log() && final(self).ctx() == old(self).ctx() && final(self).wf()),
    {
        if index < self.registers.len() {
            Ok(&mut self.registers[index])
        } else {
            Err(Error::RegisterIndexOutOfBounds)
        }
    }

    /// The registers as register values rather than 64-bit values.
    pub closed spec fn registers(&self) -> Seq<Register> {
        self.registers@
    }

    /// Sets one flag in the flags register, leaving every other bit.
    pub fn set_flag(&mut self, flag: Flag, state: bool)
        requires
            old(self).wf(),
        ensures
            final(self).wf(),
            final(self).regs() == old(self).regs().update(
                14,
                flags_with(old(self).regs()[14], flag, state),
            ),
            final(self).dump_log() == old(self).dump_log(),
            final(self).ctx() == old(self).ctx(),
    {
        let flags = self.registers[14].as_u64();
        let updated = if state {
            flags | flag.bit()
        } else {
            flags & !flag.bit()
        };
        self.registers[14].assign_u64(updated);
        proof {
            assert(self.regs() =~= old(self).regs().update(
                14,
                flags_with(old(self).regs()[14], flag, state),
            ));
        }
    }

    /// The state of one flag in the flags register.
    pub fn flag(&self, flag: Flag) -> (r: bool)
        requires
            self.wf(),
        ensures
            r == flag_in(self.regs()[14], flag),
    {
        let flags = self.registers[14].as_u64();
        flags & flag.bit() != 0
    }

    /// Replaces the low byte of the register at `index`.
    pub fn register_assign_u8(&mut self, index: usize, value: u8) -> (r: Result<(), Error>)
        requires
            old(self).wf(),
        ensures
            final(self).wf(),
            final(self).dump_log() == old(self).dump_log(),
            final(self).ctx() == old(self).ctx(),
            index < 16 ==> r == Ok::<(), Error>(()) && final(self).regs() == old(self).regs().update(index as int, set_low8(old(self).regs()[index as int], value as u64)),
            index >= 16 ==> r == Err::<(), Error>(Error::RegisterIndexOutOfBounds) && final(self).regs() == old(self).regs(),
    {
        if index < self.registers.len() {
            self.registers[index].assign_u8(value);
            proof {
                assert(self.regs() =~= old(self).regs().update(
                    index as int,
                    set_low8(old(self).regs()[index as int], value as u64),
                ));
            }
            Ok(())
        } else {
            Err(Error::RegisterIndexOutOfBounds)
        }
    }

    /// Replaces the low two bytes of the register at `index`.
    pub fn register_assign_u16(&mut self, index: usize, value: u16) -> (r: Result<(), Error>)
        requires
            old(self).wf(),
        ensures
            final(self).wf(),
            final(self).dump_log() == old(self).dump_log(),
            final(self).ctx() == old(self).ctx(),
            index < 16 ==> r == Ok::<(), Error>(()) && final(self).regs() == old(self).regs().update(index as int, set_low16(old(self).regs()[index as int], value as u64)),
            index >= 16 ==> r == Err::<(), Error>(Error::RegisterIndexOutOfBounds) && final(self).regs() == old(self).regs(),
    {
        if index < self.registers.len() {
            self.registers[index].assign_u16(value);
            proof {
                assert(self.regs() =~= old(self).regs().update(
                    index as int,
                    set_low16(old(self).regs()[index as int], value as u64),
                ));
            }
            Ok(())
        } else {
            Err(Error::RegisterIndexOutOfBounds)
        }
    }

    /// Replaces the low four bytes of the register at `index`.
    pub fn register_assign_u32(&mut self, index: usize, value: u32) -> (r: Result<(), Error>)
        requires
            old(self).wf(),
        ensures
            final(self).wf(),
            final(self).dump_log() == old(self).dump_log(),
            final(self).ctx() == old(self).ctx(),
            index < 16 ==> r == Ok::<(), Error>(()) && final(self).regs() == old(self).regs().update(index as int, set_low32(old(self).regs()[index as int], value as u64)),
            index >= 16 ==> r == Err::<(), Error>(Error::RegisterIndexOutOfBounds) && final(self).regs() == old(self).regs(),
    {
        if index < self.registers.len() {
            self.registers[index].assign_u32(value);
            proof {
                assert(self.regs() =~= old(self).regs().update(
                    index as int,
                    set_low32(old(self).regs()[index as int], value as u64),
                ));
            }
            Ok(())
        } else {
            Err(Error::RegisterIndexOutOfBounds)
        }
    }

    /// Replaces the whole register at `index`.
    pub fn register_assign_u64(&mut self, index: usize, value: u64) -> (r: Result<(), Error>)
        requires
            old(self).wf(),
        ensures
            final(self).wf(),
            final(self).dump_log() == old(self).dump_log(),
            final(self).ctx() == old(self).ctx(),
            index < 16 ==> r == Ok::<(), Error>(()) && final(self).regs() == old(self).regs().update(index as int, value),
            index >= 16 ==> r == Err::<(), Error>(Error::RegisterIndexOutOfBounds) && final(self).regs() == old(self).regs(),
    {
        if index < self.registers.len() {
            self.registers[index].assign_u64(value);
            proof {
                assert(self.regs() =~= old(self).regs().update(index as int, value));
            }
            Ok(())
        } else {
            Err(Error::RegisterIndexOutOfBounds)
        }
    }

    /// Appends a snapshot of the sixteen registers to the diagnostic log:
    /// the built-in dump the reserved call index performs.
    pub fn push_dump(&mut self)
        requires
            old(self).wf(),
        ensures
            final(self).wf(),
            final(self).regs() == old(self).regs(),
            final(self).dump_log() == old(self).dump_log().push(old(self).regs()),
            final(self).ctx() == old(self).ctx(),
    {
        let mut snapshot: Vec<u64> = Vec::new();
        let mut i: usize = 0;
        while i < 16
            invariant
                i <= 16,
                snapshot@.len() == i,
                self == old(self),
                self.wf(),
                forall|j: int| 0 <= j < i ==> snapshot@[j] == self.regs()[j],
            decreases 16 - i,
        {
            snapshot.push(self.registers[i].as_u64());
            i = i + 1;
        }
        proof {
            assert(snapshot@ =~= self.regs());
        }
        self.dumps.push(snapshot);
        proof {
            assert(self.dump_log() =~= old(self).dump_log().push(old(self).regs()));
        }
    }
}

/// The instructions a stream of executable forms stands for.
pub open spec fn prog_of(stream: Seq<Executable>) -> Seq<Instruction> {
    stream.map_values(|e: Executable| e.instr())
}

impl Processor {
    /// One cycle of the fetch-decode-execute loop against the given stream
    /// and memory: reads the instruction counter; reports a halt where it
    /// indexes past the end of the stream; otherwise executes the
    /// instruction at it with exactly one net movement of the counter — to
    /// the transfer target where the instruction is a taken control
    /// transfer, one forward otherwise.
    ///
    /// Returns `Ok(true)` where an instruction ran, `Ok(false)` where the
    /// processor halted, and the instruction's error where it failed.
    pub fn execute_cycle(&mut self, stream: &Vec<Executable>, memory: &mut Memory) -> (r: Result<
        bool,
        Error,
    >)
        requires
            old(self).wf(),
            old(memory).wf(),
        ensures
            final(self).wf(),
            final(memory).wf(),
            final(self).ctx() == old(self).ctx(),
            ({
                let pre = old(self).state_with(old(memory)@);
                let post = final(self).state_with(final(memory)@);
                match cycle(prog_of(stream@), pre) {
                    RunOut::Halted(_) => r == Ok::<bool, Error>(false) && post == pre,
                    RunOut::Going(s1) => r == Ok::<bool, Error>(true) && post == s1,
                    RunOut::Failed(e, s1) => r == Err::<bool, Error>(e) && post == s1,
                }
            }),
    {
        let ic = self.registers[15].as_u64();
        if ic >= stream.len() as u64 {
            return Ok(false);
        }
        let instruction = &stream[ic as usize];
        let taken = match instruction {
            Executable::Jmp(_) => true,
            Executable::Jz(_) => self.flag(Flag::Zero),
            Executable::Jnz(_) => !self.flag(Flag::Zero),
            _ => false,
        };
        match instruction.execute(self, memory) {
            Err(e) => Err(e),
            Ok(_) => {
                if !taken {
                    let ghost mid = self.regs();
                    let at = self.registers[15].as_u64();
                    let bumped: u64 = if at == 0xFFFF_FFFF_FFFF_FFFF {
                        0
                    } else {
                        at + 1
                    };
                    self.registers[15].assign_u64(bumped);
                    proof {
                        assert(self.regs() =~= mid.update(15, bumped));
                    }
                }
                Ok(true)
            },
        }
    }

    /// Runs the fetch-decode-execute loop against the given stream and
    /// memory for at most `max_cycles` cycles: synchronously until halted,
    /// failed, or out of budget.
    ///
    /// Returns `Ok(true)` where the processor halted — the instruction
    /// counter moved past the end of the stream, the only successful
    /// terminal state — `Ok(false)` where the budget ran out first, and the
    /// failing instruction's error where one failed.
    pub fn run(
        &mut self,
        instructions: &Vec<Executable>,
        memory: &mut Memory,
        max_cycles: u64,
    ) -> (r: Result<bool, Error>)
        requires
            old(self).wf(),
            old(memory).wf(),
        ensures
            final(self).wf(),
            final(memory).wf(),
            final(self).ctx() == old(self).ctx(),
            ({
                let pre = old(self).state_with(old(memory)@);
                let post = final(self).state_with(final(memory)@);
                match run_n(prog_of(instructions@), pre, max_cycles as nat) {
                    RunOut::Going(s) => r == Ok::<bool, Error>(false) && post == s,
                    RunOut::Halted(s) => r == Ok::<bool, Error>(true) && post == s,
                    RunOut::Failed(e, s) => r == Err::<bool, Error>(e) && post == s,
                }
            }),
    {
        let ghost pre = old(self).state_with(old(memory)@);
        let ghost prog = prog_of(instructions@);
        let mut spent: u64 = 0;
        while spent < max_cycles
            invariant
                self.wf(),
                memory.wf(),
                self.ctx() == old(self).ctx(),
                spent <= max_cycles,
                run_n(prog, pre, spent as nat) == RunOut::Going(self.state_with(memory@)),
                pre == old(self).state_with(old(memory)@),
                prog == prog_of(instructions@),
            decreases max_cycles - spent,
        {
            let ghost before = self.state_with(memory@);
            let step = self.execute_cycle(instructions, memory);
            proof {
                assert(run_n(prog, pre, (spent + 1) as nat) == cycle(prog, before));
            }
            match step {
                Ok(true) => {
                    spent = spent + 1;
                },
                Ok(false) => {
                    proof {
                        lemma_run_n_stable(prog, pre, (spent + 1) as nat, max_cycles as nat);
                    }
                    return Ok(true);
                },
                Err(e) => {
                    proof {
                        lemma_run_n_stable(prog, pre, (spent + 1) as nat, max_cycles as nat);
                    }
                    return Err(e);
                },
            }
        }
        Ok(false)
    }

    /// Starts execution against the shared context: locks the instruction
    /// stream for reading for the whole run, and drives the
    /// fetch-decode-execute loop synchronously until halted or erroring,
    /// taking exclusive access to the shared memory around each executed
    /// instruction only.
    ///
    /// Because the stream and the memory are shared, other processors of
    /// the same machine may read and write the memory between this
    /// processor's cycles; what each single instruction does is pinned by
    /// the engine's semantics, against the memory as it stood while that
    /// instruction held it. A run that exhausts the engine's cycle budget
    /// — two to the sixty-fourth cycles — fails with `Unknown`.
    pub fn start(&mut self) -> (r: Result<(), Error>)
        requires
            old(self).wf(),
        ensures
            final(self).wf(),
            final(self).ctx() == old(self).ctx(),
    {
        let ctx = share_ctx(&self.vm_ctx);
        let stream_handle = ctx.instructions_lock().acquire_read();
        let stream = stream_handle.borrow();
        let mut spent: u64 = 0;
        let mut done = false;
        let mut outcome: Result<(), Error> = Err(Error::Unknown);
        while !done
            invariant
                self.wf(),
                self.ctx() == old(self).ctx(),
                ctx.wf(),
            decreases (if done {
                0int
            } else {
                0xFFFF_FFFF_FFFF_FFFF + 1 - spent as int
            }),
        {
            let (mut shared_memory, write_handle) = ctx.memory_lock().acquire_write();
            let step = self.execute_cycle(stream, &mut shared_memory);
            write_handle.release_write(shared_memory);
            match step {
                Ok(true) => {
                    if spent == 0xFFFF_FFFF_FFFF_FFFF {
                        outcome = Err(Error::Unknown);
                        done = true;
                    } else {
                        spent = spent + 1;
                    }
                },
                Ok(false) => {
                    outcome = Ok(());
                    done = true;
                },
                Err(e) => {
                    outcome = Err(e);
                    done = true;
                },
            }
        }
        stream_handle.release_read();
        outcome
    }
}

impl Processor {
    /// The diagnostic log: the register-bank snapshots the built-in dump
    /// call has appended, oldest first.
    pub fn diagnostics(&self) -> (r: &Vec<Vec<u64>>)
        ensures
            r@.map_values(|v: Vec<u64>| v@) == self.dump_log(),
    {
        &self.dumps
    }

    /// Read access to the shared memory store: a handle whose borrow views
    /// the store. Concurrent processors may hold read access
    /// simultaneously; release the handle to let writers in.
    pub fn memory(&self) -> (handle: vstd::rwlock::ReadHandle<
        '_,
        Memory,
        crate::MemoryInv,
    >)
        requires
            self.wf(),
        ensures
            handle.rwlock().pred() == crate::MemoryInv,
    {
        self.vm_ctx.memory_lock().acquire_read()
    }

    /// Exclusive access to the shared memory store: the store's current
    /// value, and the handle that gives it back. Release the handle with
    /// the new value, which must be well formed; exclusive access lasts
    /// only until then.
    pub fn memory_mut(&self) -> (r: (
        Memory,
        vstd::rwlock::WriteHandle<'_, Memory, crate::MemoryInv>,
    ))
        requires
            self.wf(),
        ensures
            r.1.rwlock().pred() == crate::MemoryInv,
            r.0.wf(),
    {
        self.vm_ctx.memory_lock().acquire_write()
    }
}

/// Relies on Arc::clone: the returned handle refers to the same shared
/// context as the argument.
#[verifier::external_body]
pub(crate) fn share_ctx(c: &Arc<VmCtx>) -> (r: Arc<VmCtx>)
    ensures
        r == *c,
{
    Arc::clone(c)
}

} // verus!
