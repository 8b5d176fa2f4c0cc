//! The mathematical semantics of the machine.
//!
//! A processor's registers and diagnostic log together with the shared
//! memory form a [`State`]; every instruction denotes a transformation of
//! that state, and a whole run is the iteration of single cycles. The
//! executable engine is verified against these functions clause by clause.

use crate::error::Error;
use crate::instructions::{Instruction, Operand};
use crate::memory::{mem_read, mem_write, MemCell};
use crate::register::{
    flag_bit, flag_in, flags_with, set_low, truncate_value, width_bytes, width_index, Flag, Width,
};
use vstd::prelude::*;

verus! {

/// The state an instruction acts on: the sixteen registers of the executing
/// processor, the shared memory store, and the processor's diagnostic log
/// of register-bank snapshots.
pub ghost struct State {
    pub regs: Seq<u64>,
    pub mem: Map<u64, MemCell>,
    pub dumps: Seq<Seq<u64>>,
}

/// Whether a state is one the machine can be in: sixteen registers and a
/// well-formed memory.
pub open spec fn state_wf(s: State) -> bool {
    &&& s.regs.len() == 16
    &&& crate::memory::mem_wf(s.mem)
}

/// The value an operand resolves to when read.
///
/// An immediate is its own value. A register view is the register's low
/// bytes, zero-extended. A memory view reads the cell at the operand's
/// address. A memory-register view reads the full 64-bit value of the named
/// register as an address and then the cell there. An absent operand fails
/// with `InvalidOperand`; a register index outside the bank fails with
/// `RegisterIndexOutOfBounds`; memory reads fail as the store prescribes.
pub open spec fn read_operand(s: State, op: Operand) -> Result<u64, Error> {
    match op {
        Operand::Absent => Err(Error::InvalidOperand),
        Operand::Value(v) => Ok(v),
        Operand::Register(w) => {
            if width_index(w) < 16 {
                Ok(truncate_value(width_bytes(w), s.regs[width_index(w) as int]))
            } else {
                Err(Error::RegisterIndexOutOfBounds)
            }
        },
        Operand::Memory(w) => mem_read(s.mem, width_index(w) as u64, width_bytes(w)),
        Operand::MemoryRegister(w) => {
            if width_index(w) < 16 {
                mem_read(s.mem, s.regs[width_index(w) as int], width_bytes(w))
            } else {
                Err(Error::RegisterIndexOutOfBounds)
            }
        },
    }
}

/// The state after a value is written through a destination operand.
///
/// A register view replaces the register's low bytes and keeps its high
/// bytes. A memory view replaces the cell at the operand's address with one
/// of the operand's width. A memory-register view reads the full value of
/// the named register as an address and replaces the cell there. The
/// written value is truncated to the operand's width; no sign extension
/// occurs. An immediate or absent destination fails with `InvalidOperand`.
pub open spec fn write_operand(s: State, op: Operand, v: u64) -> Result<State, Error> {
    match op {
        Operand::Absent => Err(Error::InvalidOperand),
        Operand::Value(_) => Err(Error::InvalidOperand),
        Operand::Register(w) => {
            if width_index(w) < 16 {
                Ok(
                    State {
                        regs: s.regs.update(
                            width_index(w) as int,
                            set_low(
                                width_bytes(w),
                                s.regs[width_index(w) as int],
                                truncate_value(width_bytes(w), v),
                            ),
                        ),
                        ..s
                    },
                )
            } else {
                Err(Error::RegisterIndexOutOfBounds)
            }
        },
        Operand::Memory(w) => Ok(
            State { mem: mem_write(s.mem, width_index(w) as u64, width_bytes(w), v), ..s },
        ),
        Operand::MemoryRegister(w) => {
            if width_index(w) < 16 {
                Ok(
                    State {
                        mem: mem_write(
                            s.mem,
                            s.regs[width_index(w) as int],
                            width_bytes(w),
                            v,
                        ),
                        ..s
                    },
                )
            } else {
                Err(Error::RegisterIndexOutOfBounds)
            }
        },
    }
}

/// A state with one flag forced in the flags register.
pub open spec fn with_flag(s: State, f: Flag, state: bool) -> State {
    State { regs: s.regs.update(14, flags_with(s.regs[14], f, state)), ..s }
}

/// The number of low bytes a destination operand writes, where it can be
/// written at all.
pub open spec fn operand_width(op: Operand) -> Option<u64> {
    match op {
        Operand::Register(w) => Some(width_bytes(w)),
        Operand::Memory(w) => Some(width_bytes(w)),
        Operand::MemoryRegister(w) => Some(width_bytes(w)),
        _ => None,
    }
}

/// The largest value a width holds: the bound the overflow flag is judged
/// against.
pub open spec fn width_max(bytes: u64) -> u64 {
    if bytes == 1 {
        0xFF
    } else if bytes == 2 {
        0xFFFF
    } else if bytes == 4 {
        0xFFFF_FFFF
    } else {
        0xFFFF_FFFF_FFFF_FFFF
    }
}

/// What executing `Mov` does: resolve the source, then write it through
/// the destination. On any failure the state is unchanged.
pub open spec fn sem_mov(s: State, source: Operand, destination: Operand) -> (
    Result<(), Error>,
    State,
) {
    match read_operand(s, source) {
        Err(e) => (Err(e), s),
        Ok(v) => match write_operand(s, destination, v) {
            Err(e) => (Err(e), s),
            Ok(s1) => (Ok(()), s1),
        },
    }
}

/// What executing `Add` does: resolve the source, then the value; reject a
/// destination that names no width; wrap the sum at the destination's bit
/// width and record whether it wrapped in the overflow flag; then write the
/// wrapped sum through the destination. A destination write that fails
/// after the flag is recorded leaves the flag recorded: mutations already
/// committed are not rolled back.
pub open spec fn sem_add(s: State, value: Operand, source: Operand, destination: Operand) -> (
    Result<(), Error>,
    State,
) {
    match read_operand(s, source) {
        Err(e) => (Err(e), s),
        Ok(a) => match read_operand(s, value) {
            Err(e) => (Err(e), s),
            Ok(b) => match operand_width(destination) {
                None => (Err(Error::InvalidOperand), s),
                Some(bytes) => {
                    let sum = a as int + b as int;
                    let overflowed = sum > width_max(bytes) as int;
                    let wrapped = (sum % 0x1_0000_0000_0000_0000) as u64;
                    let s1 = with_flag(s, Flag::Overflow, overflowed);
                    match write_operand(s1, destination, wrapped) {
                        Err(e) => (Err(e), s1),
                        Ok(s2) => (Ok(()), s2),
                    }
                },
            },
        },
    }
}

/// What executing `Cmp` does: resolve the value, then the comparator;
/// record in the zero flag whether they are equal (their wraparound
/// difference is zero) and in the greater flag whether the value is
/// unsigned-greater than the comparator. The overflow flag is untouched.
/// On any failure the state is unchanged.
pub open spec fn sem_cmp(s: State, value: Operand, comparator: Operand) -> (
    Result<(), Error>,
    State,
) {
    match read_operand(s, value) {
        Err(e) => (Err(e), s),
        Ok(a) => match read_operand(s, comparator) {
            Err(e) => (Err(e), s),
            Ok(b) => {
                let s1 = with_flag(with_flag(s, Flag::Zero, a == b), Flag::Greater, a > b);
                (Ok(()), s1)
            },
        },
    }
}

/// What executing `Jmp` does: resolve the target and load it into the
/// instruction counter. On failure the state is unchanged.
pub open spec fn sem_jmp(s: State, source: Operand) -> (Result<(), Error>, State) {
    match read_operand(s, source) {
        Err(e) => (Err(e), s),
        Ok(v) => (Ok(()), State { regs: s.regs.update(15, v), ..s }),
    }
}

/// What executing `Jz` does: fall through when the zero flag is clear;
/// otherwise clear the zero flag and transfer as `Jmp` does. A target that
/// fails to resolve leaves the zero flag cleared.
pub open spec fn sem_jz(s: State, source: Operand) -> (Result<(), Error>, State) {
    if !flag_in(s.regs[14], Flag::Zero) {
        (Ok(()), s)
    } else {
        sem_jmp(with_flag(s, Flag::Zero, false), source)
    }
}

/// What executing `Jnz` does: fall through when the zero flag is set;
/// otherwise transfer as `Jmp` does, leaving every flag untouched.
pub open spec fn sem_jnz(s: State, source: Operand) -> (Result<(), Error>, State) {
    if flag_in(s.regs[14], Flag::Zero) {
        (Ok(()), s)
    } else {
        sem_jmp(s, source)
    }
}

/// What executing `Call` does: resolve the call index; index zero performs
/// the built-in diagnostic dump, appending a snapshot of the sixteen
/// registers to the processor's log; any other index names no registered
/// host callback and fails with `CallIndexUnknown`.
pub open spec fn sem_call(s: State, index: Operand) -> (Result<(), Error>, State) {
    match read_operand(s, index) {
        Err(e) => (Err(e), s),
        Ok(v) => {
            if v == 0 {
                (Ok(()), State { dumps: s.dumps.push(s.regs), ..s })
            } else {
                (Err(Error::CallIndexUnknown), s)
            }
        },
    }
}

/// What executing one instruction does to a state: the result of the
/// instruction, and the state it leaves behind (on failure, the state with
/// exactly the mutations the failing instruction had already committed).
pub open spec fn step_instr(s: State, i: Instruction) -> (Result<(), Error>, State) {
    match i {
        Instruction::Call(index) => sem_call(s, index),
        Instruction::Mov(source, destination) => sem_mov(s, source, destination),
        Instruction::Jmp(source) => sem_jmp(s, source),
        Instruction::Jz(source) => sem_jz(s, source),
        Instruction::Jnz(source) => sem_jnz(s, source),
        Instruction::Cmp(value, comparator) => sem_cmp(s, value, comparator),
        Instruction::Add(value, source, destination) => sem_add(s, value, source, destination),
    }
}

/// Whether an instruction is a control transfer whose condition holds in
/// the given state: such an instruction, when it succeeds, moves the
/// instruction counter itself and is not additionally incremented.
pub open spec fn transfer_taken(s: State, i: Instruction) -> bool {
    match i {
        Instruction::Jmp(_) => true,
        Instruction::Jz(_) => flag_in(s.regs[14], Flag::Zero),
        Instruction::Jnz(_) => !flag_in(s.regs[14], Flag::Zero),
        _ => false,
    }
}

/// The outcome of running a machine for some number of cycles.
pub ghost enum RunOut {
    /// Still running, in the given state.
    Going(State),
    /// Halted: the instruction counter moved past the end of the stream.
    /// The only terminal state of a successful run.
    Halted(State),
    /// Aborted by the given error, with the mutations committed before the
    /// failure kept.
    Failed(Error, State),
}

/// One cycle of the fetch-decode-execute loop: read the instruction
/// counter; halt if it indexes past the stream; otherwise execute the
/// instruction at it, and move the counter exactly once — to the transfer
/// target if the instruction is a taken control transfer, one forward
/// otherwise.
pub open spec fn cycle(prog: Seq<Instruction>, s: State) -> RunOut {
    let ic = s.regs[15];
    if ic >= prog.len() {
        RunOut::Halted(s)
    } else {
        let i = prog[ic as int];
        let (r, s1) = step_instr(s, i);
        match r {
            Err(e) => RunOut::Failed(e, s1),
            Ok(_) => {
                if transfer_taken(s, i) {
                    RunOut::Going(s1)
                } else {
                    RunOut::Going(
                        State {
                            regs: s1.regs.update(15, ((s1.regs[15] + 1) % 0x1_0000_0000_0000_0000) as u64),
                            ..s1
                        },
                    )
                }
            },
        }
    }
}

/// The machine after `n` cycles from `s`: iterates [`cycle`], stopping at
/// the first halt or failure.
pub open spec fn run_n(prog: Seq<Instruction>, s: State, n: nat) -> RunOut
    decreases n,
{
    if n == 0 {
        RunOut::Going(s)
    } else {
        match run_n(prog, s, (n - 1) as nat) {
            RunOut::Going(s1) => cycle(prog, s1),
            done => done,
        }
    }
}

/// The law of the compare instruction: after a successful `Cmp`, the zero
/// flag holds if and only if the operands are equal — equivalently, their
/// wraparound difference is zero — and the greater flag holds if and only
/// if the value is unsigned-greater than the comparator. The overflow flag
/// and everything else are untouched, for every state and every pair of
/// resolvable operands.
pub proof fn lemma_cmp_flags(s: State, value: Operand, comparator: Operand)
    requires
        state_wf(s),
        read_operand(s, value) is Ok,
        read_operand(s, comparator) is Ok,
    ensures
        ({
            let a = read_operand(s, value)->Ok_0;
            let b = read_operand(s, comparator)->Ok_0;
            let (r, s1) = sem_cmp(s, value, comparator);
            &&& r is Ok
            &&& flag_in(s1.regs[14], Flag::Zero) == ((a as int - b as int)
                % 0x1_0000_0000_0000_0000 == 0)
            &&& flag_in(s1.regs[14], Flag::Zero) == (a == b)
            &&& flag_in(s1.regs[14], Flag::Greater) == (a > b)
            &&& flag_in(s1.regs[14], Flag::Overflow) == flag_in(s.regs[14], Flag::Overflow)
            &&& s1.mem == s.mem
            &&& s1.dumps == s.dumps
        }),
{
    let a = read_operand(s, value)->Ok_0;
    let b = read_operand(s, comparator)->Ok_0;
    let f0 = s.regs[14];
    crate::register::lemma_flags_with(f0, Flag::Zero, a == b);
    crate::register::lemma_flags_with(flags_with(f0, Flag::Zero, a == b), Flag::Greater, a > b);
    lemma_wrap_difference_zero(a, b);
}

/// The wraparound difference of two 64-bit values is zero exactly where the
/// values are equal.
proof fn lemma_wrap_difference_zero(a: u64, b: u64)
    ensures
        ((a as int - b as int) % 0x1_0000_0000_0000_0000 == 0) == (a == b),
{
    let m: int = 0x1_0000_0000_0000_0000;
    if a == b {
    } else if a > b {
        vstd::arithmetic::div_mod::lemma_small_mod((a - b) as nat, m as nat);
    } else {
        vstd::arithmetic::div_mod::lemma_mod_multiples_vanish(1, a as int - b as int, m);
        vstd::arithmetic::div_mod::lemma_small_mod((m + a - b) as nat, m as nat);
    }
}

/// The law of the add instruction: after a successful `Add` whose
/// destination is not the flags register, the overflow flag holds if and
/// only if the sum of the resolved values exceeded the largest value the
/// destination's width holds — the sum wrapped — and the zero and greater
/// flags are untouched.
pub proof fn lemma_add_overflow_flag(s: State, value: Operand, source: Operand, destination: Operand)
    requires
        state_wf(s),
        read_operand(s, source) is Ok,
        read_operand(s, value) is Ok,
        operand_width(destination) is Some,
        destination matches Operand::Register(w) ==> width_index(w) < 16 && width_index(w) != 14,
        destination matches Operand::MemoryRegister(w) ==> width_index(w) < 16,
    ensures
        ({
            let a = read_operand(s, source)->Ok_0;
            let b = read_operand(s, value)->Ok_0;
            let bytes = operand_width(destination)->Some_0;
            let (r, s2) = sem_add(s, value, source, destination);
            &&& r is Ok
            &&& flag_in(s2.regs[14], Flag::Overflow) == (a as int + b as int > width_max(
                bytes,
            ) as int)
            &&& flag_in(s2.regs[14], Flag::Zero) == flag_in(s.regs[14], Flag::Zero)
            &&& flag_in(s2.regs[14], Flag::Greater) == flag_in(s.regs[14], Flag::Greater)
        }),
{
    let a = read_operand(s, source)->Ok_0;
    let b = read_operand(s, value)->Ok_0;
    let bytes = operand_width(destination)->Some_0;
    let overflowed = a as int + b as int > width_max(bytes) as int;
    crate::register::lemma_flags_with(s.regs[14], Flag::Overflow, overflowed);
    let s1 = with_flag(s, Flag::Overflow, overflowed);
    let wrapped = ((a as int + b as int) % 0x1_0000_0000_0000_0000) as u64;
    let s2 = write_operand(s1, destination, wrapped)->Ok_0;
    match destination {
        Operand::Register(w) => {
            assert(s2.regs[14] == s1.regs[14]);
        },
        _ => {
            assert(s2.regs == s1.regs);
        },
    }
}

/// A run that has halted or failed stays halted or failed: running further
/// cycles changes nothing.
pub proof fn lemma_run_n_stable(prog: Seq<Instruction>, s: State, n: nat, m: nat)
    requires
        n <= m,
        !(run_n(prog, s, n) is Going),
    ensures
        run_n(prog, s, m) == run_n(prog, s, n),
    decreases m,
{
    if m > n {
        lemma_run_n_stable(prog, s, n, (m - 1) as nat);
    }
}

/// Splitting a run: `n + m` cycles from `s` reach what `m` cycles reach
/// from the state `n` cycles reach.
pub proof fn lemma_run_n_add(prog: Seq<Instruction>, s: State, n: nat, m: nat, s1: State)
    requires
        run_n(prog, s, n) == RunOut::Going(s1),
    ensures
        run_n(prog, s, n + m) == run_n(prog, s1, m),
    decreases m,
{
    if m == 0 {
    } else {
        lemma_run_n_add(prog, s, n, (m - 1) as nat, s1);
    }
}


/// A register bank holding zero in every cell.
pub open spec fn zero_regs() -> Seq<u64> {
    Seq::new(16, |i: int| 0u64)
}

/// The counting program over a loop bound: clear register zero, load the
/// bound into register one, then add one to register zero, compare it
/// against the bound and take the back-branch while they differ; once they
/// match, dump the processor state and halt.
pub open spec fn count_program(bound: u64) -> Seq<Instruction> {
    seq![
        Instruction::Mov(Operand::Value(0), Operand::Register(Width::QWord(0))),
        Instruction::Mov(Operand::Value(bound), Operand::Register(Width::QWord(1))),
        Instruction::Add(
            Operand::Value(1),
            Operand::Register(Width::QWord(0)),
            Operand::Register(Width::QWord(0)),
        ),
        Instruction::Cmp(Operand::Register(Width::QWord(0)), Operand::Register(Width::QWord(1))),
        Instruction::Jnz(Operand::Value(2)),
        Instruction::Call(Operand::Value(0)),
    ]
}

/// The register bank at the top of the counting loop, after `c` completed
/// iterations: the counter in register zero, the bound in register one,
/// every flag clear, and the instruction counter at the loop's first
/// instruction.
pub open spec fn count_top_regs(bound: u64, c: u64) -> Seq<u64> {
    zero_regs().update(0, c).update(1, bound).update(15, 2)
}

/// The register bank when the counting loop falls through: counter and
/// bound equal, exactly the zero flag set, and the instruction counter at
/// the dump call.
pub open spec fn count_exit_regs(bound: u64) -> Seq<u64> {
    zero_regs().update(0, bound).update(1, bound).update(14, 1).update(15, 5)
}

/// The flag-register constants the counting loop passes through.
proof fn lemma_count_flag_bits()
    by (bit_vector)
    ensures
        0u64 & !4u64 == 0u64,
        (0u64 | 1u64) & !2u64 == 1u64,
        (0u64 & !1u64) & !2u64 == 0u64,
        1u64 & 1u64 != 0u64,
        0u64 & 1u64 == 0u64,
        1u64 & 2u64 == 0u64,
        1u64 & 4u64 == 0u64,
{
}

/// One pass of the counting loop: from the loop top after `c` iterations,
/// three cycles either return to the loop top with the counter one higher,
/// or — once the counter reaches the bound — fall through to the dump call
/// with exactly the zero flag set. Taken back-branches land exactly on the
/// loop top: the counter moves once per cycle, never twice.
#[verifier::rlimit(100)]
proof fn lemma_count_loop(bound: u64, c: u64, s: State)
    requires
        1 <= bound,
        c < bound,
        state_wf(s),
        s.regs =~= count_top_regs(bound, c),
    ensures
        run_n(count_program(bound), s, 3 * ((bound - c) as nat)) == RunOut::Going(
            State { regs: count_exit_regs(bound), mem: s.mem, dumps: s.dumps },
        ),
    decreases bound - c,
{
    let prog = count_program(bound);
    lemma_count_flag_bits();
    vstd::arithmetic::div_mod::lemma_small_mod((c + 1) as nat, 0x1_0000_0000_0000_0000);

    // Cycle one: the add. The sum stays below the width's bound, so the
    // overflow flag is cleared and the counter register takes c + 1.
    let after_add = State {
        regs: zero_regs().update(1, bound).update(0, (c + 1) as u64).update(14, 0).update(15, 3),
        ..s
    };
    assert(run_n(prog, s, 1) == RunOut::Going(after_add)) by {
        assert(run_n(prog, s, 0) == RunOut::Going(s));
        assert(run_n(prog, s, 1) == cycle(prog, s));
        assert(s.regs[15] == 2);
        assert(prog[2] == Instruction::Add(
            Operand::Value(1),
            Operand::Register(Width::QWord(0)),
            Operand::Register(Width::QWord(0)),
        ));
        let (r, s1) = sem_add(s, Operand::Value(1), Operand::Register(Width::QWord(0)), Operand::Register(Width::QWord(0)));
        assert(read_operand(s, Operand::Register(Width::QWord(0))) == Ok::<u64, Error>(c));
        assert(r is Ok);
        assert(s1.regs =~= after_add.regs.update(15, 2));
        assert(run_n(prog, s, 1) == cycle(prog, s));
        match cycle(prog, s) {
            RunOut::Going(g) => {
                assert(g.regs =~= after_add.regs);
                assert(g == after_add);
            },
            _ => {
                assert(false);
            },
        }
    }

    // Cycle two: the compare. The zero flag records whether the counter
    // reached the bound; the greater flag is cleared.
    let zbit: u64 = if c + 1 == bound {
        1
    } else {
        0
    };
    let after_cmp = State {
        regs: zero_regs().update(1, bound).update(0, (c + 1) as u64).update(14, zbit).update(
            15,
            4,
        ),
        ..s
    };
    assert(run_n(prog, s, 2) == RunOut::Going(after_cmp)) by {
        assert(run_n(prog, s, 2) == cycle(prog, after_add));
        assert(after_add.regs[15] == 3);
        assert(prog[3] == Instruction::Cmp(
            Operand::Register(Width::QWord(0)),
            Operand::Register(Width::QWord(1)),
        ));
        let (r, s1) = sem_cmp(
            after_add,
            Operand::Register(Width::QWord(0)),
            Operand::Register(Width::QWord(1)),
        );
        assert(read_operand(after_add, Operand::Register(Width::QWord(0))) == Ok::<u64, Error>(
            (c + 1) as u64,
        ));
        assert(read_operand(after_add, Operand::Register(Width::QWord(1))) == Ok::<u64, Error>(
            bound,
        ));
        assert(r is Ok);
        assert(s1.regs =~= after_cmp.regs.update(15, 3));
        match cycle(prog, after_add) {
            RunOut::Going(g) => {
                assert(g.regs =~= after_cmp.regs);
                assert(g == after_cmp);
            },
            _ => {
                assert(false);
            },
        }
    }

    // Cycle three: the conditional back-branch.
    if c + 1 < bound {
        // Taken: the counter register lands exactly on the loop top, with
        // no extra increment.
        let back_at_top = State { regs: count_top_regs(bound, (c + 1) as u64), ..s };
        assert(run_n(prog, s, 3) == RunOut::Going(back_at_top)) by {
            assert(run_n(prog, s, 3) == cycle(prog, after_cmp));
            assert(after_cmp.regs[15] == 4);
            assert(prog[4] == Instruction::Jnz(Operand::Value(2)));
            assert(zbit == 0);
            assert(!flag_in(after_cmp.regs[14], Flag::Zero));
            assert(transfer_taken(after_cmp, prog[4]));
            let (r, s1) = sem_jnz(after_cmp, Operand::Value(2));
            assert(r is Ok);
            match cycle(prog, after_cmp) {
                RunOut::Going(g) => {
                    assert(g.regs =~= back_at_top.regs);
                    assert(g == back_at_top);
                },
                _ => {
                    assert(false);
                },
            }
        }
        lemma_count_loop(bound, (c + 1) as u64, back_at_top);
        lemma_run_n_add(prog, s, 3, 3 * ((bound - c - 1) as nat), back_at_top);
        assert(3 + 3 * ((bound - c - 1) as nat) == 3 * ((bound - c) as nat));
    } else {
        // Fallen through: the zero flag stays set and the counter register
        // moves one past the branch, onto the dump call.
        let fallen = State { regs: count_exit_regs(bound), ..s };
        assert(run_n(prog, s, 3) == RunOut::Going(fallen)) by {
            assert(run_n(prog, s, 3) == cycle(prog, after_cmp));
            assert(after_cmp.regs[15] == 4);
            assert(prog[4] == Instruction::Jnz(Operand::Value(2)));
            assert(zbit == 1);
            assert(flag_in(after_cmp.regs[14], Flag::Zero));
            assert(!transfer_taken(after_cmp, prog[4]));
            let (r, s1) = sem_jnz(after_cmp, Operand::Value(2));
            assert(r is Ok && s1 == after_cmp);
            match cycle(prog, after_cmp) {
                RunOut::Going(g) => {
                    assert(g.regs =~= fallen.regs);
                    assert(g == fallen);
                },
                _ => {
                    assert(false);
                },
            }
        }
        assert(3 * ((bound - c) as nat) == 3);
    }
}

/// The law of the counting program: for every loop bound of at least one,
/// started from a zeroed register bank it runs exactly `3 * bound + 4`
/// cycles — `bound` passes of add, compare and back-branch, with no double
/// movement of the instruction counter on the taken branch — then halts
/// with the counter and the bound equal in registers zero and one, the zero
/// flag set, the greater and overflow flags clear, one diagnostic dump
/// appended, and the memory untouched.
/// The two loads that precede the counting loop: two cycles bring a zeroed
/// bank to the loop top with zero completed iterations.
#[verifier::rlimit(100)]
proof fn lemma_count_start(bound: u64, s: State)
    requires
        1 <= bound,
        state_wf(s),
        s.regs =~= zero_regs(),
    ensures
        run_n(count_program(bound), s, 2) == RunOut::Going(
            State { regs: count_top_regs(bound, 0), mem: s.mem, dumps: s.dumps },
        ),
{
    let prog = count_program(bound);
    let after_first = State { regs: zero_regs().update(15, 1), ..s };
    assert(run_n(prog, s, 1) == RunOut::Going(after_first)) by {
        assert(run_n(prog, s, 0) == RunOut::Going(s));
        assert(run_n(prog, s, 1) == cycle(prog, s));
        assert(s.regs[15] == 0);
        assert(prog[0] == Instruction::Mov(Operand::Value(0), Operand::Register(Width::QWord(0))));
        let (r, s1) = sem_mov(s, Operand::Value(0), Operand::Register(Width::QWord(0)));
        assert(r is Ok);
        assert(s1.regs =~= zero_regs());
        match cycle(prog, s) {
            RunOut::Going(g) => {
                assert(g.regs =~= after_first.regs);
                assert(g == after_first);
            },
            _ => {
                assert(false);
            },
        }
    }
    let at_top = State { regs: count_top_regs(bound, 0), ..s };
    assert(run_n(prog, s, 2) == RunOut::Going(at_top)) by {
        assert(run_n(prog, s, 2) == cycle(prog, after_first));
        assert(after_first.regs[15] == 1);
        assert(prog[1] == Instruction::Mov(Operand::Value(bound), Operand::Register(Width::QWord(1))));
        let (r, s1) = sem_mov(after_first, Operand::Value(bound), Operand::Register(Width::QWord(1)));
        assert(r is Ok);
        match cycle(prog, after_first) {
            RunOut::Going(g) => {
                assert(g.regs =~= at_top.regs);
                assert(g == at_top);
            },
            _ => {
                assert(false);
            },
        }
    }
}

/// The tail of the counting program: from the dump call, one cycle appends
/// the diagnostic snapshot and one more fetch halts the machine.
#[verifier::rlimit(100)]
proof fn lemma_count_finish(bound: u64, at_call: State)
    requires
        1 <= bound,
        state_wf(at_call),
        at_call.regs =~= count_exit_regs(bound),
    ensures
        run_n(count_program(bound), at_call, 1) is Going,
        run_n(count_program(bound), at_call, 2) == RunOut::Halted(
            State {
                regs: count_exit_regs(bound).update(15, 6),
                mem: at_call.mem,
                dumps: at_call.dumps.push(at_call.regs),
            },
        ),
{
    let prog = count_program(bound);
    let after_call = State {
        regs: count_exit_regs(bound).update(15, 6),
        mem: at_call.mem,
        dumps: at_call.dumps.push(at_call.regs),
    };
    assert(run_n(prog, at_call, 1) == RunOut::Going(after_call)) by {
        assert(run_n(prog, at_call, 0) == RunOut::Going(at_call));
        assert(run_n(prog, at_call, 1) == cycle(prog, at_call));
        assert(at_call.regs[15] == 5);
        assert(prog[5] == Instruction::Call(Operand::Value(0)));
        let (r, s1) = sem_call(at_call, Operand::Value(0));
        assert(r is Ok);
        match cycle(prog, at_call) {
            RunOut::Going(g) => {
                assert(g.regs =~= after_call.regs);
                assert(g == after_call);
            },
            _ => {
                assert(false);
            },
        }
    }
    assert(run_n(prog, at_call, 2) == cycle(prog, after_call));
    assert(after_call.regs[15] == 6);
    assert(prog.len() == 6);
    assert(cycle(prog, after_call) == RunOut::Halted(after_call));
}

/// The law of the counting program: for every loop bound of at least one,
/// started from a zeroed register bank it runs exactly `3 * bound + 4`
/// cycles — `bound` passes of add, compare and back-branch, with no double
/// movement of the instruction counter on the taken branch — then halts
/// with the counter and the bound equal in registers zero and one, the zero
/// flag set, the greater and overflow flags clear, one diagnostic dump
/// appended, and the memory untouched.
pub proof fn lemma_count_program_halts(bound: u64, s: State)
    requires
        1 <= bound,
        state_wf(s),
        s.regs =~= zero_regs(),
    ensures
        run_n(count_program(bound), s, 3 * (bound as nat) + 3) is Going,
        ({
            let done = run_n(count_program(bound), s, 3 * (bound as nat) + 4);
            &&& done matches RunOut::Halted(f)
            &&& done->Halted_0.regs[0] == bound
            &&& done->Halted_0.regs[1] == bound
            &&& flag_in(done->Halted_0.regs[14], Flag::Zero)
            &&& !flag_in(done->Halted_0.regs[14], Flag::Greater)
            &&& !flag_in(done->Halted_0.regs[14], Flag::Overflow)
            &&& done->Halted_0.regs[15] == 6
            &&& done->Halted_0.mem == s.mem
            &&& done->Halted_0.dumps == s.dumps.push(count_exit_regs(bound))
        }),
{
    let prog = count_program(bound);
    lemma_count_flag_bits();
    lemma_count_start(bound, s);
    let at_top = State { regs: count_top_regs(bound, 0), mem: s.mem, dumps: s.dumps };
    lemma_count_loop(bound, 0, at_top);
    lemma_run_n_add(prog, s, 2, 3 * (bound as nat), at_top);
    let at_call = State { regs: count_exit_regs(bound), mem: s.mem, dumps: s.dumps };
    assert(run_n(prog, s, 2 + 3 * (bound as nat)) == RunOut::Going(at_call));
    lemma_count_finish(bound, at_call);
    lemma_run_n_add(prog, s, 2 + 3 * (bound as nat), 1, at_call);
    assert(2 + 3 * (bound as nat) + 1 == 3 * (bound as nat) + 3);
    lemma_run_n_add(prog, s, 2 + 3 * (bound as nat), 2, at_call);
    assert(2 + 3 * (bound as nat) + 2 == 3 * (bound as nat) + 4);
    let done = run_n(prog, s, 3 * (bound as nat) + 4);
    assert(done == run_n(prog, at_call, 2));
    let f = done->Halted_0;
    assert(f.regs == count_exit_regs(bound).update(15, 6));
    assert(f.regs[0] == bound);
    assert(f.regs[1] == bound);
    assert(f.regs[14] == 1);
    assert(f.regs[15] == 6);
    assert(at_call.regs =~= count_exit_regs(bound));
    assert(f.dumps == s.dumps.push(at_call.regs));
    assert(at_call.regs == count_exit_regs(bound));
}

} // verus!
