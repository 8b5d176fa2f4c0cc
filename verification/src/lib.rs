//! A small register-based virtual machine.
//!
//! The machine executes a closed instruction set — move, add, compare,
//! conditional and unconditional jumps, and a host call — over a bank of
//! sixteen eight-byte registers with four addressable widths and a sparse
//! memory store. Several independent processors may run against one shared
//! execution context holding the instruction stream and the memory store.
//! An assembler builds instruction streams for the machine.

pub mod assembler;
pub mod error;
pub mod instructions;
pub mod memory;
pub mod processor;
pub mod register;
pub mod semantics;

use crate::error::Error;
use crate::instructions::Executable;
use crate::memory::Memory;
use crate::processor::{share_ctx, Processor};
use std::sync::Arc;
use vstd::prelude::*;
use vstd::rwlock::{RwLock, RwLockPredicate};

verus! {

/// The invariant of the shared instruction stream's lock: any stream may be
/// loaded.
pub struct StreamInv;

impl RwLockPredicate<Vec<Executable>> for StreamInv {
    open spec fn inv(self, v: Vec<Executable>) -> bool {
        true
    }
}

/// The invariant of the shared memory store's lock: the store stays well
/// formed.
pub struct MemoryInv;

impl RwLockPredicate<Memory> for MemoryInv {
    open spec fn inv(self, m: Memory) -> bool {
        m.wf()
    }
}

/// The execution context shared by every processor of one machine: the
/// loaded instruction stream and the memory store, each behind its own
/// reader/writer lock. Concurrent processors may read simultaneously; a
/// stream reload or a memory write takes exclusive access only for that one
/// operation.
pub struct VmCtx {
    instructions: RwLock<Vec<Executable>, StreamInv>,
    memory: RwLock<Memory, MemoryInv>,
}

impl VmCtx {
    /// Whether the context's locks carry the canonical invariants. Every
    /// constructed context does.
    pub closed spec fn wf(&self) -> bool {
        &&& self.instructions.pred() == StreamInv
        &&& self.memory.pred() == MemoryInv
    }

    /// Constructs a context with an empty instruction stream and an empty
    /// memory store.
    pub fn new() -> (c: Self)
        ensures
            c.wf(),
    {
        VmCtx {
            instructions: RwLock::new(Vec::new(), Ghost(StreamInv)),
            memory: RwLock::new(Memory::new(), Ghost(MemoryInv)),
        }
    }

    /// A reference to the instruction stream's lock.
    pub(crate) fn instructions_lock(&self) -> (r: &RwLock<Vec<Executable>, StreamInv>)
        ensures
            r == &self.instructions,
            self.wf() ==> r.pred() == StreamInv,
    {
        &self.instructions
    }

    /// A reference to the memory store's lock.
    pub(crate) fn memory_lock(&self) -> (r: &RwLock<Memory, MemoryInv>)
        ensures
            r == &self.memory,
            self.wf() ==> r.pred() == MemoryInv,
    {
        &self.memory
    }
}

/// The map a handle table stands for: each entry's handle maps to its
/// processor, later entries winning (entries of a well-formed table have
/// distinct handles, so no entry shadows another).
pub open spec fn table_map(s: Seq<(usize, Processor)>) -> Map<usize, Processor>
    decreases s.len(),
{
    if s.len() == 0 {
        Map::empty()
    } else {
        table_map(s.drop_last()).insert(s.last().0, s.last().1)
    }
}

/// Whether a handle table's handles are strictly ascending.
pub open spec fn handles_sorted(h: Seq<usize>) -> bool {
    forall|i: int, j: int| 0 <= i < j < h.len() ==> h[i] < h[j]
}

/// The next handle the table hands out, scanning from position `i`: the
/// first gap between consecutive live handles, or the table's size where no
/// gap exists.
pub open spec fn next_handle_from(h: Seq<usize>, i: int) -> int
    decreases h.len() - i,
{
    if i < 0 || i + 1 >= h.len() {
        h.len() as int
    } else if h[i + 1] - h[i] > 1 {
        h[i] + 1
    } else {
        next_handle_from(h, i + 1)
    }
}

/// The handle a table with live handles `h` assigns next: zero for an empty
/// table; otherwise the first gap between consecutive handles, scanning
/// ascending; the table's size where no gap exists.
pub open spec fn spec_next_handle(h: Seq<usize>) -> int {
    if h.len() == 0 {
        0
    } else {
        next_handle_from(h, 0)
    }
}

/// A handle table maps every handle of an entry, and maps it to that
/// entry's processor where handles are distinct.
proof fn lemma_table_map_index(s: Seq<(usize, Processor)>, i: int)
    requires
        0 <= i < s.len(),
        forall|a: int, b: int| 0 <= a < b < s.len() ==> s[a].0 != s[b].0,
    ensures
        table_map(s).contains_key(s[i].0),
        table_map(s)[s[i].0] == s[i].1,
    decreases s.len(),
{
    if i + 1 < s.len() {
        lemma_table_map_index(s.drop_last(), i);
    }
}

/// A handle table maps no handle that no entry holds.
proof fn lemma_table_map_absent(s: Seq<(usize, Processor)>, x: usize)
    requires
        forall|i: int| 0 <= i < s.len() ==> s[i].0 != x,
    ensures
        !table_map(s).contains_key(x),
    decreases s.len(),
{
    if s.len() > 0 {
        lemma_table_map_absent(s.drop_last(), x);
    }
}

/// Inserting an entry whose handle no entry holds makes the table map that
/// handle to the new processor and leaves the rest.
proof fn lemma_table_map_insert(s: Seq<(usize, Processor)>, p: int, x: usize, v: Processor)
    requires
        0 <= p <= s.len(),
        forall|i: int| 0 <= i < s.len() ==> s[i].0 != x,
    ensures
        table_map(s.insert(p, (x, v))) =~= table_map(s).insert(x, v),
    decreases s.len(),
{
    let t = s.insert(p, (x, v));
    if p == s.len() {
        assert(t.drop_last() =~= s);
    } else {
        assert(t.last() == s.last());
        assert(t.drop_last() =~= s.drop_last().insert(p, (x, v)));
        lemma_table_map_insert(s.drop_last(), p, x, v);
        assert(s[s.len() - 1].0 != x);
        assert(table_map(t) =~= table_map(s).insert(x, v));
    }
}

/// Replacing the entry that holds a handle makes the table map that handle
/// to the new processor and leaves the rest.
proof fn lemma_table_map_update(s: Seq<(usize, Processor)>, p: int, x: usize, v: Processor)
    requires
        0 <= p < s.len(),
        s[p].0 == x,
        forall|a: int, b: int| 0 <= a < b < s.len() ==> s[a].0 != s[b].0,
    ensures
        table_map(s.update(p, (x, v))) =~= table_map(s).insert(x, v),
    decreases s.len(),
{
    let t = s.update(p, (x, v));
    if p == s.len() - 1 {
        assert(t.drop_last() =~= s.drop_last());
        assert(table_map(t) =~= table_map(s).insert(x, v));
    } else {
        assert(t.last() == s.last());
        assert(t.drop_last() =~= s.drop_last().update(p, (x, v)));
        lemma_table_map_update(s.drop_last(), p, x, v);
        assert(s.last().0 != x);
        assert(table_map(t) =~= table_map(s).insert(x, v));
    }
}

/// Removing the entry that holds a handle removes exactly that handle from
/// the table's map.
proof fn lemma_table_map_remove(s: Seq<(usize, Processor)>, p: int)
    requires
        0 <= p < s.len(),
        forall|a: int, b: int| 0 <= a < b < s.len() ==> s[a].0 != s[b].0,
    ensures
        table_map(s.remove(p)) =~= table_map(s).remove(s[p].0),
    decreases s.len(),
{
    let x = s[p].0;
    let t = s.remove(p);
    if p == s.len() - 1 {
        assert(t =~= s.drop_last());
        assert(forall|i: int| 0 <= i < s.drop_last().len() ==> s.drop_last()[i].0 != x);
        lemma_table_map_absent(s.drop_last(), x);
        assert(table_map(t) =~= table_map(s).remove(x));
    } else {
        assert(t.last() == s.last());
        assert(t.drop_last() =~= s.drop_last().remove(p));
        lemma_table_map_remove(s.drop_last(), p);
        assert(s.last().0 != x);
        assert(table_map(t) =~= table_map(s).remove(x));
    }
}

/// Entries of a well-formed machine hold pairwise distinct handles.
proof fn lemma_entries_unique(vm: &Vm)
    requires
        handles_sorted(vm.handles()),
    ensures
        forall|a: int, b: int|
            0 <= a < b < vm.entries().len() ==> vm.entries()[a].0 != vm.entries()[b].0,
{
    assert forall|a: int, b: int|
        0 <= a < b < vm.entries().len() implies vm.entries()[a].0 != vm.entries()[b].0 by {
        assert(vm.handles()[a] == vm.entries()[a].0);
        assert(vm.handles()[b] == vm.entries()[b].0);
        assert(vm.handles()[a] < vm.handles()[b]);
    }
}

/// The machine: a handle table of processors and the execution context they
/// share. Handles are integers the table assigns; a handle carries no
/// identity guarantee beyond its create/destroy bracket.
pub struct Vm {
    processors: Vec<(usize, Processor)>,
    ctx: Arc<VmCtx>,
}

impl Vm {
    /// The live entries of the handle table, ascending by handle.
    pub closed spec fn entries(&self) -> Seq<(usize, Processor)> {
        self.processors@
    }

    /// The live handles, ascending.
    pub open spec fn handles(&self) -> Seq<usize> {
        self.entries().map_values(|e: (usize, Processor)| e.0)
    }

    /// The handle table as a map from live handle to processor.
    pub open spec fn table(&self) -> Map<usize, Processor> {
        table_map(self.entries())
    }

    /// The shared execution context.
    pub closed spec fn ctx(&self) -> Arc<VmCtx> {
        self.ctx
    }

    /// Whether the machine is well formed: handles strictly ascending, every
    /// processor well formed and bound to this machine's context, and the
    /// context well formed. Constructed machines are well formed and every
    /// method preserves it.
    pub open spec fn wf(&self) -> bool {
        &&& handles_sorted(self.handles())
        &&& forall|i: int|
            0 <= i < self.entries().len() ==> (#[trigger] self.entries()[i]).1.wf()
        &&& forall|i: int|
            0 <= i < self.entries().len() ==> (#[trigger] self.entries()[i]).1.ctx() == self.ctx()
        &&& self.ctx().wf()
    }

    /// Constructs a machine with an empty handle table, an empty instruction
    /// stream and an empty memory store.
    pub fn new() -> (vm: Self)
        ensures
            vm.wf(),
            vm.entries() =~= Seq::<(usize, Processor)>::empty(),
    {
        Vm { processors: Vec::new(), ctx: Arc::new(VmCtx::new()) }
    }

    /// The number of live processors.
    pub fn processor_count(&self) -> (n: usize)
        ensures
            n == self.entries().len(),
    {
        self.processors.len()
    }

    /// Replaces the shared instruction stream. The replacement is visible to
    /// every processor sharing the context — those created before this call
    /// and those created after it — as soon as the stream's lock is
    /// released.
    pub fn load_instructions(&mut self, instructions: Vec<Executable>) -> (r: Result<(), Error>)
        requires
            old(self).wf(),
        ensures
            r == Ok::<(), Error>(()),
            *final(self) == *old(self),
    {
        let ctx = share_ctx(&self.ctx);
        let (stream, write_handle) = ctx.instructions_lock().acquire_write();
        let _ = stream;
        write_handle.release_write(instructions);
        Ok(())
    }

    /// The handle the table assigns next: scans the live handles ascending
    /// and reuses the first gap between consecutive handles; where none
    /// exists, the table's size.
    fn find_next_handle(&self) -> (h: usize)
        requires
            self.wf(),
        ensures
            h == spec_next_handle(self.handles()),
    {
        let n = self.processors.len();
        if n == 0 {
            return 0;
        }
        let mut i: usize = 0;
        while i + 1 < n
            invariant
                self.wf(),
                n == self.entries().len(),
                i < n,
                next_handle_from(self.handles(), 0) == next_handle_from(self.handles(), i as int),
            decreases n - i,
        {
            let here = self.processors[i].0;
            let next = self.processors[i + 1].0;
            if next - here > 1 {
                return here + 1;
            }
            i = i + 1;
        }
        n
    }

    /// Constructs a processor bound to the shared context and returns its
    /// fresh handle: the first gap in the live handles, or the table's size
    /// where no gap exists.
    pub fn new_processor(&mut self) -> (h: usize)
        requires
            old(self).wf(),
        ensures
            final(self).wf(),
            final(self).ctx() == old(self).ctx(),
            h == spec_next_handle(old(self).handles()),
            final(self).table() =~= old(self).table().insert(h, final(self).table()[h]),
            final(self).table()[h].wf(),
            final(self).table()[h].regs() =~= Seq::new(16, |i: int| 0u64),
            final(self).table()[h].dump_log() =~= Seq::<Seq<u64>>::empty(),
            final(self).entries().len() == old(self).entries().len() + (
            if old(self).handles().contains(h) {
                0int
            } else {
                1int
            }),
    {
        let h = self.find_next_handle();
        let fresh = Processor::new(&self.ctx);
        let ghost s0 = self.entries();
        let mut position: usize = 0;
        while position < self.processors.len() && self.processors[position].0 < h
            invariant
                self.wf(),
                self.entries() == s0,
                position <= s0.len(),
                forall|j: int| 0 <= j < position ==> s0[j].0 < h,
            decreases s0.len() - position,
        {
            position = position + 1;
        }
        proof {
            lemma_entries_unique(self);
        }
        let ghost h0 = self.handles();
        if position < self.processors.len() && self.processors[position].0 == h {
            proof {
                lemma_table_map_update(s0, position as int, h, fresh);
            }
            self.processors[position] = (h, fresh);
            proof {
                assert(self.entries() =~= s0.update(position as int, (h, fresh)));
                lemma_table_map_index(self.entries(), position as int);
                assert(self.handles() =~= h0);
                assert(h0.contains(h)) by {
                    assert(h0[position as int] == h);
                }
            }
            h
        } else {
            proof {
                assert forall|j: int| 0 <= j < s0.len() implies s0[j].0 != h by {
                    if j >= position {
                        assert(s0[position as int].0 > h);
                        if j > position {
                            assert(h0[position as int] < h0[j]);
                        }
                    }
                }
                lemma_table_map_insert(s0, position as int, h, fresh);
            }
            self.processors.insert(position, (h, fresh));
            proof {
                let s1 = self.entries();
                assert(s1 =~= s0.insert(position as int, (h, fresh)));
                lemma_table_map_index(s1, position as int);
                assert(self.handles() =~= h0.insert(position as int, h));
                assert(handles_sorted(self.handles())) by {
                    let h1 = self.handles();
                    assert forall|a: int, b: int| 0 <= a < b < h1.len() implies h1[a] < h1[b] by {
                        if b < position {
                        } else if a >= position + 1 {
                            assert(h1[a] == h0[a - 1] && h1[b] == h0[b - 1]);
                        } else if a < position && b == position {
                            assert(h1[a] == h0[a] && h1[b] == h);
                        } else if a == position && b > position {
                            assert(h1[a] == h && h1[b] == h0[b - 1]);
                            assert(s0[b - 1].0 != h);
                            assert(position < s0.len() ==> s0[position as int].0 > h);
                            if b - 1 > position {
                                assert(h0[position as int] < h0[b - 1]);
                            }
                        } else {
                            assert(h1[a] == h0[a] && h1[b] == h0[b - 1]);
                            if a < b - 1 {
                                assert(h0[a] < h0[b - 1]);
                            }
                        }
                    }
                }
                assert(!h0.contains(h)) by {
                    assert(forall|i: int| 0 <= i < s0.len() ==> h0[i] == s0[i].0);
                }
            }
            h
        }
    }

    /// Destroys the processor at the given handle; a handle that is not
    /// live leaves the table untouched.
    pub fn destroy_processor(&mut self, index: usize)
        requires
            old(self).wf(),
        ensures
            final(self).wf(),
            final(self).ctx() == old(self).ctx(),
            final(self).table() =~= old(self).table().remove(index),
            final(self).entries().len() == old(self).entries().len() - (
            if old(self).handles().contains(index) {
                1int
            } else {
                0int
            }),
    {
        let ghost s0 = self.entries();
        proof {
            lemma_entries_unique(self);
        }
        let mut i: usize = 0;
        while i < self.processors.len()
            invariant
                *self == *old(self),
                self.wf(),
                self.entries() == s0,
                i <= s0.len(),
                forall|a: int, b: int| 0 <= a < b < s0.len() ==> s0[a].0 != s0[b].0,
                forall|j: int| 0 <= j < i ==> s0[j].0 != index,
            decreases s0.len() - i,
        {
            if self.processors[i].0 == index {
                proof {
                    lemma_table_map_remove(s0, i as int);
                }
                self.processors.remove(i);
                proof {
                    assert(self.entries() =~= s0.remove(i as int));
                    assert(self.handles() =~= old(self).handles().remove(i as int));
                    assert(handles_sorted(self.handles()));
                    assert(old(self).handles().contains(index)) by {
                        assert(old(self).handles()[i as int] == index);
                    }
                }
                return ;
            }
            i = i + 1;
        }
        proof {
            lemma_table_map_absent(s0, index);
            assert(table_map(s0) =~= table_map(s0).remove(index));
            assert(!old(self).handles().contains(index)) by {
                assert(forall|j: int| 0 <= j < s0.len() ==> old(self).handles()[j] == s0[j].0);
            }
        }
    }

    /// A reference to the processor at the given handle; a handle that is
    /// not live fails with `ProcessorIndexOutOfBounds`.
    pub fn processor(&self, index: usize) -> (r: Result<&Processor, Error>)
        requires
            self.wf(),
        ensures
            self.table().contains_key(index) ==> (r matches Ok(p) && *p == self.table()[index]),
            !self.table().contains_key(index) ==> r == Err::<&Processor, Error>(
                Error::ProcessorIndexOutOfBounds,
            ),
    {
        let ghost s0 = self.entries();
        proof {
            lemma_entries_unique(self);
        }
        let mut i: usize = 0;
        while i < self.processors.len()
            invariant
                self.wf(),
                self.entries() == s0,
                i <= s0.len(),
                forall|a: int, b: int| 0 <= a < b < s0.len() ==> s0[a].0 != s0[b].0,
                forall|j: int| 0 <= j < i ==> s0[j].0 != index,
            decreases s0.len() - i,
        {
            if self.processors[i].0 == index {
                proof {
                    lemma_table_map_index(s0, i as int);
                }
                return Ok(&self.processors[i].1);
            }
            i = i + 1;
        }
        proof {
            lemma_table_map_absent(s0, index);
        }
        Err(Error::ProcessorIndexOutOfBounds)
    }

    /// A mutable reference to the processor at the given handle; a handle
    /// that is not live fails with `ProcessorIndexOutOfBounds`. The table
    /// afterwards holds, under that handle, whatever the caller leaves in
    /// the referenced processor, provided it stays well formed and bound to
    /// this machine's context.
    pub fn processor_mut(&mut self, index: usize) -> (r: Result<&mut Processor, Error>)
        requires
            old(self).wf(),
        ensures
            !old(self).table().contains_key(index) ==> r == Err::<&mut Processor, Error>(
                Error::ProcessorIndexOutOfBounds,
            ) && *final(self) == *old(self),
            old(self).table().contains_key(index) ==> (r matches Ok(p) && {
                &&& *p == old(self).table()[index]
                &&& final(self).table() =~= old(self).table().insert(index, *final(p))
                &&& final(self).handles() == old(self).handles()
                &&& final(self).ctx() == old(self).ctx()
                &&& ((final(p).wf() && final(p).ctx() == old(self).ctx()) ==> final(self).wf())
            }),
    {
        let ghost s0 = self.entries();
        proof {
            lemma_entries_unique(self);
        }
        let n = self.processors.len();
        let mut i: usize = 0;
        while i < n
            invariant
                *self == *old(self),
                self.wf(),
                self.entries() == s0,
                n == s0.len(),
                i <= s0.len(),
                forall|a: int, b: int| 0 <= a < b < s0.len() ==> s0[a].0 != s0[b].0,
                forall|j: int| 0 <= j < i ==> s0[j].0 != index,
            decreases s0.len() - i,
        {
            if self.processors[i].0 == index {
                proof {
                    lemma_table_map_index(s0, i as int);
                    assert forall|v: Processor|
                        table_map(s0.update(i as int, (index, v))) == table_map(s0).insert(
                            index,
                            v,
                        ) by {
                        lemma_table_map_update(s0, i as int, index, v);
                        assert(table_map(s0.update(i as int, (index, v))) =~= table_map(
                            s0,
                        ).insert(index, v));
                    }
                    assert forall|v: Processor|
                        s0.update(i as int, (index, v)).map_values(
                            |e: (usize, Processor)| e.0,
                        ) == s0.map_values(|e: (usize, Processor)| e.0) by {
                        assert(s0.update(i as int, (index, v)).map_values(
                            |e: (usize, Processor)| e.0,
                        ) =~= s0.map_values(|e: (usize, Processor)| e.0));
                    }
                }
                return Ok(&mut self.processors[i].1);
            }
            i = i + 1;
        }
        proof {
            lemma_table_map_absent(s0, index);
        }
        Err(Error::ProcessorIndexOutOfBounds)
    }
}

} // verus!
