use crate::error::Error;
use crate::register::truncate_value;
use std::collections::BTreeMap;
use vstd::prelude::*;

verus! {

broadcast use vstd::laws_cmp::group_laws_cmp;

/// One memory cell: the byte buffer a single write created, modelled as the
/// width of that write and the value its bytes encode little-endian.
///
/// The value always fits the width: a write truncates before storing.
#[derive(Debug, PartialEq, Eq, Clone, Copy)]
pub struct MemCell {
    /// The width of the write that created the cell: one, two, four or
    /// eight bytes.
    pub bytes: u64,
    /// The value the cell's bytes encode, zero-extended to 64 bits.
    pub value: u64,
}

/// Whether a cell is one a write can create: a supported width, and a value
/// that fits it.
pub open spec fn cell_wf(c: MemCell) -> bool {
    &&& (c.bytes == 1 || c.bytes == 2 || c.bytes == 4 || c.bytes == 8)
    &&& truncate_value(c.bytes, c.value) == c.value
}

/// Whether every cell of a memory model is well formed.
pub open spec fn mem_wf(m: Map<u64, MemCell>) -> bool {
    forall|a: u64| #[trigger] m.contains_key(a) ==> cell_wf(m[a])
}

/// What a read of `bytes` bytes at `addr` returns from a memory model:
/// the stored value truncated to the requested width, an
/// `AddressNotPresent` failure where no write has created a cell at exactly
/// that address, and a `WidthMismatch` failure where the cell is narrower
/// than the requested width.
pub open spec fn mem_read(m: Map<u64, MemCell>, addr: u64, bytes: u64) -> Result<u64, Error> {
    if !m.contains_key(addr) {
        Err(Error::AddressNotPresent)
    } else if m[addr].bytes < bytes {
        Err(Error::WidthMismatch)
    } else {
        Ok(truncate_value(bytes, m[addr].value))
    }
}

/// What a write of `bytes` bytes at `addr` leaves in a memory model: a new
/// cell of exactly that width holding the value truncated to it, replacing
/// whatever cell the address held.
pub open spec fn mem_write(m: Map<u64, MemCell>, addr: u64, bytes: u64, v: u64) -> Map<
    u64,
    MemCell,
> {
    m.insert(addr, MemCell { bytes, value: truncate_value(bytes, v) })
}

/// The sparse memory store shared by the processors of one machine.
///
/// An ordered map from address to the byte buffer the last write at that
/// address created. Unwritten addresses are absent, never zero-filled: a
/// read fails explicitly where no cell exists or where the cell is narrower
/// than the read.
#[derive(Debug)]
pub struct Memory {
    cells: BTreeMap<u64, MemCell>,
}

impl View for Memory {
    type V = Map<u64, MemCell>;

    closed spec fn view(&self) -> Map<u64, MemCell> {
        self.cells@
    }
}

impl Memory {
    /// Whether every cell of the store is well formed; constructors
    /// establish this and every method preserves it.
    pub open spec fn wf(&self) -> bool {
        mem_wf(self@)
    }

    /// Constructs an empty memory store.
    pub fn new() -> (m: Self)
        ensures
            m@ == Map::<u64, MemCell>::empty(),
            m.wf(),
    {
        Memory { cells: BTreeMap::new() }
    }

    /// Reads the cell at `addr` truncated to `bytes` bytes; fails where no
    /// cell exists at exactly that address or where the cell is narrower.
    pub(crate) fn get_cell(&self, addr: u64, bytes: u64) -> (r: Result<u64, Error>)
        requires
            self.wf(),
            bytes == 1 || bytes == 2 || bytes == 4 || bytes == 8,
        ensures
            r == mem_read(self@, addr, bytes),
    {
        match self.cells.get(&addr) {
            None => Err(Error::AddressNotPresent),
            Some(cell) => {
                if cell.bytes < bytes {
                    Err(Error::WidthMismatch)
                } else if bytes == 1 {
                    Ok((#[verifier::truncate] (cell.value as u8)) as u64)
                } else if bytes == 2 {
                    Ok((#[verifier::truncate] (cell.value as u16)) as u64)
                } else if bytes == 4 {
                    Ok((#[verifier::truncate] (cell.value as u32)) as u64)
                } else {
                    Ok(cell.value)
                }
            },
        }
    }

    /// Replaces the cell at `addr` with a fresh cell of `bytes` bytes
    /// holding `value` truncated to that width.
    pub(crate) fn put_cell(&mut self, addr: u64, bytes: u64, value: u64)
        requires
            old(self).wf(),
            bytes == 1 || bytes == 2 || bytes == 4 || bytes == 8,
        ensures
            final(self)@ == mem_write(old(self)@, addr, bytes, value),
            final(self).wf(),
    {
        let truncated: u64 = if bytes == 1 {
            (#[verifier::truncate] (value as u8)) as u64
        } else if bytes == 2 {
            (#[verifier::truncate] (value as u16)) as u64
        } else if bytes == 4 {
            (#[verifier::truncate] (value as u32)) as u64
        } else {
            value
        };
        let cell = MemCell { bytes, value: truncated };
        self.cells.insert(addr, cell);
    }

    /// Stores a one-byte cell at `index`.
    pub fn put_u8(&mut self, index: usize, value: u8)
        requires
            old(self).wf(),
        ensures
            final(self)@ == mem_write(old(self)@, index as u64, 1, value as u64),
            final(self).wf(),
    {
        self.put_cell(index as u64, 1, value as u64);
    }

    /// Stores a two-byte cell at `index`.
    pub fn put_u16(&mut self, index: usize, value: u16)
        requires
            old(self).wf(),
        ensures
            final(self)@ == mem_write(old(self)@, index as u64, 2, value as u64),
            final(self).wf(),
    {
        self.put_cell(index as u64, 2, value as u64);
    }

    /// Stores a four-byte cell at `index`.
    pub fn put_u32(&mut self, index: usize, value: u32)
        requires
            old(self).wf(),
        ensures
            final(self)@ == mem_write(old(self)@, index as u64, 4, value as u64),
            final(self).wf(),
    {
        self.put_cell(index as u64, 4, value as u64);
    }

    /// Stores an eight-byte cell at `index`.
    pub fn put_u64(&mut self, index: usize, value: u64)
        requires
            old(self).wf(),
        ensures
            final(self)@ == mem_write(old(self)@, index as u64, 8, value),
            final(self).wf(),
    {
        self.put_cell(index as u64, 8, value);
    }

    /// Reads a one-byte value at `index`.
    pub fn get_u8(&self, index: usize) -> (r: Result<u8, Error>)
        requires
            self.wf(),
        ensures
            match mem_read(self@, index as u64, 1) {
                Ok(v) => r == Ok::<u8, Error>(v as u8),
                Err(e) => r == Err::<u8, Error>(e),
            },
    {
        match self.get_cell(index as u64, 1) {
            Ok(v) => Ok(#[verifier::truncate] (v as u8)),
            Err(e) => Err(e),
        }
    }

    /// Reads a two-byte value at `index`.
    pub fn get_u16(&self, index: usize) -> (r: Result<u16, Error>)
        requires
            self.wf(),
        ensures
            match mem_read(self@, index as u64, 2) {
                Ok(v) => r == Ok::<u16, Error>(v as u16),
                Err(e) => r == Err::<u16, Error>(e),
            },
    {
        match self.get_cell(index as u64, 2) {
            Ok(v) => Ok(#[verifier::truncate] (v as u16)),
            Err(e) => Err(e),
        }
    }

    /// Reads a four-byte value at `index`.
    pub fn get_u32(&self, index: usize) -> (r: Result<u32, Error>)
        requires
            self.wf(),
        ensures
            match mem_read(self@, index as u64, 4) {
                Ok(v) => r == Ok::<u32, Error>(v as u32),
                Err(e) => r == Err::<u32, Error>(e),
            },
    {
        match self.get_cell(index as u64, 4) {
            Ok(v) => Ok(#[verifier::truncate] (v as u32)),
            Err(e) => Err(e),
        }
    }

    /// Reads an eight-byte value at `index`.
    pub fn get_u64(&self, index: usize) -> (r: Result<u64, Error>)
        requires
            self.wf(),
        ensures
            r == mem_read(self@, index as u64, 8),
    {
        self.get_cell(index as u64, 8)
    }

    /// Stores the byte encoding of a signed one-byte value at `index`.
    pub fn put_i8(&mut self, index: usize, value: i8)
        requires
            old(self).wf(),
        ensures
            final(self)@ == mem_write(old(self)@, index as u64, 1, (value as u8) as u64),
            final(self).wf(),
    {
        self.put_u8(index, #[verifier::truncate] (value as u8));
    }

    /// Stores the byte encoding of a signed two-byte value at `index`.
    pub fn put_i16(&mut self, index: usize, value: i16)
        requires
            old(self).wf(),
        ensures
            final(self)@ == mem_write(old(self)@, index as u64, 2, (value as u16) as u64),
            final(self).wf(),
    {
        self.put_u16(index, #[verifier::truncate] (value as u16));
    }

    /// Stores the byte encoding of a signed four-byte value at `index`.
    pub fn put_i32(&mut self, index: usize, value: i32)
        requires
            old(self).wf(),
        ensures
            final(self)@ == mem_write(old(self)@, index as u64, 4, (value as u32) as u64),
            final(self).wf(),
    {
        self.put_u32(index, #[verifier::truncate] (value as u32));
    }

    /// Stores the byte encoding of a signed eight-byte value at `index`.
    pub fn put_i64(&mut self, index: usize, value: i64)
        requires
            old(self).wf(),
        ensures
            final(self)@ == mem_write(old(self)@, index as u64, 8, value as u64),
            final(self).wf(),
    {
        self.put_u64(index, #[verifier::truncate] (value as u64));
    }

    /// Reads a one-byte value at `index`, reinterpreted as signed.
    pub fn get_i8(&self, index: usize) -> (r: Result<i8, Error>)
        requires
            self.wf(),
        ensures
            match mem_read(self@, index as u64, 1) {
                Ok(v) => r == Ok::<i8, Error>(v as i8),
                Err(e) => r == Err::<i8, Error>(e),
            },
    {
        match self.get_u8(index) {
            Ok(v) => {
                proof {
                    lemma_cast_u64_chain(v as u64);
                }
                Ok(#[verifier::truncate] (v as i8))
            },
            Err(e) => Err(e),
        }
    }

    /// Reads a two-byte value at `index`, reinterpreted as signed.
    pub fn get_i16(&self, index: usize) -> (r: Result<i16, Error>)
        requires
            self.wf(),
        ensures
            match mem_read(self@, index as u64, 2) {
                Ok(v) => r == Ok::<i16, Error>(v as i16),
                Err(e) => r == Err::<i16, Error>(e),
            },
    {
        match self.get_u16(index) {
            Ok(v) => {
                proof {
                    lemma_cast_u64_chain(v as u64);
                }
                Ok(#[verifier::truncate] (v as i16))
            },
            Err(e) => Err(e),
        }
    }

    /// Reads a four-byte value at `index`, reinterpreted as signed.
    pub fn get_i32(&self, index: usize) -> (r: Result<i32, Error>)
        requires
            self.wf(),
        ensures
            match mem_read(self@, index as u64, 4) {
                Ok(v) => r == Ok::<i32, Error>(v as i32),
                Err(e) => r == Err::<i32, Error>(e),
            },
    {
        match self.get_u32(index) {
            Ok(v) => {
                proof {
                    lemma_cast_u64_chain(v as u64);
                }
                Ok(#[verifier::truncate] (v as i32))
            },
            Err(e) => Err(e),
        }
    }

    /// Reads an eight-byte value at `index`, reinterpreted as signed.
    pub fn get_i64(&self, index: usize) -> (r: Result<i64, Error>)
        requires
            self.wf(),
        ensures
            match mem_read(self@, index as u64, 8) {
                Ok(v) => r == Ok::<i64, Error>(v as i64),
                Err(e) => r == Err::<i64, Error>(e),
            },
    {
        match self.get_u64(index) {
            Ok(v) => Ok(#[verifier::truncate] (v as i64)),
            Err(e) => Err(e),
        }
    }
}

/// Casting a 64-bit value to a narrow unsigned type and on to the signed
/// type of the same size is the same as casting it to that signed type
/// directly.
proof fn lemma_cast_u64_chain(v: u64)
    by (bit_vector)
    ensures
        ((v as u8) as i8) == (v as i8) || v > 0xFF,
        ((v as u16) as i16) == (v as i16) || v > 0xFFFF,
        ((v as u32) as i32) == (v as i32) || v > 0xFFFF_FFFF,
{
}

/// Writing a cell and reading it back at the width of the write returns the
/// written value truncated to that width; reading an address no write has
/// created fails with `AddressNotPresent`; reading wider than the cell a
/// write left fails with `WidthMismatch`; and a write replaces the cell at
/// its address while leaving every other address untouched.
pub proof fn lemma_memory_write_read(m: Map<u64, MemCell>, addr: u64, bytes: u64, v: u64)
    ensures
        mem_read(mem_write(m, addr, bytes, v), addr, bytes) == Ok::<u64, Error>(
            truncate_value(bytes, v),
        ),
        !m.contains_key(addr) ==> mem_read(m, addr, bytes) == Err::<u64, Error>(
            Error::AddressNotPresent,
        ),
        forall|wider: u64| wider > bytes ==> mem_read(mem_write(m, addr, bytes, v), addr, wider)
            == Err::<u64, Error>(Error::WidthMismatch),
        forall|other: u64| other != addr ==> mem_read(mem_write(m, addr, bytes, v), other, bytes)
            == mem_read(m, other, bytes),
{
    assert(truncate_value(bytes, truncate_value(bytes, v)) == truncate_value(bytes, v)) by {
        lemma_truncate_idempotent(bytes, v);
    }
}

/// Truncating twice to the same width truncates once.
proof fn lemma_truncate_idempotent(bytes: u64, v: u64)
    by (bit_vector)
    ensures
        truncate_value(bytes, truncate_value(bytes, v)) == truncate_value(bytes, v),
{
}

} // verus!
