use vstd::prelude::*;

verus! {

/// The error taxonomy of the virtual machine.
///
/// Every failure is reported as one of these values to the immediate caller;
/// no operation retries internally, and a run aborts on the first error.
#[derive(Debug, PartialEq, Eq, Clone, Copy)]
pub enum Error {
    /// A failure with no more precise description, such as a run that
    /// exhausts the engine's cycle budget without halting.
    Unknown,
    /// A register index outside the sixteen-cell bank was named.
    RegisterIndexOutOfBounds,
    /// A processor handle that is not live in the handle table was named.
    ProcessorIndexOutOfBounds,
    /// The shared instruction stream can no longer be accessed.
    InstructionsPoisoned,
    /// The shared memory store can no longer be accessed.
    MemoryPoisoned,
    /// An operand of a shape the instruction cannot use in that position.
    InvalidOperand,
    /// A memory read at an address that no write has created.
    AddressNotPresent,
    /// A memory read wider than the cell stored at that address.
    WidthMismatch,
    /// A call index with no registered host callback.
    CallIndexUnknown,
}

} // verus!
