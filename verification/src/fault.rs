//! The ways in which execution stops abnormally.

use vstd::prelude::*;

verus! {

/// What the memory model itself refuses.
#[derive(Debug, Clone, Copy, PartialEq, Eq, Structural)]
pub enum MemoryFault {
    /// A read asked for bytes beyond the last one that is stored.
    UnexpectedEnd,
    /// The cursor, or the end of a write, would leave the addresses that a machine
    /// word can hold.
    OutOfRange,
}

/// Why an instruction could not be completed. Nothing is retried: after a fault the
/// machine has to be set up anew.
#[derive(Debug, PartialEq, Eq)]
pub enum Fault<E> {
    /// The memory failed with the error it reports.
    Memory(E),
    /// A division or a remainder was asked for with a divisor of zero.
    DivisionByZero,
}

} // verus!
