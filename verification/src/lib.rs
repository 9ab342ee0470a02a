//! A small virtual machine: a typed little-endian codec, a byte memory that is
//! addressed through a cursor, and an instruction set that works on that memory
//! by displacements relative to the cursor.
//!
//! - [`types`] holds the codec, [`types::ReadWriteable`], with the values that it
//!   knows, and the instruction set, [`types::Instruction`].
//! - [`memory`] holds what a memory offers, [`memory::Memory`], the model that its
//!   contracts speak of, [`memory::MemoryView`], and the memory in a buffer,
//!   [`memory::InMemoryMemory`].
//! - [`machine`] holds the machine, [`machine::Machine`], which executes the
//!   instructions in a memory one after the other.
//! - [`fault`] holds the ways in which that ends abnormally.
//!
//! What an instruction does is defined on the model, in [`types::Operation::effect`],
//! and the machine is proved to do that on every memory that keeps to the contracts
//! of [`memory::Memory`]. Two things are left to the caller. The machine runs for a
//! number of steps that the caller gives, and can be run again. And it computes no
//! floating-point number: it reads the operands of such an instruction, hands them
//! out, and has the result stored, see [`types::FloatRequest`].

pub mod fault;
pub mod machine;
pub mod memory;
pub mod types;
