//! The values that the machine reads and writes, and its instructions.

pub mod codec;
pub mod instruction;
pub mod offset;
pub mod tuples;
pub mod word;

pub use codec::{decode_from, le_bytes, le_value, radix, ReadWriteable};
pub use instruction::{FloatOp, FloatOperands, FloatRequest, Instruction, Operation};
pub use offset::{Offset, OffsetPair};
pub use word::{signed, unsigned, IntegerOp};
