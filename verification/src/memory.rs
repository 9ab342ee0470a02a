//! Memory that is read and written at a cursor.

pub mod in_memory_memory;
pub mod memory_trait;

pub use in_memory_memory::{InMemoryBuilder, InMemoryMemory};
pub use memory_trait::{
    conforms, displaced, extent, presence, presence_of, Memory, MemoryView, Presence,
};
