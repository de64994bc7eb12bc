//! Records that the processor reads from memory.

pub mod tss;
