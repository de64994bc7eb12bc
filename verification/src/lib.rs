//! The 64-bit task state segment and the rules for attaching an I/O
//! permission bitmap to it.

pub mod addr;
pub mod structures;

pub use addr::VirtAddr;
