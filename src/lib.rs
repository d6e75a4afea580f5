//! Core of a capability-based microkernel hosted in a user process:
//! handle rights, the emulated physical memory and its frame allocator,
//! and the bootstrap of the first user process.
use vstd::prelude::*;

pub mod boot;
pub mod elf;
pub mod elf_sound;
pub mod frame;
pub mod pmem;
pub mod rights;
pub mod thread;
