//! Userland runtime for processes on a capability-based microkernel.
//!
//! Everything a process asks of the kernel goes through one trap with a
//! numbered operation, seven argument registers and two result registers.
//! This crate holds what surrounds that trap: how each operation fills the
//! registers and reads the result, what a received message owns, the
//! spin-then-wait lock, the size-classed heap and the block-storage
//! exchange. The trap itself, and every read or write of raw memory, is left
//! to the program that links the crate; the functions here take and return
//! plain values.
//!
//! - `syscalls`: the operations of the kernel, and messages.
//! - `capability`: the handles that the kernel grants.
//! - `env`: what a process is started with.
//! - `sync`: the lock.
//! - `heap`: the allocator, and in `heap::model` what holds of it.
//! - `fsd`: reading and writing sectors of a block device.
//! - `daemon`: the filesystem daemon's bookkeeping.

pub mod capability;
pub mod daemon;
pub mod env;
pub mod fsd;
pub mod heap;
pub mod sync;
pub mod syscalls;
