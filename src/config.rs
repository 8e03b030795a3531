//! Constants shared by the scheduler and the processor.
use vstd::prelude::*;

verus! {

/// Numerator of the stride formula: a dispatch advances a task's pass by
/// `BIG_STRIDE / priority`.
pub const BIG_STRIDE: u64 = 1_000_000;

/// Number of per-task syscall counters; ids at or above it are not counted.
pub const MAX_SYSCALL_NUM: usize = 500;

/// Size in bytes of a virtual page.
pub const PAGE_SIZE: usize = 4096;

/// Permission bit that makes a page accessible from user mode.
pub const PERM_USER: u8 = 16;

} // verus!
