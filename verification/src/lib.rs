//! Guarded secure-memory toolkit: page-aligned guarded allocation layouts,
//! pointer-recovery arithmetic, constant-behavior byte primitives, and a
//! verified model of the guarded allocator itself.

use vstd::prelude::*;

pub mod addr;
pub mod guarded;
pub mod bytes;
pub mod layout;
pub mod prot;
pub mod state;

verus! {

/// Number of random tag bytes stored immediately before every payload.
pub const CANARY_SIZE: usize = 16;

/// Byte written into fresh payload bytes so uninitialized reads are
/// detectable and never silently read as zero.
pub const GARBAGE_VALUE: u8 = 0xd0;

} // verus!
