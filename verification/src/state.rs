//! Process-wide allocator state: the page size, its mask, and the secret
//! integrity canary, written once at first use and immutable afterwards.
//! The caller queries the platform for its page size and builds the state
//! from it; construction fails exactly when that page size cannot carry the
//! layout arithmetic, which the design treats as fatal.

use vstd::prelude::*;
use rand::RngCore;
use crate::CANARY_SIZE;
use crate::layout::valid_page_size;

verus! {

/// Draws the canary bytes from the operating system's secure random source.
///
/// Relies on `rand::rngs::OsRng` with `rand_core`'s `RngCore::fill_bytes`:
/// it fills the whole buffer with bytes from the OS randomness source and
/// aborts the process if that source is unavailable, which is exactly the
/// fatal-initialization behavior the design demands. Nothing can be promised
/// about the values themselves, only the length.
#[verifier::external_body]
fn random_canary() -> (r: Vec<u8>)
    ensures
        r@.len() == CANARY_SIZE,
{
    let mut buf = vec![0u8; CANARY_SIZE];
    rand::rngs::OsRng.fill_bytes(&mut buf);
    buf
}

/// The once-initialized process context every allocation shares.
pub struct AllocState {
    pub page_size: usize,
    pub page_mask: usize,
    pub canary: Vec<u8>,
}

impl AllocState {
    pub open spec fn wf(self) -> bool {
        &&& valid_page_size(self.page_size as int)
        &&& self.page_mask == self.page_size - 1
        &&& self.canary@.len() == CANARY_SIZE
    }

    /// One-time initialization from the platform's page size. Returns `None`
    /// exactly when the page size is too small to hold the canary or the
    /// stored size word, or too large for the size arithmetic; the caller
    /// must treat `None` as fatal.
    pub fn new(page_size: usize) -> (r: Option<AllocState>)
        ensures
            r is Some <==> valid_page_size(page_size as int)
                && vstd::layout::size_of::<usize>() <= page_size,
            r is Some ==> r.unwrap().wf() && r.unwrap().page_size == page_size,
    {
        if page_size < CANARY_SIZE || page_size < core::mem::size_of::<usize>() {
            return None;
        }
        if page_size > usize::MAX / 4 {
            return None;
        }
        Some(AllocState { page_size, page_mask: page_size - 1, canary: random_canary() })
    }
}

} // verus!
