//! The guarded allocator, modeled over owned memory: a block is the
//! page-rounded payload region of one allocation, carrying the canary and
//! the user payload flush against its end, together with its current access
//! mode. Every operation of the process-memory allocator that decides or
//! computes — size validation, canary placement and verification, garbage
//! filling, access control — is verified here; the process-memory shim
//! performs the same steps through the platform's paging calls.

use vstd::prelude::*;
use crate::{CANARY_SIZE, GARBAGE_VALUE};
use crate::bytes::{memeq, memset};
use crate::layout::{compute_layout, malloc_size_ok, Layout};
use crate::prot::{readable, writable, Prot};
use crate::state::AllocState;
use vstd::arithmetic::div_mod::{lemma_fundamental_div_mod, lemma_mod_bound};
use vstd::arithmetic::mul::lemma_mul_inequality;

verus! {

/// A vector of `n` copies of `value`.
fn filled(n: usize, value: u8) -> (r: Vec<u8>)
    ensures
        r@.len() == n,
        forall|j: int| 0 <= j < n ==> r@[j] == value,
{
    let mut r: Vec<u8> = Vec::new();
    let mut i: usize = 0;
    while i < n
        invariant
            i <= n,
            r@.len() == i,
            forall|j: int| 0 <= j < i ==> r@[j] == value,
        decreases n - i,
    {
        r.push(value);
        i = i + 1;
    }
    r
}

/// Copy `src` into `dst` starting at `offset`, leaving other bytes alone.
fn copy_into(dst: &mut Vec<u8>, offset: usize, src: &Vec<u8>)
    requires
        offset + src@.len() <= old(dst)@.len(),
    ensures
        final(dst)@.len() == old(dst)@.len(),
        forall|k: int| 0 <= k < src@.len() ==> final(dst)@[offset + k] == src@[k],
        forall|k: int|
            0 <= k < old(dst)@.len() && !(offset <= k < offset + src@.len())
                ==> final(dst)@[k] == old(dst)@[k],
{
    let n = dst.len();
    let m = src.len();
    let mut j: usize = 0;
    while j < m
        invariant
            j <= m,
            m == src@.len(),
            offset + m <= n,
            dst@.len() == n,
            old(dst)@.len() == n,
            forall|k: int| 0 <= k < j ==> dst@[offset + k] == src@[k],
            forall|k: int|
                0 <= k < old(dst)@.len() && !(offset <= k < offset + j)
                    ==> dst@[k] == old(dst)@[k],
        decreases m - j,
    {
        dst.set(offset + j, src[j]);
        j = j + 1;
    }
}

/// One guarded allocation: its layout, the bytes of its payload region,
/// and its current access mode. The base page's stored size and the two
/// guard pages are implied by the layout; the region holds, in order, the
/// page-rounding slack, the canary, and the user payload.
pub struct GuardedBlock {
    pub layout: Layout,
    pub region: Vec<u8>,
    pub prot: Prot,
    pub locked: bool,
}

impl GuardedBlock {
    pub open spec fn wf(self) -> bool {
        &&& self.layout.wf()
        &&& self.region@.len() == self.layout.unprotected_size
    }

    /// Offset of the canary within the payload region.
    pub open spec fn canary_start(self) -> int {
        self.layout.unprotected_size - CANARY_SIZE - self.layout.requested
    }

    /// Offset of the user payload within the payload region.
    pub open spec fn payload_start(self) -> int {
        self.layout.unprotected_size - self.layout.requested
    }

    /// The canary bytes currently stored in front of the payload.
    pub open spec fn canary_slot(self) -> Seq<u8> {
        self.region@.subrange(self.canary_start(), self.canary_start() + CANARY_SIZE)
    }

    /// The user payload bytes: the last `requested` bytes of the region,
    /// flush against the trailing guard page.
    pub open spec fn payload(self) -> Seq<u8> {
        self.region@.subrange(self.payload_start(), self.layout.unprotected_size as int)
    }

    /// Number of user-visible payload bytes.
    pub fn len(&self) -> (r: usize)
        ensures
            r == self.layout.requested,
    {
        self.layout.requested
    }

    /// Read one payload byte; the region must currently be readable.
    pub fn read_byte(&self, i: usize) -> (r: u8)
        requires
            self.wf(),
            i < self.layout.requested,
            readable(self.prot),
        ensures
            r == self.payload()[i as int],
    {
        let off = self.layout.unprotected_size - self.layout.requested + i;
        self.region[off]
    }

    /// Write one payload byte; the region must currently be writable.
    pub fn write_byte(&mut self, i: usize, v: u8)
        requires
            old(self).wf(),
            i < old(self).layout.requested,
            writable(old(self).prot),
        ensures
            final(self).wf(),
            final(self).layout == old(self).layout,
            final(self).prot == old(self).prot,
            final(self).locked == old(self).locked,
            final(self).payload() == old(self).payload().update(i as int, v),
            final(self).canary_slot() == old(self).canary_slot(),
    {
        let off = self.layout.unprotected_size - self.layout.requested + i;
        self.region.set(off, v);
        proof {
            assert(final(self).payload() =~= old(self).payload().update(i as int, v));
            assert(final(self).canary_slot() =~= old(self).canary_slot());
        }
    }

    /// Read a byte anywhere in the payload region, canary and slack
    /// included. The region must currently be readable.
    pub fn region_read(&self, off: usize) -> (r: u8)
        requires
            self.wf(),
            off < self.layout.unprotected_size,
            readable(self.prot),
        ensures
            r == self.region@[off as int],
    {
        self.region[off]
    }

    /// Write a byte anywhere in the payload region, canary and slack
    /// included — in process memory the whole region is ordinary read-write
    /// data, so an underflowing caller can reach the canary exactly like
    /// this. The region must currently be writable.
    pub fn region_write(&mut self, off: usize, v: u8)
        requires
            old(self).wf(),
            off < old(self).layout.unprotected_size,
            writable(old(self).prot),
        ensures
            final(self).wf(),
            final(self).layout == old(self).layout,
            final(self).prot == old(self).prot,
            final(self).locked == old(self).locked,
            final(self).region@ == old(self).region@.update(off as int, v),
    {
        self.region.set(off, v);
    }

    /// Fill the whole payload with `value`; the canary is untouched.
    pub fn fill(&mut self, value: u8)
        requires
            old(self).wf(),
            writable(old(self).prot),
        ensures
            final(self).wf(),
            final(self).layout == old(self).layout,
            final(self).prot == old(self).prot,
            final(self).locked == old(self).locked,
            final(self).payload() == Seq::new(old(self).layout.requested as nat, |j: int| value),
            final(self).canary_slot() == old(self).canary_slot(),
    {
        let start = self.layout.unprotected_size - self.layout.requested;
        let n = self.layout.requested;
        memset(&mut self.region, value, start, n);
        proof {
            assert(final(self).payload() =~= Seq::new(
                old(self).layout.requested as nat,
                |j: int| value,
            ));
            assert(final(self).canary_slot() =~= old(self).canary_slot());
        }
    }

    /// Store `data` as the whole payload; the canary is untouched.
    pub fn write(&mut self, data: &[u8])
        requires
            old(self).wf(),
            data@.len() == old(self).layout.requested,
            writable(old(self).prot),
        ensures
            final(self).wf(),
            final(self).layout == old(self).layout,
            final(self).prot == old(self).prot,
            final(self).locked == old(self).locked,
            final(self).payload() == data@,
            final(self).canary_slot() == old(self).canary_slot(),
    {
        let start = self.layout.unprotected_size - self.layout.requested;
        let n = self.layout.requested;
        let mut j: usize = 0;
        while j < n
            invariant
                j <= n,
                n == self.layout.requested,
                data@.len() == n,
                start == self.layout.unprotected_size - n,
                self.wf(),
                self.layout == old(self).layout,
                self.prot == old(self).prot,
                self.locked == old(self).locked,
                forall|k: int| 0 <= k < j ==> self.region@[start + k] == data@[k],
                forall|k: int|
                    0 <= k < self.region@.len() && !(start <= k < start + j)
                        ==> self.region@[k] == old(self).region@[k],
            decreases n - j,
        {
            let v = data[j];
            self.region.set(start + j, v);
            j = j + 1;
        }
        proof {
            assert(final(self).payload() =~= data@);
            assert(final(self).canary_slot() =~= old(self).canary_slot());
        }
    }

    /// Read the whole payload back; the region must currently be readable.
    pub fn read_all(&self) -> (r: Vec<u8>)
        requires
            self.wf(),
            readable(self.prot),
        ensures
            r@ == self.payload(),
    {
        let start = self.layout.unprotected_size - self.layout.requested;
        let n = self.layout.requested;
        let mut r: Vec<u8> = Vec::new();
        let mut j: usize = 0;
        while j < n
            invariant
                j <= n,
                n == self.layout.requested,
                start == self.layout.unprotected_size - n,
                self.wf(),
                r@.len() == j,
                forall|k: int| 0 <= k < j ==> r@[k] == self.region@[start + k],
            decreases n - j,
        {
            r.push(self.region[start + j]);
            j = j + 1;
        }
        proof {
            assert(r@ =~= self.payload());
        }
        r
    }
}

/// Allocate a guarded block for a `size`-byte payload. Succeeds exactly on
/// the sizes the layout validation admits; the fresh block is read-write,
/// resident-locked, carries the process canary in its canary slot, and its
/// payload bytes hold the garbage sentinel, never silent zeros.
pub fn malloc(state: &AllocState, size: usize) -> (r: Option<GuardedBlock>)
    requires
        state.wf(),
    ensures
        r is Some <==> malloc_size_ok(state.page_size as int, size as int),
        r is Some ==> ({
            let b = r.unwrap();
            &&& b.wf()
            &&& b.layout.page_size == state.page_size
            &&& b.layout.requested == size
            &&& b.prot == Prot::ReadWrite
            &&& b.locked
            &&& b.canary_slot() == state.canary@
            &&& b.payload() == Seq::new(size as nat, |j: int| GARBAGE_VALUE)
        }),
{
    let layout = match compute_layout(state.page_size, size) {
        Some(l) => l,
        None => { return None; },
    };
    let mut region = filled(layout.unprotected_size, 0u8);
    let canary_start = layout.unprotected_size - CANARY_SIZE - layout.requested;
    copy_into(&mut region, canary_start, &state.canary);
    let payload_start = layout.unprotected_size - layout.requested;
    memset(&mut region, GARBAGE_VALUE, payload_start, layout.requested);
    let b = GuardedBlock { layout, region, prot: Prot::ReadWrite, locked: true };
    proof {
        assert(b.canary_slot() =~= state.canary@);
        assert(b.payload() =~= Seq::new(size as nat, |j: int| GARBAGE_VALUE));
    }
    Some(b)
}

/// Allocate a guarded block for `count` elements of `elem_size` bytes,
/// refusing a product that overflows the size domain instead of wrapping.
pub fn allocarray(state: &AllocState, count: usize, elem_size: usize) -> (r: Option<GuardedBlock>)
    requires
        state.wf(),
    ensures
        r is Some <==> count * elem_size <= usize::MAX
            && malloc_size_ok(state.page_size as int, (count * elem_size) as int),
        r is Some ==> ({
            let b = r.unwrap();
            &&& b.wf()
            &&& b.layout.page_size == state.page_size
            &&& b.layout.requested == count * elem_size
            &&& b.prot == Prot::ReadWrite
            &&& b.canary_slot() == state.canary@
        }),
{
    if elem_size != 0 && count > usize::MAX / elem_size {
        proof {
            let e = elem_size as int;
            let q = usize::MAX as int / e;
            lemma_fundamental_div_mod(usize::MAX as int, e);
            lemma_mod_bound(usize::MAX as int, e);
            lemma_mul_inequality(q + 1, count as int, e);
            assert((q + 1) * e == q * e + e) by (nonlinear_arith);
            assert(e * q == q * e) by (nonlinear_arith);
        }
        return None;
    }
    proof {
        if elem_size != 0 {
            let e = elem_size as int;
            let q = usize::MAX as int / e;
            lemma_fundamental_div_mod(usize::MAX as int, e);
            lemma_mod_bound(usize::MAX as int, e);
            lemma_mul_inequality(count as int, q, e);
            assert(e * q == q * e) by (nonlinear_arith);
        }
    }
    malloc(state, count * elem_size)
}

/// Release a guarded block, verifying its canary with the constant-behavior
/// equality primitive. The release path first restores read-write access to
/// the whole block, so it accepts a block in any current protection state.
/// Returns `true` exactly when the canary still holds the process value;
/// `false` signals corruption, which the caller must treat as fatal — the
/// model surfaces the verdict instead of terminating.
pub fn free(state: &AllocState, block: GuardedBlock) -> (r: bool)
    requires
        state.wf(),
        block.wf(),
    ensures
        r <==> block.canary_slot() == state.canary@,
{
    let canary_start = block.layout.unprotected_size - CANARY_SIZE - block.layout.requested;
    let mut slot: Vec<u8> = Vec::new();
    let mut j: usize = 0;
    while j < CANARY_SIZE
        invariant
            j <= CANARY_SIZE,
            block.wf(),
            canary_start == block.canary_start(),
            slot@.len() == j,
            forall|k: int| 0 <= k < j ==> slot@[k] == block.region@[canary_start + k],
        decreases CANARY_SIZE - j,
    {
        slot.push(block.region[canary_start + j]);
        j = j + 1;
    }
    let ok = memeq(slot.as_slice(), state.canary.as_slice(), CANARY_SIZE);
    proof {
        assert(slot@.subrange(0, CANARY_SIZE as int) =~= block.canary_slot());
        assert(state.canary@.subrange(0, CANARY_SIZE as int) =~= state.canary@);
    }
    ok
}

/// Switch the access mode of a block's payload region. The guard pages are
/// never touched: only the payload region's rights change.
pub fn mprotect(block: &mut GuardedBlock, prot: Prot) -> (r: bool)
    requires
        old(block).wf(),
    ensures
        final(block).wf(),
        final(block).layout == old(block).layout,
        final(block).region@ == old(block).region@,
        final(block).locked == old(block).locked,
        final(block).prot == prot,
        r,
{
    block.prot = prot;
    true
}

} // verus!
