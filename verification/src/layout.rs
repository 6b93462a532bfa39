//! Guard layout arithmetic: page rounding and the page-aligned layout of a
//! guarded allocation (base page, two guard pages, page-rounded payload
//! region holding the canary and the user payload).

use vstd::prelude::*;
use vstd::arithmetic::div_mod::{
    lemma_fundamental_div_mod, lemma_mod_bound, lemma_mod_multiples_basic,
    lemma_mod_multiples_vanish,
};
use crate::CANARY_SIZE;

verus! {

/// The least multiple of `ps` that is at least `x`.
pub open spec fn round_up_spec(x: int, ps: int) -> int {
    if x % ps == 0 {
        x
    } else {
        x + (ps - x % ps)
    }
}

/// `x` rounded down to a multiple of `ps`.
pub open spec fn round_down_spec(x: int, ps: int) -> int {
    x - x % ps
}

/// Page sizes the layout arithmetic supports: at least as large as the
/// canary, and small enough that four pages and the surrounding size
/// arithmetic stay representable in `usize`.
pub open spec fn valid_page_size(ps: int) -> bool {
    CANARY_SIZE <= ps && 4 * ps <= usize::MAX
}

pub proof fn lemma_round_up_bounds(x: int, ps: int)
    requires
        0 <= x,
        1 <= ps,
    ensures
        x <= round_up_spec(x, ps) <= x + ps - 1,
        round_up_spec(x, ps) % ps == 0,
{
    lemma_mod_bound(x, ps);
    lemma_fundamental_div_mod(x, ps);
    if x % ps != 0 {
        assert(x + (ps - x % ps) == ps * (x / ps + 1)) by {
            assert(x == ps * (x / ps) + x % ps);
            assert(ps * (x / ps) + ps == ps * (x / ps + 1)) by (nonlinear_arith);
        }
        lemma_mod_multiples_basic(x / ps + 1, ps);
    }
}

pub proof fn lemma_round_down_bounds(x: int, ps: int)
    requires
        0 <= x,
        1 <= ps,
    ensures
        x - ps < round_down_spec(x, ps) <= x,
        round_down_spec(x, ps) % ps == 0,
{
    lemma_mod_bound(x, ps);
    lemma_fundamental_div_mod(x, ps);
    assert(round_down_spec(x, ps) == (x / ps) * ps);
    lemma_mod_multiples_basic(x / ps, ps);
    assert(((x / ps) * ps) % ps == 0);
}

/// Rounding an aligned address plus a sub-page offset back down lands on the
/// aligned address itself: the heart of user-pointer recovery.
pub proof fn lemma_round_down_of_aligned_plus(a: int, b: int, ps: int)
    requires
        1 <= ps,
        0 <= a,
        a % ps == 0,
        0 <= b < ps,
    ensures
        round_down_spec(a + b, ps) == a,
{
    lemma_fundamental_div_mod(a, ps);
    assert(a == ps * (a / ps));
    lemma_mod_multiples_vanish(a / ps, b, ps);
    assert((a + b) % ps == b % ps);
    assert(b % ps == b) by {
        lemma_mod_bound(b, ps);
        lemma_fundamental_div_mod(b, ps);
        assert(b / ps == 0) by (nonlinear_arith)
            requires 0 <= b < ps;
    }
}

/// Round `size` up to the next multiple of `page_size`.
pub fn page_round(size: usize, page_size: usize) -> (r: usize)
    requires
        1 <= page_size,
        size + page_size - 1 <= usize::MAX,
    ensures
        r as int == round_up_spec(size as int, page_size as int),
        size <= r,
{
    proof {
        lemma_round_up_bounds(size as int, page_size as int);
    }
    let rem = size % page_size;
    if rem == 0 {
        size
    } else {
        size + (page_size - rem)
    }
}

/// The page-aligned memory layout of one guarded allocation.
///
/// The region of `total_size` bytes decomposes, in address order, into the
/// base page (holding the stored region size), the leading guard page, the
/// `unprotected_size`-byte payload region (trailing slack, then canary, then
/// the `requested` user bytes flush against the end), and the trailing guard
/// page.
pub struct Layout {
    pub page_size: usize,
    pub requested: usize,
    pub unprotected_size: usize,
    pub total_size: usize,
}

impl Layout {
    pub open spec fn wf(self) -> bool {
        &&& valid_page_size(self.page_size as int)
        &&& self.unprotected_size as int == round_up_spec(
            CANARY_SIZE + self.requested,
            self.page_size as int,
        )
        &&& CANARY_SIZE + self.requested <= self.unprotected_size
        &&& self.total_size == 3 * self.page_size + self.unprotected_size
    }
}

/// The size validation of `malloc`: a request is laid out only when it is
/// more than four pages under the top of the size domain and the resulting
/// total still fits in `usize`.
pub open spec fn malloc_size_ok(ps: int, size: int) -> bool {
    &&& size < usize::MAX - 4 * ps
    &&& 3 * ps + round_up_spec(CANARY_SIZE + size, ps) <= usize::MAX
}

/// Compute the guarded layout for a `size`-byte payload, rejecting sizes for
/// which the arithmetic would leave the `usize` domain.
pub fn compute_layout(page_size: usize, size: usize) -> (r: Option<Layout>)
    requires
        valid_page_size(page_size as int),
    ensures
        r is Some <==> malloc_size_ok(page_size as int, size as int),
        r is Some ==> r.unwrap().wf() && r.unwrap().page_size == page_size
            && r.unwrap().requested == size,
{
    if size >= usize::MAX - 4 * page_size {
        return None;
    }
    let size_with_canary = CANARY_SIZE + size;
    proof {
        lemma_round_up_bounds(size_with_canary as int, page_size as int);
    }
    let unprotected_size = page_round(size_with_canary, page_size);
    if unprotected_size > usize::MAX - 3 * page_size {
        return None;
    }
    Some(Layout {
        page_size,
        requested: size,
        unprotected_size,
        total_size: 3 * page_size + unprotected_size,
    })
}

/// Every payload size at least `4 * page_size + CANARY_SIZE - 1` under the
/// top of the size domain passes the size validation.
pub proof fn lemma_malloc_size_ok(ps: int, size: int)
    requires
        valid_page_size(ps),
        0 <= size,
        size + 4 * ps + CANARY_SIZE - 1 <= usize::MAX,
    ensures
        malloc_size_ok(ps, size),
{
    lemma_round_up_bounds(CANARY_SIZE + size, ps);
}

} // verus!
