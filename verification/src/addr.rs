//! Address arithmetic for guarded blocks: placing the regions of a fresh
//! allocation, and recovering them again from the user-facing address alone.
//! All pointer recovery lives here, at one chokepoint, so its preconditions
//! are enforced in a single place.

use vstd::prelude::*;
use vstd::arithmetic::div_mod::{lemma_mod_multiples_vanish, lemma_small_mod};
use crate::CANARY_SIZE;
use crate::layout::{
    lemma_round_down_of_aligned_plus, lemma_round_up_bounds, round_down_spec, round_up_spec,
    valid_page_size, Layout,
};
use crate::state::AllocState;

verus! {

/// The addresses of one guarded block, in ascending order: the base page,
/// the leading guard page, the payload region (whose last bytes are the
/// canary followed by the user payload), and the trailing guard page.
pub struct BlockAddrs {
    pub base: usize,
    pub leading_guard: usize,
    pub unprotected: usize,
    pub trailing_guard: usize,
    pub canary_addr: usize,
    pub user_addr: usize,
}

/// A user address always steps back to the payload region it came from:
/// subtracting the canary size and rounding down to a page boundary lands on
/// the region start, which in turn sits safely above the two-page floor.
pub proof fn lemma_user_addr_recovers(ps: int, requested: int, unprotected_size: int, base: int)
    requires
        valid_page_size(ps),
        0 <= requested,
        unprotected_size == round_up_spec(CANARY_SIZE + requested, ps),
        base % ps == 0,
        ps <= base,
    ensures
        ({
            let unprotected = base + 2 * ps;
            let canary_addr = unprotected + unprotected_size - (CANARY_SIZE + requested);
            let user_addr = canary_addr + CANARY_SIZE;
            round_down_spec(user_addr - CANARY_SIZE, ps) == unprotected && unprotected > 2 * ps
        }),
{
    let unprotected = base + 2 * ps;
    let slack = unprotected_size - (CANARY_SIZE + requested);
    lemma_round_up_bounds(CANARY_SIZE + requested, ps);
    assert(0 <= slack < ps);
    assert(unprotected % ps == 0) by {
        lemma_mod_multiples_vanish(2, base, ps);
        assert(ps * 2 + base == unprotected);
    }
    lemma_round_down_of_aligned_plus(unprotected, slack, ps);
}

/// Lay out the regions of a fresh allocation whose page-aligned base the
/// platform returned. The resulting user address is recoverable: stepping
/// back over the canary and masking to the page boundary yields the payload
/// region start again.
pub fn plan_block(state: &AllocState, layout: &Layout, base: usize) -> (r: BlockAddrs)
    requires
        state.wf(),
        layout.wf(),
        layout.page_size == state.page_size,
        base != 0,
        base as int % state.page_size as int == 0,
        base + layout.total_size - 1 <= usize::MAX,
    ensures
        r.base == base,
        r.leading_guard == base + state.page_size,
        r.unprotected == base + 2 * state.page_size,
        r.trailing_guard == r.unprotected + layout.unprotected_size,
        r.canary_addr == r.trailing_guard - (CANARY_SIZE + layout.requested),
        r.user_addr == r.canary_addr + CANARY_SIZE,
        r.unprotected > 2 * state.page_size,
        round_down_spec(r.user_addr - CANARY_SIZE, state.page_size as int) == r.unprotected,
{
    let ps = state.page_size;
    proof {
        if base < ps {
            lemma_small_mod(base as nat, ps as nat);
        }
        assert(ps <= base);
        lemma_user_addr_recovers(
            ps as int,
            layout.requested as int,
            layout.unprotected_size as int,
            base as int,
        );
    }
    let unprotected = base + 2 * ps;
    let trailing_guard = unprotected + layout.unprotected_size;
    let canary_addr = trailing_guard - (CANARY_SIZE + layout.requested);
    BlockAddrs {
        base,
        leading_guard: base + ps,
        unprotected,
        trailing_guard,
        canary_addr,
        user_addr: canary_addr + CANARY_SIZE,
    }
}

/// The regions of an existing block, re-derived from its user address and
/// the region size stored in its base page.
pub struct RecoveredBlock {
    pub base: usize,
    pub unprotected: usize,
    pub canary_addr: usize,
    pub unprotected_size: usize,
    pub total_size: usize,
}

/// Step a user address back to the start of its payload region. `None`
/// means the address cannot belong to any guarded block — it sits within
/// two pages of address zero — which release paths must treat as fatal.
pub fn recover_unprotected_addr(state: &AllocState, user_addr: usize) -> (r: Option<usize>)
    requires
        state.wf(),
    ensures
        r is Some <==> user_addr >= CANARY_SIZE
            && round_down_spec((user_addr - CANARY_SIZE) as int, state.page_size as int)
                > 2 * state.page_size,
        r is Some ==> r.unwrap() as int
            == round_down_spec((user_addr - CANARY_SIZE) as int, state.page_size as int),
{
    let ps = state.page_size;
    if user_addr < CANARY_SIZE {
        return None;
    }
    let canary_addr = user_addr - CANARY_SIZE;
    proof {
        vstd::arithmetic::div_mod::lemma_mod_bound(canary_addr as int, ps as int);
        if canary_addr < ps {
            lemma_small_mod(canary_addr as nat, ps as nat);
        }
    }
    let unprotected = canary_addr - canary_addr % ps;
    if unprotected <= 2 * ps {
        None
    } else {
        Some(unprotected)
    }
}

/// Recover every region of a block from its user address and the stored
/// payload-region size. `None` signals a non-conforming address or a stored
/// size the arithmetic cannot carry: both integrity violations, fatal to the
/// caller.
pub fn recover_block(state: &AllocState, user_addr: usize, unprotected_size: usize) -> (r:
    Option<RecoveredBlock>)
    requires
        state.wf(),
    ensures
        r is Some <==> user_addr >= CANARY_SIZE
            && round_down_spec((user_addr - CANARY_SIZE) as int, state.page_size as int)
                > 2 * state.page_size
            && 3 * state.page_size + unprotected_size <= usize::MAX,
        r is Some ==> ({
            let b = r.unwrap();
            &&& b.unprotected as int
                == round_down_spec((user_addr - CANARY_SIZE) as int, state.page_size as int)
            &&& b.base == b.unprotected - 2 * state.page_size
            &&& b.canary_addr == user_addr - CANARY_SIZE
            &&& b.unprotected_size == unprotected_size
            &&& b.total_size == 3 * state.page_size + unprotected_size
        }),
{
    let ps = state.page_size;
    let unprotected = match recover_unprotected_addr(state, user_addr) {
        Some(u) => u,
        None => { return None; },
    };
    if unprotected_size > usize::MAX - 3 * ps {
        return None;
    }
    Some(RecoveredBlock {
        base: unprotected - 2 * ps,
        unprotected,
        canary_addr: user_addr - CANARY_SIZE,
        unprotected_size,
        total_size: 3 * ps + unprotected_size,
    })
}

} // verus!
