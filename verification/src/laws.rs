//! The adapter's cross-operation guarantees, each stated and proved over the
//! plan specifications that the operations' own contracts use.

use vstd::prelude::*;

verus! {

use crate::adapter::spec_alloc_plan;
use crate::adapter::spec_alloc_zeroed_plan;
use crate::adapter::spec_dealloc_plan;
use crate::adapter::spec_free_call;
use crate::adapter::spec_realloc_plan;
use crate::plan::is_power_of_two;
use crate::plan::spec_dangling_addr;
use crate::plan::AllocPlan;
use crate::plan::DeallocPlan;
use crate::plan::EngineAllocCall;
use crate::plan::FreeCall;
use crate::plan::ReallocPlan;
use crate::plan::TCMALLOC_DEFAULT_ALIGN;

/// For every power-of-two alignment, a zero-size allocation makes no engine
/// call and returns the sentinel: a non-null address satisfying the
/// alignment; and deallocating that sentinel with size zero makes no engine
/// call either.
pub proof fn lemma_zero_size_alloc_round_trip(align: usize)
    requires
        is_power_of_two(align as int),
    ensures
        spec_alloc_plan(0, align) == (AllocPlan::Sentinel { addr: spec_dangling_addr(align) }),
        spec_dangling_addr(align) != 0,
        spec_dangling_addr(align) % align == 0,
        spec_dealloc_plan(spec_dangling_addr(align), 0, align) == DeallocPlan::NoEngineCall,
{
    assert(align >= 1);
    assert(spec_dangling_addr(align) == align);
    assert(align % align == 0) by (nonlinear_arith)
        requires
            align >= 1,
    ;
}

/// Every allocation with an over-default alignment is routed to the engine's
/// aligned-allocate primitive, carrying exactly the caller's alignment and
/// size; the plain allocate-by-size primitive, which guarantees only the
/// default alignment, is never used for it.
pub proof fn lemma_over_aligned_alloc_routes_to_memalign(size: usize, align: usize)
    requires
        size > 0,
        align > TCMALLOC_DEFAULT_ALIGN,
    ensures
        spec_alloc_plan(size, align) == (AllocPlan::Engine {
            call: EngineAllocCall::Memalign { align, size },
            zero_fill_len: 0,
        }),
        spec_alloc_zeroed_plan(size, align) == (AllocPlan::Engine {
            call: EngineAllocCall::Memalign { align, size },
            zero_fill_len: size,
        }),
{
}

/// Deallocating any nonzero-size block first queries the engine for the
/// block's usable size and then frees with exactly the queried size: the
/// size the caller originally requested never reaches the sized-free
/// primitive, so the free succeeds even when size-class rounding made the
/// usable size strictly greater than the requested one.
pub proof fn lemma_dealloc_frees_with_queried_size(
    addr: usize,
    requested_a: usize,
    requested_b: usize,
    usable: usize,
    align: usize,
)
    requires
        requested_a > 0,
    ensures
        spec_dealloc_plan(addr, requested_a, align) == (DeallocPlan::QueryUsableThenFreeSized {
            addr,
        }),
        spec_free_call(addr, requested_a, usable) == (FreeCall::FreeSized { addr, size: usable }),
        spec_free_call(addr, requested_a, usable) == spec_free_call(addr, requested_b, usable),
{
}

/// Resizing to a new size of zero behaves exactly as a deallocate followed
/// by a zero-size allocate for the same alignment: the old block is freed as
/// `deallocate` would free it, and the address handed back is the sentinel
/// that a zero-size allocate returns.
pub proof fn lemma_resize_to_zero_matches_dealloc_then_zero_alloc(
    addr: usize,
    old_size: usize,
    align: usize,
)
    ensures
        old_size > 0 ==> spec_realloc_plan(addr, old_size, align, 0) == (ReallocPlan::FreeThenSentinel {
            free: spec_dealloc_plan(addr, old_size, align),
            sentinel_addr: spec_dangling_addr(align),
        }),
        old_size == 0 ==> spec_realloc_plan(addr, old_size, align, 0) == (ReallocPlan::FreshAlloc {
            plan: AllocPlan::Sentinel { addr: spec_dangling_addr(align) },
        }),
        old_size == 0 ==> spec_dealloc_plan(spec_dangling_addr(align), 0, align)
            == DeallocPlan::NoEngineCall,
        spec_alloc_plan(0, align) == (AllocPlan::Sentinel { addr: spec_dangling_addr(align) }),
{
}

/// Resizing a handle whose old size is zero, that is the zero-size sentinel,
/// behaves exactly as a fresh allocate of the new size at the same
/// alignment.
pub proof fn lemma_resize_from_zero_is_fresh_alloc(addr: usize, align: usize, new_size: usize)
    ensures
        spec_realloc_plan(addr, 0, align, new_size) == (ReallocPlan::FreshAlloc {
            plan: spec_alloc_plan(new_size, align),
        }),
{
}

/// Resizing under an over-default alignment never uses the engine's resize
/// primitive, which promises only the default alignment. Instead the plan
/// allocates a fresh block through the aligned-allocate primitive, carrying
/// exactly the caller's alignment, and copies the first
/// `min(old_size, new_size)` bytes, so the overlapping prefix is preserved.
pub proof fn lemma_over_aligned_resize(
    addr: usize,
    old_size: usize,
    align: usize,
    new_size: usize,
)
    requires
        old_size > 0,
        new_size > 0,
        align > TCMALLOC_DEFAULT_ALIGN,
    ensures
        spec_realloc_plan(addr, old_size, align, new_size) == (ReallocPlan::AllocCopyFree {
            fresh: AllocPlan::Engine {
                call: EngineAllocCall::Memalign { align, size: new_size },
                zero_fill_len: 0,
            },
            copy_len: if old_size <= new_size {
                old_size
            } else {
                new_size
            },
        }),
{
}

/// Whichever path a zeroed allocation of a nonzero size takes, the block it
/// asks the engine for is zero-filled over the full requested size: the
/// default-alignment path delegates to the zero-and-allocate primitive for
/// exactly `size` bytes, and the over-alignment path adds an explicit
/// zero-fill pass of exactly `size` bytes.
pub proof fn lemma_alloc_zeroed_covers_request(size: usize, align: usize)
    requires
        size > 0,
    ensures
        spec_alloc_zeroed_plan(size, align) matches AllocPlan::Engine { call, zero_fill_len }
            && (call matches EngineAllocCall::Calloc { count, size: unit } && count * unit == size
            || zero_fill_len == size),
{
}

} // verus!
