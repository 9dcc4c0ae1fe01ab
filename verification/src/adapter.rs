//! The stateless allocator adapter: each runtime operation becomes a plan of
//! engine calls with a verified routing contract.

use vstd::prelude::*;

verus! {

use crate::plan::needs_custom_alignment;
use crate::plan::spec_dangling_addr;
use crate::plan::zero_sized_dangling_ptr;
use crate::plan::AllocPlan;
use crate::plan::DeallocPlan;
use crate::plan::EngineAllocCall;
use crate::plan::FreeCall;
use crate::plan::ReallocMoveOutcome;
use crate::plan::ReallocPlan;
use crate::plan::TCMALLOC_DEFAULT_ALIGN;

/// The adapter. It owns no state: every operation turns the runtime's
/// request into a plan of engine calls and nothing else.
pub struct TcMalloc;

/// The plan for `allocate(size, align)`: the sentinel for a zero-size
/// request, the aligned-allocate primitive for an over-default alignment,
/// and plain allocate-by-size otherwise.
pub open spec fn spec_alloc_plan(size: usize, align: usize) -> AllocPlan {
    if size == 0 {
        AllocPlan::Sentinel { addr: spec_dangling_addr(align) }
    } else if align > TCMALLOC_DEFAULT_ALIGN {
        AllocPlan::Engine {
            call: EngineAllocCall::Memalign { align, size },
            zero_fill_len: 0,
        }
    } else {
        AllocPlan::Engine { call: EngineAllocCall::Malloc { size }, zero_fill_len: 0 }
    }
}

/// The plan for `allocate_zeroed(size, align)`: as `spec_alloc_plan`, except
/// that the default-alignment path uses the engine's zero-and-allocate
/// primitive and the over-alignment path adds an explicit zero-fill pass of
/// `size` bytes, since the aligned primitive has no zero-fill variant.
pub open spec fn spec_alloc_zeroed_plan(size: usize, align: usize) -> AllocPlan {
    if size == 0 {
        AllocPlan::Sentinel { addr: spec_dangling_addr(align) }
    } else if align > TCMALLOC_DEFAULT_ALIGN {
        AllocPlan::Engine {
            call: EngineAllocCall::Memalign { align, size },
            zero_fill_len: size,
        }
    } else {
        AllocPlan::Engine {
            call: EngineAllocCall::Calloc { count: 1, size },
            zero_fill_len: 0,
        }
    }
}

/// The plan for `deallocate(addr, size, align)`: no engine call for the
/// zero-size sentinel, otherwise a usable-size query followed by a sized
/// free with the queried size.
pub open spec fn spec_dealloc_plan(addr: usize, size: usize, align: usize) -> DeallocPlan {
    if size == 0 {
        DeallocPlan::NoEngineCall
    } else {
        DeallocPlan::QueryUsableThenFreeSized { addr }
    }
}

/// The sized-free call made for a block whose queried usable size is
/// `usable_size`: always the queried size, never the size the caller
/// originally requested.
pub open spec fn spec_free_call(addr: usize, requested_size: usize, usable_size: usize) -> FreeCall {
    FreeCall::FreeSized { addr, size: usable_size }
}

/// The plan for `resize(addr, old_size, align, new_size)`, a decision over
/// three size/alignment regimes: a fresh allocation when the old handle was
/// the zero-size sentinel, a free followed by the sentinel when the new size
/// is zero, an allocate-copy-free move under over-default alignment, and the
/// engine's resize primitive otherwise.
pub open spec fn spec_realloc_plan(
    addr: usize,
    old_size: usize,
    align: usize,
    new_size: usize,
) -> ReallocPlan {
    if old_size == 0 {
        ReallocPlan::FreshAlloc { plan: spec_alloc_plan(new_size, align) }
    } else if new_size == 0 {
        ReallocPlan::FreeThenSentinel {
            free: spec_dealloc_plan(addr, old_size, align),
            sentinel_addr: spec_dangling_addr(align),
        }
    } else if align > TCMALLOC_DEFAULT_ALIGN {
        ReallocPlan::AllocCopyFree {
            fresh: spec_alloc_plan(new_size, align),
            copy_len: if old_size <= new_size {
                old_size
            } else {
                new_size
            },
        }
    } else {
        ReallocPlan::EngineRealloc { addr, new_size }
    }
}

impl TcMalloc {
    /// Plan an `allocate(size, align)` request.
    pub fn alloc_plan(&self, size: usize, align: usize) -> (r: AllocPlan)
        ensures
            r == spec_alloc_plan(size, align),
            size == 0 ==> r == (AllocPlan::Sentinel { addr: spec_dangling_addr(align) }),
            size > 0 && align > TCMALLOC_DEFAULT_ALIGN ==> r == (AllocPlan::Engine {
                call: EngineAllocCall::Memalign { align, size },
                zero_fill_len: 0,
            }),
            size > 0 && align <= TCMALLOC_DEFAULT_ALIGN ==> r == (AllocPlan::Engine {
                call: EngineAllocCall::Malloc { size },
                zero_fill_len: 0,
            }),
    {
        if size == 0 {
            AllocPlan::Sentinel { addr: zero_sized_dangling_ptr(align) }
        } else if needs_custom_alignment(align, size) {
            AllocPlan::Engine {
                call: EngineAllocCall::Memalign { align, size },
                zero_fill_len: 0,
            }
        } else {
            AllocPlan::Engine { call: EngineAllocCall::Malloc { size }, zero_fill_len: 0 }
        }
    }

    /// Plan an `allocate_zeroed(size, align)` request.
    pub fn alloc_zeroed_plan(&self, size: usize, align: usize) -> (r: AllocPlan)
        ensures
            r == spec_alloc_zeroed_plan(size, align),
            size == 0 ==> r == (AllocPlan::Sentinel { addr: spec_dangling_addr(align) }),
            size > 0 && align > TCMALLOC_DEFAULT_ALIGN ==> r == (AllocPlan::Engine {
                call: EngineAllocCall::Memalign { align, size },
                zero_fill_len: size,
            }),
            size > 0 && align <= TCMALLOC_DEFAULT_ALIGN ==> r == (AllocPlan::Engine {
                call: EngineAllocCall::Calloc { count: 1, size },
                zero_fill_len: 0,
            }),
    {
        if size == 0 {
            AllocPlan::Sentinel { addr: zero_sized_dangling_ptr(align) }
        } else if needs_custom_alignment(align, size) {
            AllocPlan::Engine {
                call: EngineAllocCall::Memalign { align, size },
                zero_fill_len: size,
            }
        } else {
            AllocPlan::Engine {
                call: EngineAllocCall::Calloc { count: 1, size },
                zero_fill_len: 0,
            }
        }
    }

    /// Plan a `deallocate(addr, size, align)` request. A zero-size handle is
    /// the sentinel for its alignment and was never seen by the engine, so
    /// the plan makes no engine call for it; any other handle is freed
    /// through the usable-size query followed by a sized free.
    pub fn dealloc_plan(&self, addr: usize, size: usize, align: usize) -> (r: DeallocPlan)
        requires
            size == 0 ==> addr == spec_dangling_addr(align),
        ensures
            r == spec_dealloc_plan(addr, size, align),
            size == 0 ==> r == DeallocPlan::NoEngineCall,
            size > 0 ==> r == (DeallocPlan::QueryUsableThenFreeSized { addr }),
    {
        if size == 0 {
            DeallocPlan::NoEngineCall
        } else {
            DeallocPlan::QueryUsableThenFreeSized { addr }
        }
    }

    /// The sized-free call to make for `addr` once the engine has reported
    /// `usable_size` for it. The size handed to the sized-free primitive is
    /// always the queried usable size: passing the smaller
    /// `requested_size` could mismatch the engine's size class.
    pub fn free_call(&self, addr: usize, requested_size: usize, usable_size: usize) -> (r: FreeCall)
        ensures
            r == spec_free_call(addr, requested_size, usable_size),
            r == (FreeCall::FreeSized { addr, size: usable_size }),
    {
        FreeCall::FreeSized { addr, size: usable_size }
    }

    /// Plan a `resize(addr, old_size, align, new_size)` request.
    pub fn realloc_plan(
        &self,
        addr: usize,
        old_size: usize,
        align: usize,
        new_size: usize,
    ) -> (r: ReallocPlan)
        requires
            old_size == 0 ==> addr == spec_dangling_addr(align),
        ensures
            r == spec_realloc_plan(addr, old_size, align, new_size),
            old_size == 0 ==> r == (ReallocPlan::FreshAlloc {
                plan: spec_alloc_plan(new_size, align),
            }),
            old_size > 0 && new_size == 0 ==> r == (ReallocPlan::FreeThenSentinel {
                free: spec_dealloc_plan(addr, old_size, align),
                sentinel_addr: spec_dangling_addr(align),
            }),
            old_size > 0 && new_size > 0 && align > TCMALLOC_DEFAULT_ALIGN ==> r
                == (ReallocPlan::AllocCopyFree {
                fresh: spec_alloc_plan(new_size, align),
                copy_len: if old_size <= new_size {
                    old_size
                } else {
                    new_size
                },
            }),
            old_size > 0 && new_size > 0 && align <= TCMALLOC_DEFAULT_ALIGN ==> r
                == (ReallocPlan::EngineRealloc { addr, new_size }),
    {
        if old_size == 0 {
            ReallocPlan::FreshAlloc { plan: self.alloc_plan(new_size, align) }
        } else if new_size == 0 {
            ReallocPlan::FreeThenSentinel {
                free: self.dealloc_plan(addr, old_size, align),
                sentinel_addr: zero_sized_dangling_ptr(align),
            }
        } else if align > TCMALLOC_DEFAULT_ALIGN {
            let copy_len: usize = if old_size <= new_size {
                old_size
            } else {
                new_size
            };
            ReallocPlan::AllocCopyFree { fresh: self.alloc_plan(new_size, align), copy_len }
        } else {
            ReallocPlan::EngineRealloc { addr, new_size }
        }
    }

    /// Decide how an alloc-copy-free resize ends once the fresh allocation
    /// has returned: `fresh_addr` is `None` when the engine reported
    /// out-of-memory. On failure the old block is left valid and untouched
    /// and null is propagated; on success the first `min(old_size, new_size)`
    /// bytes are copied and the old block goes through the full deallocate
    /// path, usable-size query included.
    pub fn realloc_move_outcome(
        &self,
        addr: usize,
        old_size: usize,
        align: usize,
        new_size: usize,
        fresh_addr: Option<usize>,
    ) -> (r: ReallocMoveOutcome)
        requires
            old_size > 0,
        ensures
            fresh_addr is None ==> r == ReallocMoveOutcome::Fail,
            fresh_addr matches Some(a) ==> r == (ReallocMoveOutcome::Commit {
                new_addr: a,
                copy_len: if old_size <= new_size {
                    old_size
                } else {
                    new_size
                },
                free_old: spec_dealloc_plan(addr, old_size, align),
            }),
    {
        match fresh_addr {
            None => ReallocMoveOutcome::Fail,
            Some(a) => {
                let copy_len: usize = if old_size <= new_size {
                    old_size
                } else {
                    new_size
                };
                ReallocMoveOutcome::Commit {
                    new_addr: a,
                    copy_len,
                    free_old: self.dealloc_plan(addr, old_size, align),
                }
            },
        }
    }
}

} // verus!
