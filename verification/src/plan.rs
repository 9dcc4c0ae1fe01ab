//! Addresses, alignment decisions and the plan types.
//!
//! A handle is an opaque address, carried here as a `usize`. The engine's
//! calls are described by plain data: a plan says which primitives the
//! embedder must invoke and with which arguments, so that the adapter's
//! routing decisions can be verified without touching raw memory.

use vstd::prelude::*;

verus! {

/// The alignment the engine guarantees for its plain allocate-by-size and
/// resize primitives. Requests aligned more strictly than this must go
/// through the aligned-allocate primitive.
pub const TCMALLOC_DEFAULT_ALIGN: usize = 16;

/// A positive integer that is a power of two.
pub open spec fn is_power_of_two(n: int) -> bool
    decreases n,
{
    if n <= 0 {
        false
    } else if n == 1 {
        true
    } else {
        n % 2 == 0 && is_power_of_two(n / 2)
    }
}

/// The sentinel address standing for every zero-size allocation at a given
/// alignment: the numeric value of `max(align, 1)`.
pub open spec fn spec_dangling_addr(align: usize) -> usize {
    if align >= 1 {
        align
    } else {
        1
    }
}

/// Whether a request must be routed to the engine's aligned-allocate
/// primitive rather than its plain allocate-by-size primitive.
pub fn needs_custom_alignment(align: usize, _size: usize) -> (r: bool)
    ensures
        r == (align > TCMALLOC_DEFAULT_ALIGN),
{
    align > TCMALLOC_DEFAULT_ALIGN
}

/// The address handed out for a zero-sized allocation with the given
/// alignment. It is non-null, satisfies the alignment, and corresponds to no
/// engine block, so it must never be passed to an engine free.
pub fn zero_sized_dangling_ptr(align: usize) -> (r: usize)
    ensures
        r == spec_dangling_addr(align),
        r != 0,
        align > 0 ==> r % align == 0,
{
    if align >= 1 {
        align
    } else {
        1
    }
}

/// One call into an engine allocate-family primitive.
#[derive(Clone, Copy, Debug, PartialEq, Eq, Structural)]
pub enum EngineAllocCall {
    /// allocate-by-size: default alignment only.
    Malloc { size: usize },
    /// zero-and-allocate: `count * size` zero-filled bytes, default alignment.
    Calloc { count: usize, size: usize },
    /// aligned-allocate: arbitrary power-of-two alignment.
    Memalign { align: usize, size: usize },
}

/// How an allocate-family operation is carried out.
#[derive(Clone, Copy, Debug, PartialEq, Eq, Structural)]
pub enum AllocPlan {
    /// No engine call: hand out the sentinel address.
    Sentinel { addr: usize },
    /// Make the given engine call; on success zero-fill the first
    /// `zero_fill_len` bytes of the returned block (0 means no fill pass).
    Engine { call: EngineAllocCall, zero_fill_len: usize },
}

/// How a deallocate operation is carried out.
#[derive(Clone, Copy, Debug, PartialEq, Eq, Structural)]
pub enum DeallocPlan {
    /// The handle is the zero-size sentinel: the engine never saw it, so no
    /// engine call is made.
    NoEngineCall,
    /// Query the engine for the handle's usable size, then free through the
    /// sized-free primitive with that queried size.
    QueryUsableThenFreeSized { addr: usize },
}

/// The sized-free call the embedder makes after querying the usable size.
#[derive(Clone, Copy, Debug, PartialEq, Eq, Structural)]
pub enum FreeCall {
    FreeSized { addr: usize, size: usize },
}

/// How a resize operation is carried out.
#[derive(Clone, Copy, Debug, PartialEq, Eq, Structural)]
pub enum ReallocPlan {
    /// The old handle was the zero-size sentinel: resizing it is a fresh
    /// allocation.
    FreshAlloc { plan: AllocPlan },
    /// The new size is zero: free the old block as `free` says, then hand out
    /// the sentinel.
    FreeThenSentinel { free: DeallocPlan, sentinel_addr: usize },
    /// Over-default alignment: allocate a fresh block as `fresh` says, copy
    /// the first `copy_len` bytes, then free the old block; the old block is
    /// kept untouched if the fresh allocation fails.
    AllocCopyFree { fresh: AllocPlan, copy_len: usize },
    /// Default alignment, nonzero sizes: delegate to the engine's resize
    /// primitive, which may move the block.
    EngineRealloc { addr: usize, new_size: usize },
}

/// What the embedder does once the fresh allocation of an alloc-copy-free
/// resize has either produced a block or failed.
#[derive(Clone, Copy, Debug, PartialEq, Eq, Structural)]
pub enum ReallocMoveOutcome {
    /// The fresh allocation failed: return null and leave the old block
    /// valid and untouched.
    Fail,
    /// The fresh allocation succeeded: copy the first `copy_len` bytes from
    /// the old block to `new_addr`, free the old block as `free_old` says,
    /// and return `new_addr`.
    Commit { new_addr: usize, copy_len: usize, free_old: DeallocPlan },
}

} // verus!
