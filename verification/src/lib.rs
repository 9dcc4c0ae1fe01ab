//! An adapter between the language runtime's allocator contract and a
//! malloc-family engine's primitive entry points.
//!
//! The runtime demands zero-sized allocations, arbitrary power-of-two
//! alignment and symmetric size bookkeeping; the engine guarantees only a
//! default alignment and insists that its sized-free fast path receive the
//! exact size it considers "usable" for a block. This crate holds the
//! stateless decision logic that reconciles the two: each runtime operation is
//! turned into an explicit plan of engine calls, and every plan is verified to
//! route, size and sentinel-handle exactly as the adapter contract requires.
//! An embedder executes the plans against the real engine.

pub mod adapter;
pub mod laws;
pub mod plan;

pub use adapter::TcMalloc;
pub use plan::needs_custom_alignment;
pub use plan::zero_sized_dangling_ptr;
pub use plan::AllocPlan;
pub use plan::DeallocPlan;
pub use plan::EngineAllocCall;
pub use plan::FreeCall;
pub use plan::ReallocMoveOutcome;
pub use plan::ReallocPlan;
pub use plan::TCMALLOC_DEFAULT_ALIGN;
