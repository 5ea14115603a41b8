//! A byte-granular heap-allocator core: region claiming and extension,
//! usage accounting, and the decision logic around an external
//! allocation engine's claim/extend/allocate/free capabilities.
//!
//! The engine itself (the free-space bookkeeping) is a collaborator that
//! the embedding system supplies; this crate tracks the claimed region,
//! computes the spans to hand the engine, and keeps the byte counters,
//! all under verified contracts.

pub mod error;
pub mod laws;
pub mod span;
pub mod state;

pub use error::AllocError;
pub use span::MemorySpan;
pub use span::SpanModel;
pub use state::AllocatorModel;
pub use state::GrowRequest;
pub use state::YourNewAllocator;
