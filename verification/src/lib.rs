//! The lowest layer of a memory-allocator runtime for freestanding
//! environments: a page-acquisition indirection that delegates requests for
//! backing memory to a host-registered callback, and a lock-protected cell
//! that serializes mutable access to the allocator's internal state.

mod cell;
mod source;

pub use cell::ExclusiveCell;
pub use source::AllocError;
pub use source::PageSource;
pub use source::lemma_exhausted_source;
pub use source::lemma_fixed_address_source;
pub use source::outcome_of;
