//! Tagged pointer words: an address and a one-bit mark packed into one
//! machine word, an atomic slot holding such a word, and reference-counted
//! cells whose handles are tagged words.
pub mod markable_ptr;
pub mod shared;
pub mod tagged;

pub use markable_ptr::AtomicMarkablePtr;
pub use shared::{ArcHeap, AtomicMarkableArc, PtrErrors, ReferenceCounter};
pub use tagged::{pack, unpack};
