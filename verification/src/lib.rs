//! A growable, contiguous, heap-backed sequence container with value
//! semantics: a dynamically resizable array that owns its storage, offers
//! indexed access, and supports amortized-constant-time append.
//!
//! The crate is layered the way the invariants are layered:
//!
//! - [`storage`] owns a block of element slots and knows how to grow it; it
//!   has no notion of which slots are occupied. A slot is modeled as an
//!   `Option`: `Some` for an initialized element, `None` for a slot whose
//!   contents must never be read, dropped, or exposed.
//! - [`vec`] pairs a storage block with a length and maintains the central
//!   invariant that exactly the slots below the length are initialized.
//! - [`traverse`] holds the consumption protocols: a bidirectional cursor,
//!   the owning consuming iterator, and the draining extractor that empties a
//!   sequence while leaving its allocation ready for reuse.
//! - [`laws`] states and proves the algebraic properties that tie the
//!   operations together.

pub mod laws;
pub mod storage;
pub mod traverse;
pub mod vec;

pub use storage::RawVec;
pub use traverse::Drain;
pub use traverse::IntoIter;
pub use vec::Vec;
