//! An owning, type-erased handle stored as one machine word plus a dispatch
//! descriptor.
//!
//! A [`DynPtr`] keeps a value of some word-sized handle kind behind an
//! interface ([`Pointee`]) without remembering the kind: it holds the kind's
//! bits as a [`PtrRepr`] and the interface's metadata next to it, and
//! reassembles the value from the two on every access.

pub mod handle;
pub mod impls;
pub mod kinds;
pub mod pointee;
pub mod repr;

pub use handle::{Dyn, DynPtr};
pub use impls::{DoubleEndedSequence, ExactSizeSequence, Poll, Resumable, Sequence};

pub use kinds::{Delay, Span, Thin};
pub use pointee::{faith_metadata, PointerLike, Pointee, Unsize};
pub use repr::{same_ptr, same_ptr_spec, PtrRepr};
