//! Structural projections without macros.
//!
//! [`Sp`] is a composite of up to eight independently typed slots. It is
//! built slot by slot, in a fixed order, and hands out, for each slot, an
//! exclusive handle to that slot alone.
//!
//! The contracts are stated over [`Slots`], the record of the values that a
//! composite holds, and over the number of slots that have been assigned.

pub mod composite;
pub mod order;
pub mod slots;

pub use composite::Sp;
pub use slots::Slot;
pub use slots::Slots;
