//! Two small runtime primitives with verified access disciplines:
//!
//! * [`cell::RefCell`] — a single-owner container whose payload is reached
//!   only through guards, with the shared-vs-exclusive aliasing rules
//!   enforced at run time by a tri-state borrow counter.
//! * [`keyed::vec::KVec`] — a growable sequence addressed by a strongly
//!   typed, range-bounded identity instead of a raw integer, so that
//!   positions of logically distinct collections cannot be confused.

pub mod borrow;
pub mod cell;
pub mod keyed;
