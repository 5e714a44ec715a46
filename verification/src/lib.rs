//! Event-object state model: lifecycle flags, scalar event state, and the
//! shadow-boundary-aware composed-path computation over a dispatch path.
//!
//! The dispatch algorithm that builds the path, listener storage, and the
//! target tree itself are external collaborators: this crate consumes a path
//! and a current target, and exposes read/mutate operations on event state.
pub mod event;
