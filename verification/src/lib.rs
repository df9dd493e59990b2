//! Core engine of an interactive terminal transit client: a shared result
//! store with versioned whole-value replacement, a debounced search engine,
//! a periodic poll engine, selection and input state for the render loop,
//! task lifecycle handles, and the pure layout / formatting computations.
//!
//! Network, terminal and async plumbing live outside this crate; the logic
//! here is sequential and fully specified.

pub mod debounce;
pub mod format;
pub mod input;
pub mod layout;
pub mod poll;
pub mod lifecycle;
pub mod model;
pub mod selection;
pub mod store;
pub mod view;

use vstd::prelude::*;

verus! {

} // verus!
