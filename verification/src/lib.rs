use vstd::prelude::*;

pub mod clock;
pub mod float_bits;
pub mod laws;
pub mod login;
pub mod model;
pub mod range;
pub mod ranking;
pub mod remote;
pub mod store;
pub mod text;
pub mod tray;

verus! {
} // verus!
