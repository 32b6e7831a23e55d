//! Control-side core of a multi-band parametric equalizer: the lock-free
//! flag that marks a parameter as changed, the filter shapes and orders of a
//! band with their decoding from host codes, and the flat, indexable list of
//! band parameters that a host automates.
use vstd::prelude::*;

pub mod atomic_bool;
pub mod eq_effect_parameters;
pub mod parameter_list;

verus! {

} // verus!
