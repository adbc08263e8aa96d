//! The decoder: from the untyped body of a request to typed values, checked
//! against the model and the action.

use vstd::prelude::*;

pub mod folds;
pub mod laws;
pub mod query;
pub mod rules;
pub mod values;

verus! {

pub struct Decoder {}

} // verus!
