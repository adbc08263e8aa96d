//! Where the default of a field comes from.

use crate::pipeline::Pipeline;
use crate::value::Object;
use crate::value::ObjectView;
use crate::value::Value;
use crate::value::ValueView;
use vstd::prelude::*;

verus! {

/// A function of the library's user that provides a value for an object.
pub trait FnArgument {
    /// The value that a call provides for an object. A function that says
    /// nothing of it leaves it open.
    open spec fn provided(&self, object: ObjectView) -> ValueView {
        arbitrary()
    }

    fn call(&self, object: &Object) -> (v: Value)
        ensures
            v@ == self.provided(object@),
    ;
}

/// One of the three ways to provide a value: a literal, a pipeline to run, or
/// a function to call.
pub enum Argument {
    ValueArgument(Value),
    PipelineArgument(Pipeline),
    FunctionArgument(Box<dyn FnArgument>),
}

} // verus!
