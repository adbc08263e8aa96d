//! The decorators of the schema language that act on a field.

use crate::argument::Argument;
use crate::field::ObjectAssignment;
use crate::field_builder::FieldBuilder;
use vstd::prelude::*;

verus! {

/// `@copy`: an object assigned to the field is copied, not shared. The
/// decorator takes no arguments and does not read those it gets.
pub fn copy_decorator(_args: Vec<Argument>, field: &mut FieldBuilder)
    ensures
        *final(field) == (FieldBuilder {
            object_assignment: ObjectAssignment::Copy,
            ..*old(field)
        }),
{
    field.copy();
}

} // verus!
