//! The modifier that yields the object behind a request.

use crate::pipeline::Context;
use crate::pipeline::ContextView;
use crate::pipeline::Modifier;
use crate::pipeline::StageView;
use crate::value::SourceView;
use crate::value::Value;
use crate::value::ValueView;
use vstd::prelude::*;

verus! {

#[derive(Debug, Copy, Clone)]
pub struct GetIdentityModifier {}

impl GetIdentityModifier {
    pub fn new() -> Self {
        GetIdentityModifier {  }
    }
}

impl Modifier for GetIdentityModifier {
    /// The value becomes the object that stands behind the request, `Null`
    /// where none does.
    open spec fn effect(&self, ctx: ContextView) -> StageView {
        match ctx.env.source {
            SourceView::Identity(o) => StageView::Value(ValueView::Object(*o)),
            _ => StageView::Value(ValueView::Null),
        }
    }

    fn name(&self) -> (r: &'static str)
        ensures
            r@ == "getIdentity"@,
    {
        "getIdentity"
    }

    fn call<'a>(&self, ctx: Context<'a>) -> (r: Context<'a>) {
        match ctx.env.source.as_identity() {
            Some(o) => ctx.alter_value(Value::Object(o.duplicate())),
            None => ctx.alter_value(Value::Null),
        }
    }
}

} // verus!
