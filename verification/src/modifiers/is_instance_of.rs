//! The test whether a value is an object of a given model.

use crate::pipeline::Context;
use crate::pipeline::ContextView;
use crate::pipeline::Modifier;
use crate::pipeline::Stage;
use crate::pipeline::StageView;
use crate::text::same_text;
use crate::value::Value;
use crate::value::ValueView;
use vstd::prelude::*;

verus! {

#[derive(Debug, Copy, Clone)]
pub struct IsInstanceOfModifier {
    pub model_name: &'static str,
}

/// Whether the value is an object of the model.
pub open spec fn is_instance(v: ValueView, model_name: Seq<char>) -> bool {
    v matches ValueView::Object(o) && o.model == model_name
}

impl IsInstanceOfModifier {
    pub fn new(model_name: &'static str) -> (m: Self)
        ensures
            m.model_name == model_name,
    {
        IsInstanceOfModifier { model_name }
    }

    /// Whether the value is an object of this modifier's model.
    pub fn accepts(&self, value: &Value) -> (r: bool)
        ensures
            r == is_instance(value@, self.model_name@),
    {
        match value {
            Value::Object(o) => same_text(o.model.as_str(), self.model_name),
            _ => false,
        }
    }
}

impl Modifier for IsInstanceOfModifier {
    /// The value stays; the stage says whether it is an object of the model.
    /// An invalid stage stays as it is.
    open spec fn effect(&self, ctx: ContextView) -> StageView {
        match ctx.stage.value() {
            Some(v) => if is_instance(v, self.model_name@) {
                StageView::ConditionTrue(v)
            } else {
                StageView::ConditionFalse(v)
            },
            None => ctx.stage,
        }
    }

    fn name(&self) -> (r: &'static str)
        ensures
            r@ == "is_instance_of"@,
    {
        "is_instance_of"
    }

    fn call<'a>(&self, ctx: Context<'a>) -> (r: Context<'a>) {
        let Context { object, key_path, stage, env } = ctx;
        let stage = match stage {
            Stage::Value(v) | Stage::ConditionTrue(v) | Stage::ConditionFalse(v) => {
                if self.accepts(&v) {
                    Stage::ConditionTrue(v)
                } else {
                    Stage::ConditionFalse(v)
                }
            },
            Stage::Invalid(reason) => Stage::Invalid(reason),
        };
        Context { object, key_path, stage, env }
    }
}

} // verus!
