//! Pipelines: ordered chains of modifiers that transform, test and validate
//! the value of a field.

use crate::collections::get_entry;
use crate::collections::lookup;
use crate::modifiers::get_identity::GetIdentityModifier;
use crate::modifiers::is_instance_of::IsInstanceOfModifier;
use crate::path::path_items;
use crate::path::Segment;
use crate::text::pairs_view;
use crate::text::same_text;
use crate::value::items_view;
use crate::value::Env;
use crate::value::EnvView;
use crate::value::Object;
use crate::value::ObjectView;
use crate::value::Value;
use crate::value::ValueView;
use key_path::KeyPath;
use vstd::prelude::*;

verus! {

/// What a pipeline carries from one modifier to the next: the current value
/// and how the chain stands.
#[derive(Debug, PartialEq)]
pub enum Stage {
    Value(Value),
    /// The last test held of the value.
    ConditionTrue(Value),
    /// The last test did not hold of the value.
    ConditionFalse(Value),
    /// The value was refused, for the reason given.
    Invalid(String),
}

/// What a `Stage` is, for contracts.
pub ghost enum StageView {
    Value(ValueView),
    ConditionTrue(ValueView),
    ConditionFalse(ValueView),
    Invalid(Seq<char>),
}

impl View for Stage {
    type V = StageView;

    open spec fn view(&self) -> StageView {
        match self {
            Stage::Value(v) => StageView::Value(v@),
            Stage::ConditionTrue(v) => StageView::ConditionTrue(v@),
            Stage::ConditionFalse(v) => StageView::ConditionFalse(v@),
            Stage::Invalid(r) => StageView::Invalid(r@),
        }
    }
}

impl StageView {
    /// The value that the stage carries, unless it is invalid.
    pub open spec fn value(self) -> Option<ValueView> {
        match self {
            StageView::Value(v) => Some(v),
            StageView::ConditionTrue(v) => Some(v),
            StageView::ConditionFalse(v) => Some(v),
            StageView::Invalid(_) => None,
        }
    }
}

impl Stage {
    /// The value that the stage carries, unless it is invalid.
    pub fn value(&self) -> (r: Option<&Value>)
        ensures
            match r {
                Some(v) => self@.value() == Some(v@),
                None => self@.value() is None,
            },
    {
        match self {
            Stage::Value(v) => Some(v),
            Stage::ConditionTrue(v) => Some(v),
            Stage::ConditionFalse(v) => Some(v),
            Stage::Invalid(_) => None,
        }
    }

    /// A second stage that is the same.
    pub fn duplicate(&self) -> (r: Stage)
        ensures
            r@ == self@,
    {
        match self {
            Stage::Value(v) => Stage::Value(v.duplicate()),
            Stage::ConditionTrue(v) => Stage::ConditionTrue(v.duplicate()),
            Stage::ConditionFalse(v) => Stage::ConditionFalse(v.duplicate()),
            Stage::Invalid(r) => Stage::Invalid(r.clone()),
        }
    }

    /// Whether two stages are the same.
    pub fn same(&self, other: &Stage) -> (r: bool)
        ensures
            r == (self@ == other@),
    {
        match (self, other) {
            (Stage::Value(a), Stage::Value(b)) => a.same(b),
            (Stage::ConditionTrue(a), Stage::ConditionTrue(b)) => a.same(b),
            (Stage::ConditionFalse(a), Stage::ConditionFalse(b)) => a.same(b),
            (Stage::Invalid(a), Stage::Invalid(b)) => *a == *b,
            _ => false,
        }
    }
}

/// What a modifier works on: the stage, and around it the object whose field
/// is at stake, the place of the value in the request, and the request's
/// environment.
pub struct Context<'a> {
    pub object: Option<&'a Object>,
    pub key_path: &'a KeyPath,
    pub stage: Stage,
    pub env: &'a Env,
}

/// What a `Context` is, for contracts.
pub ghost struct ContextView {
    pub object: Option<ObjectView>,
    pub key_path: Seq<Segment>,
    pub stage: StageView,
    pub env: EnvView,
}

impl ContextView {
    /// The same context at another stage.
    pub open spec fn at(self, stage: StageView) -> ContextView {
        ContextView { stage, ..self }
    }
}

impl<'a> View for Context<'a> {
    type V = ContextView;

    open spec fn view(&self) -> ContextView {
        ContextView {
            object: match self.object {
                Some(o) => Some(o@),
                None => None,
            },
            key_path: path_items(*self.key_path),
            stage: self.stage@,
            env: self.env@,
        }
    }
}

impl<'a> Context<'a> {
    /// The context with a new value, as the result of a transformation.
    pub fn alter_value(self, value: Value) -> (r: Context<'a>)
        ensures
            r@ == self@.at(StageView::Value(value@)),
    {
        Context { object: self.object, key_path: self.key_path, stage: Stage::Value(value), env: self.env }
    }

    /// The context at another stage.
    pub fn alter_stage(self, stage: Stage) -> (r: Context<'a>)
        ensures
            r@ == self@.at(stage@),
    {
        Context { object: self.object, key_path: self.key_path, stage, env: self.env }
    }

    /// The context with its value refused.
    pub fn invalid(self, reason: &str) -> (r: Context<'a>)
        ensures
            r@ == self@.at(StageView::Invalid(reason@)),
    {
        Context {
            object: self.object,
            key_path: self.key_path,
            stage: Stage::Invalid(reason.to_owned()),
            env: self.env,
        }
    }
}

/// A step of a pipeline that the library does not know: it has a stable name
/// and makes a new stage of a context.
pub trait Modifier {
    /// The stage that a call leaves, given the context it gets. A modifier
    /// that says nothing of it leaves it open.
    open spec fn effect(&self, ctx: ContextView) -> StageView {
        arbitrary()
    }

    fn name(&self) -> &'static str;

    /// Changes nothing of the context but its stage.
    fn call<'a>(&self, ctx: Context<'a>) -> (r: Context<'a>)
        ensures
            r@ == ctx@.at(self.effect(ctx@)),
    ;
}

/// One step of a pipeline: a modifier of the library, or one that its user
/// brought.
pub enum Step {
    /// Sets the value.
    Literal(Value),
    /// Sets the value to that of a field of the object, `Null` where the
    /// object has none.
    ObjectField(String),
    /// Sets the value to the object itself, `Null` where there is none.
    GetObject,
    /// Sets the value to the entry of the environment's map under the key,
    /// `Null` where there is none.
    GetEnv(String),
    GetIdentity(GetIdentityModifier),
    /// Turns a list around.
    Reverse,
    /// Refuses `Null`.
    Exists,
    IsInstanceOf(IsInstanceOfModifier),
    /// Tests whether the value is the given one.
    Eq(Value),
    /// Tests whether the value is another than the given one.
    Neq(Value),
    /// Tests whether the value is one of the given ones.
    In(Vec<Value>),
    /// Tests whether the value is none of the given ones.
    NotIn(Vec<Value>),
    /// Tests whether the inner pipeline accepts the value.
    If(Pipeline),
    /// Runs the inner pipeline where the last test held.
    Then(Pipeline),
    /// Runs the inner pipeline where the last test did not hold.
    Else(Pipeline),
    /// Refuses the value where one of the inner pipelines does.
    All(Vec<Pipeline>),
    /// Refuses the value where each of the inner pipelines does.
    Any(Vec<Pipeline>),
    Custom(Box<dyn Modifier>),
}

/// An ordered chain of modifiers.
pub struct Pipeline {
    pub steps: Vec<Step>,
}

/// The text that a list of pairs holds under a key: that of the first pair
/// of the key at or after a position.
pub open spec fn text_under(map: Seq<(Seq<char>, Seq<char>)>, key: Seq<char>, from: int) -> Option<
    Seq<char>,
>
    decreases map.len() - from,
{
    if from < 0 || from >= map.len() {
        None
    } else if map[from].0 == key {
        Some(map[from].1)
    } else {
        text_under(map, key, from + 1)
    }
}

/// The stage that a step leaves, given the context it gets.
pub open spec fn step_effect(step: Step, ctx: ContextView) -> StageView
    decreases step, 1nat,
{
    match step {
        Step::Literal(v) => StageView::Value(v@),
        Step::ObjectField(name) => match ctx.object {
            Some(o) => match lookup(o.values, name@) {
                Some(v) => StageView::Value(v),
                None => StageView::Value(ValueView::Null),
            },
            None => StageView::Value(ValueView::Null),
        },
        Step::GetObject => match ctx.object {
            Some(o) => StageView::Value(ValueView::Object(o)),
            None => StageView::Value(ValueView::Null),
        },
        Step::GetEnv(key) => match text_under(ctx.env.map, key@, 0) {
            Some(s) => StageView::Value(ValueView::String(s)),
            None => StageView::Value(ValueView::Null),
        },
        Step::GetIdentity(m) => m.effect(ctx),
        Step::Reverse => match ctx.stage.value() {
            Some(ValueView::Vec(items)) => StageView::Value(ValueView::Vec(items.reverse())),
            Some(_) => StageView::Invalid("Value is not a list."@),
            None => ctx.stage,
        },
        Step::Exists => match ctx.stage.value() {
            Some(ValueView::Null) => StageView::Invalid("Value is required."@),
            _ => ctx.stage,
        },
        Step::IsInstanceOf(m) => m.effect(ctx),
        Step::Eq(v) => match ctx.stage.value() {
            Some(c) => tested(c, c == v@),
            None => ctx.stage,
        },
        Step::Neq(v) => match ctx.stage.value() {
            Some(c) => tested(c, c != v@),
            None => ctx.stage,
        },
        Step::In(vs) => match ctx.stage.value() {
            Some(c) => tested(c, items_view(vs@).contains(c)),
            None => ctx.stage,
        },
        Step::NotIn(vs) => match ctx.stage.value() {
            Some(c) => tested(c, !items_view(vs@).contains(c)),
            None => ctx.stage,
        },
        Step::If(p) => match ctx.stage.value() {
            Some(c) => tested(c, accepts(run_from(p.steps@, 0, ctx.at(StageView::Value(c))))),
            None => ctx.stage,
        },
        Step::Then(p) => match ctx.stage {
            StageView::ConditionTrue(c) => run_from(p.steps@, 0, ctx.at(StageView::Value(c))),
            _ => ctx.stage,
        },
        Step::Else(p) => match ctx.stage {
            StageView::ConditionFalse(c) => run_from(p.steps@, 0, ctx.at(StageView::Value(c))),
            _ => ctx.stage,
        },
        Step::All(ps) => match ctx.stage.value() {
            Some(c) => match first_refusal(ps@, 0, ctx.at(StageView::Value(c))) {
                Some(reason) => StageView::Invalid(reason),
                None => ctx.stage,
            },
            None => ctx.stage,
        },
        Step::Any(ps) => match ctx.stage.value() {
            Some(c) => match common_refusal(ps@, 0, ctx.at(StageView::Value(c))) {
                Some(reason) => StageView::Invalid(reason),
                None => ctx.stage,
            },
            None => ctx.stage,
        },
        Step::Custom(m) => m.effect(ctx),
    }
}

/// The stage after a test of the value.
pub open spec fn tested(value: ValueView, holds: bool) -> StageView {
    if holds {
        StageView::ConditionTrue(value)
    } else {
        StageView::ConditionFalse(value)
    }
}

/// Whether a pipeline, by the stage it left, accepted the value as one of
/// which its test holds.
pub open spec fn accepts(stage: StageView) -> bool {
    !(stage is Invalid) && !(stage is ConditionFalse)
}

/// The stage that the steps from a position on leave. A step works on what
/// the step before it left; once a stage is invalid no further step runs.
pub open spec fn run_from(steps: Seq<Step>, from: int, ctx: ContextView) -> StageView
    decreases steps, steps.len() - from,
{
    if from < 0 || from >= steps.len() {
        ctx.stage
    } else if ctx.stage is Invalid {
        ctx.stage
    } else {
        run_from(steps, from + 1, ctx.at(step_effect(steps[from], ctx)))
    }
}

/// The reason of the first pipeline from a position on that refuses.
pub open spec fn first_refusal(pipelines: Seq<Pipeline>, from: int, ctx: ContextView) -> Option<
    Seq<char>,
>
    decreases pipelines, pipelines.len() - from,
{
    if from < 0 || from >= pipelines.len() {
        None
    } else {
        match run_from(pipelines[from].steps@, 0, ctx) {
            StageView::Invalid(reason) => Some(reason),
            _ => first_refusal(pipelines, from + 1, ctx),
        }
    }
}

/// The reason of the last pipeline, where every pipeline from a position on
/// refuses and there is one.
pub open spec fn common_refusal(pipelines: Seq<Pipeline>, from: int, ctx: ContextView) -> Option<
    Seq<char>,
>
    decreases pipelines, pipelines.len() - from,
{
    if from < 0 || from >= pipelines.len() {
        None
    } else {
        match run_from(pipelines[from].steps@, 0, ctx) {
            StageView::Invalid(reason) => if from == pipelines.len() - 1 {
                Some(reason)
            } else {
                common_refusal(pipelines, from + 1, ctx)
            },
            _ => None,
        }
    }
}

impl Pipeline {
    /// The stage that the pipeline leaves, given the context it gets.
    pub open spec fn run(&self, ctx: ContextView) -> StageView {
        run_from(self.steps@, 0, ctx)
    }

    /// The pipeline without modifiers, which leaves every stage as it is.
    pub fn new() -> (p: Pipeline)
        ensures
            p.steps@.len() == 0,
    {
        Pipeline { steps: Vec::new() }
    }

    /// Adds a step at the end.
    pub fn push(&mut self, step: Step)
        ensures
            final(self).steps@ == old(self).steps@.push(step),
    {
        self.steps.push(step);
    }
}

/// The text that a list of pairs holds under a key.
pub fn get_text<'a>(map: &'a Vec<(String, String)>, key: &str) -> (r: Option<&'a String>)
    ensures
        match r {
            Some(s) => text_under(pairs_view(map@), key@, 0) == Some(s@),
            None => text_under(pairs_view(map@), key@, 0) is None,
        },
{
    let mut i: usize = 0;
    while i < map.len()
        invariant
            i <= map.len(),
            text_under(pairs_view(map@), key@, 0) == text_under(pairs_view(map@), key@, i as int),
        decreases map.len() - i,
    {
        if same_text(map[i].0.as_str(), key) {
            return Some(&map[i].1);
        }
        i += 1;
    }
    None
}

/// Whether a list of values holds the value.
pub fn holds_value(values: &Vec<Value>, value: &Value) -> (r: bool)
    ensures
        r == items_view(values@).contains(value@),
{
    let mut i: usize = 0;
    while i < values.len()
        invariant
            i <= values.len(),
            forall|j: int| 0 <= j < i ==> items_view(values@)[j] != value@,
        decreases values.len() - i,
    {
        if values[i].same(value) {
            assert(items_view(values@)[i as int] == value@);
            return true;
        }
        i += 1;
    }
    false
}

/// The list turned around.
pub fn reversed(items: Vec<Value>) -> (r: Vec<Value>)
    ensures
        items_view(r@) == items_view(items@).reverse(),
{
    let ghost whole = items@;
    let mut rest = items;
    let mut out: Vec<Value> = Vec::new();
    while rest.len() > 0
        invariant
            rest.len() + out.len() == whole.len(),
            forall|j: int| 0 <= j < rest.len() ==> rest@[j] == whole[j],
            forall|j: int| 0 <= j < out.len() ==> out@[j] == whole[whole.len() - 1 - j],
        decreases rest.len(),
    {
        let v = rest.pop().unwrap();
        out.push(v);
    }
    assert(items_view(out@) =~= items_view(whole).reverse());
    out
}

/// The stage after a test of the value it carries; an invalid stage stays.
fn test_stage(stage: Stage, holds: bool) -> (r: Stage)
    ensures
        r@ == (match stage@.value() {
            Some(c) => tested(c, holds),
            None => stage@,
        }),
{
    match stage {
        Stage::Value(c) | Stage::ConditionTrue(c) | Stage::ConditionFalse(c) => if holds {
            Stage::ConditionTrue(c)
        } else {
            Stage::ConditionFalse(c)
        },
        Stage::Invalid(reason) => Stage::Invalid(reason),
    }
}

impl Step {
    /// Lets the step work on a context.
    pub fn apply<'a>(&self, ctx: Context<'a>) -> (r: Context<'a>)
        ensures
            r@ == ctx@.at(step_effect(*self, ctx@)),
        decreases self, 1nat,
    {
        match self {
            Step::Literal(v) => ctx.alter_value(v.duplicate()),
            Step::ObjectField(name) => {
                let v = match ctx.object {
                    Some(o) => match get_entry(&o.values, name.as_str()) {
                        Some(v) => v.duplicate(),
                        None => Value::Null,
                    },
                    None => Value::Null,
                };
                ctx.alter_value(v)
            },
            Step::GetObject => {
                let v = match ctx.object {
                    Some(o) => Value::Object(o.duplicate()),
                    None => Value::Null,
                };
                ctx.alter_value(v)
            },
            Step::GetEnv(key) => {
                let v = match get_text(&ctx.env.map, key.as_str()) {
                    Some(s) => Value::String(s.clone()),
                    None => Value::Null,
                };
                ctx.alter_value(v)
            },
            Step::GetIdentity(m) => m.call(ctx),
            Step::Reverse => {
                let Context { object, key_path, stage, env } = ctx;
                let stage = match stage {
                    Stage::Value(c) | Stage::ConditionTrue(c) | Stage::ConditionFalse(c) => match c {
                        Value::Vec(items) => Stage::Value(Value::Vec(reversed(items))),
                        _ => Stage::Invalid("Value is not a list.".to_owned()),
                    },
                    Stage::Invalid(reason) => Stage::Invalid(reason),
                };
                Context { object, key_path, stage, env }
            },
            Step::Exists => {
                let Context { object, key_path, stage, env } = ctx;
                let stage = match stage {
                    Stage::Value(Value::Null)
                    | Stage::ConditionTrue(Value::Null)
                    | Stage::ConditionFalse(Value::Null) => Stage::Invalid(
                        "Value is required.".to_owned(),
                    ),
                    other => other,
                };
                Context { object, key_path, stage, env }
            },
            Step::IsInstanceOf(m) => m.call(ctx),
            Step::Eq(v) => {
                let holds = match ctx.stage.value() {
                    Some(c) => c.same(v),
                    None => false,
                };
                let Context { object, key_path, stage, env } = ctx;
                Context { object, key_path, stage: test_stage(stage, holds), env }
            },
            Step::Neq(v) => {
                let holds = match ctx.stage.value() {
                    Some(c) => !c.same(v),
                    None => false,
                };
                let Context { object, key_path, stage, env } = ctx;
                Context { object, key_path, stage: test_stage(stage, holds), env }
            },
            Step::In(vs) => {
                let holds = match ctx.stage.value() {
                    Some(c) => holds_value(vs, c),
                    None => false,
                };
                let Context { object, key_path, stage, env } = ctx;
                Context { object, key_path, stage: test_stage(stage, holds), env }
            },
            Step::NotIn(vs) => {
                let holds = match ctx.stage.value() {
                    Some(c) => !holds_value(vs, c),
                    None => false,
                };
                let Context { object, key_path, stage, env } = ctx;
                Context { object, key_path, stage: test_stage(stage, holds), env }
            },
            Step::If(p) => {
                let holds = match ctx.stage.value() {
                    Some(c) => {
                        let inner = Context {
                            object: ctx.object,
                            key_path: ctx.key_path,
                            stage: Stage::Value(c.duplicate()),
                            env: ctx.env,
                        };
                        match p.process(inner).stage {
                            Stage::Invalid(_) | Stage::ConditionFalse(_) => false,
                            _ => true,
                        }
                    },
                    None => false,
                };
                let Context { object, key_path, stage, env } = ctx;
                Context { object, key_path, stage: test_stage(stage, holds), env }
            },
            Step::Then(p) => {
                let Context { object, key_path, stage, env } = ctx;
                match stage {
                    Stage::ConditionTrue(c) => p.process(
                        Context { object, key_path, stage: Stage::Value(c), env },
                    ),
                    other => Context { object, key_path, stage: other, env },
                }
            },
            Step::Else(p) => {
                let Context { object, key_path, stage, env } = ctx;
                match stage {
                    Stage::ConditionFalse(c) => p.process(
                        Context { object, key_path, stage: Stage::Value(c), env },
                    ),
                    other => Context { object, key_path, stage: other, env },
                }
            },
            Step::All(ps) => {
                let refusal = match ctx.stage.value() {
                    Some(c) => Self::first_to_refuse(ps, c, ctx.object, ctx.key_path, ctx.env),
                    None => None,
                };
                match refusal {
                    Some(reason) => {
                        let Context { object, key_path, stage, env } = ctx;
                        Context { object, key_path, stage: Stage::Invalid(reason), env }
                    },
                    None => ctx,
                }
            },
            Step::Any(ps) => {
                let refusal = match ctx.stage.value() {
                    Some(c) => Self::all_refuse(ps, c, ctx.object, ctx.key_path, ctx.env),
                    None => None,
                };
                match refusal {
                    Some(reason) => {
                        let Context { object, key_path, stage, env } = ctx;
                        Context { object, key_path, stage: Stage::Invalid(reason), env }
                    },
                    None => ctx,
                }
            },
            Step::Custom(m) => m.call(ctx),
        }
    }

    /// The reason of the first pipeline that refuses the value.
    fn first_to_refuse<'a>(
        pipelines: &Vec<Pipeline>,
        value: &Value,
        object: Option<&'a Object>,
        key_path: &'a KeyPath,
        env: &'a Env,
    ) -> (r: Option<String>)
        ensures
            match r {
                Some(reason) => first_refusal(
                    pipelines@,
                    0,
                    (Context { object, key_path, stage: Stage::Value(*value), env })@,
                ) == Some(reason@),
                None => first_refusal(
                    pipelines@,
                    0,
                    (Context { object, key_path, stage: Stage::Value(*value), env })@,
                ) is None,
            },
        decreases pipelines@, pipelines@.len(),
    {
        let ghost at = (Context { object, key_path, stage: Stage::Value(*value), env })@;
        let mut i: usize = 0;
        while i < pipelines.len()
            invariant
                i <= pipelines.len(),
                at == (Context { object, key_path, stage: Stage::Value(*value), env })@,
                first_refusal(pipelines@, 0, at) == first_refusal(pipelines@, i as int, at),
            decreases pipelines.len() - i,
        {
            let inner = Context { object, key_path, stage: Stage::Value(value.duplicate()), env };
            assert(inner@ == at);
            match pipelines[i].process(inner).stage {
                Stage::Invalid(reason) => {
                    return Some(reason);
                },
                _ => {},
            }
            i += 1;
        }
        None
    }

    /// The reason of the last pipeline, where every pipeline refuses the
    /// value and there is one.
    fn all_refuse<'a>(
        pipelines: &Vec<Pipeline>,
        value: &Value,
        object: Option<&'a Object>,
        key_path: &'a KeyPath,
        env: &'a Env,
    ) -> (r: Option<String>)
        ensures
            match r {
                Some(reason) => common_refusal(
                    pipelines@,
                    0,
                    (Context { object, key_path, stage: Stage::Value(*value), env })@,
                ) == Some(reason@),
                None => common_refusal(
                    pipelines@,
                    0,
                    (Context { object, key_path, stage: Stage::Value(*value), env })@,
                ) is None,
            },
        decreases pipelines@, pipelines@.len(),
    {
        let ghost at = (Context { object, key_path, stage: Stage::Value(*value), env })@;
        let mut i: usize = 0;
        while i < pipelines.len()
            invariant
                i <= pipelines.len(),
                at == (Context { object, key_path, stage: Stage::Value(*value), env })@,
                common_refusal(pipelines@, 0, at) == common_refusal(pipelines@, i as int, at),
            decreases pipelines.len() - i,
        {
            let inner = Context { object, key_path, stage: Stage::Value(value.duplicate()), env };
            assert(inner@ == at);
            match pipelines[i].process(inner).stage {
                Stage::Invalid(reason) => {
                    if i == pipelines.len() - 1 {
                        return Some(reason);
                    }
                },
                _ => {
                    return None;
                },
            }
            i += 1;
        }
        None
    }
}

impl Pipeline {
    /// Feeds a context through the modifiers in order. Each works on what the
    /// one before it left; once a stage is invalid no further modifier is
    /// called, and that stage is the result.
    pub fn process<'a>(&self, ctx: Context<'a>) -> (r: Context<'a>)
        ensures
            r@ == ctx@.at(self.run(ctx@)),
        decreases self.steps@, self.steps@.len(),
    {
        let ghost start = ctx@;
        let mut cur = ctx;
        let mut i: usize = 0;
        while i < self.steps.len()
            invariant
                i <= self.steps.len(),
                start == ctx@,
                cur@ == start.at(cur@.stage),
                run_from(self.steps@, 0, start) == run_from(self.steps@, i as int, cur@),
            decreases self.steps.len() - i,
        {
            match &cur.stage {
                Stage::Invalid(_) => {
                    return cur;
                },
                _ => {},
            }
            cur = self.steps[i].apply(cur);
            i += 1;
        }
        cur
    }
}

/// Once a stage is invalid, the steps that are left change nothing.
pub proof fn invalid_stage_stays(steps: Seq<Step>, from: int, ctx: ContextView)
    requires
        ctx.stage is Invalid,
    ensures
        run_from(steps, from, ctx) == ctx.stage,
{
}

/// Where a step refuses the value, the refusal is the result of the run:
/// no step after it works on the context.
pub proof fn refusal_ends_the_run(steps: Seq<Step>, at: int, ctx: ContextView, reason: Seq<char>)
    requires
        0 <= at < steps.len(),
        !(ctx.stage is Invalid),
        step_effect(steps[at], ctx) == StageView::Invalid(reason),
    ensures
        run_from(steps, at, ctx) == StageView::Invalid(reason),
{
    invalid_stage_stays(steps, at + 1, ctx.at(StageView::Invalid(reason)));
}

/// Where a step refuses the value, the steps after it have no part in the
/// result: two pipelines that agree on that step give the same result from
/// it on, whatever follows in either.
pub proof fn steps_after_a_refusal_are_not_run(
    one: Seq<Step>,
    other: Seq<Step>,
    at: int,
    ctx: ContextView,
    reason: Seq<char>,
)
    requires
        0 <= at < one.len(),
        at < other.len(),
        one[at] == other[at],
        !(ctx.stage is Invalid),
        step_effect(one[at], ctx) == StageView::Invalid(reason),
    ensures
        run_from(one, at, ctx) == StageView::Invalid(reason),
        run_from(other, at, ctx) == StageView::Invalid(reason),
{
    refusal_ends_the_run(one, at, ctx, reason);
    refusal_ends_the_run(other, at, ctx, reason);
}

} // verus!
