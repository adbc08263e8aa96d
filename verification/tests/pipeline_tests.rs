use key_path::KeyPath;
use teo::action::ActionType;
use teo::modifiers::get_identity::GetIdentityModifier;
use teo::modifiers::is_instance_of::IsInstanceOfModifier;
use teo::pipeline::Context;
use teo::pipeline::Modifier;
use teo::pipeline::Pipeline;
use teo::pipeline::Stage;
use teo::pipeline::Step;
use teo::value::Env;
use teo::value::Object;
use teo::value::Source;
use teo::value::Value;

fn env(source: Source) -> Env {
    Env {
        source,
        intent: ActionType::Create,
        path: KeyPath::default(),
        map: vec![("lang".to_string(), "en".to_string())],
    }
}

fn user(name: &str) -> Object {
    Object {
        model: "User".to_string(),
        values: vec![("name".to_string(), Value::String(name.to_string()))],
        previous_values: Vec::new(),
        selected_fields: Vec::new(),
        included_relations: Vec::new(),
        is_new: true,
        is_modified: false,
        is_deleted: false,
        dirty_fields: Vec::new(),
        env: env(Source::Unknown),
    }
}

fn pipeline(steps: Vec<Step>) -> Pipeline {
    let mut p = Pipeline::new();
    for s in steps {
        p.push(s);
    }
    p
}

fn run_with(p: &Pipeline, stage: Stage, object: Option<&Object>, e: &Env) -> Stage {
    let path = KeyPath::default();
    p.process(Context { object, key_path: &path, stage, env: e }).stage
}

fn run(p: &Pipeline, value: Value) -> Stage {
    run_with(p, Stage::Value(value), None, &env(Source::Unknown))
}

fn string(s: &str) -> Value {
    Value::String(s.to_string())
}

/// A modifier that counts how often it is called.
struct Counting {
    calls: std::rc::Rc<std::cell::Cell<u32>>,
}

impl Modifier for Counting {
    fn name(&self) -> &'static str {
        "counting"
    }

    fn call<'a>(&self, ctx: Context<'a>) -> Context<'a> {
        self.calls.set(self.calls.get() + 1);
        ctx
    }
}

#[test]
fn empty_pipeline_leaves_the_stage() {
    assert_eq!(run(&Pipeline::new(), Value::I32(1)), Stage::Value(Value::I32(1)));
    assert_eq!(
        run_with(&Pipeline::new(), Stage::ConditionFalse(Value::Null), None, &env(Source::Unknown)),
        Stage::ConditionFalse(Value::Null)
    );
}

#[test]
fn steps_work_in_order() {
    let p = pipeline(vec![Step::Literal(Value::I32(1)), Step::Literal(Value::I32(2))]);
    assert_eq!(run(&p, Value::Null), Stage::Value(Value::I32(2)));
}

#[test]
fn no_modifier_is_called_after_a_refusal() {
    let before = std::rc::Rc::new(std::cell::Cell::new(0));
    let after = std::rc::Rc::new(std::cell::Cell::new(0));
    let p = pipeline(vec![
        Step::Custom(Box::new(Counting { calls: before.clone() })),
        Step::Exists,
        Step::Custom(Box::new(Counting { calls: after.clone() })),
        Step::Literal(Value::I32(9)),
    ]);
    assert_eq!(run(&p, Value::Null), Stage::Invalid("Value is required.".to_string()));
    assert_eq!(before.get(), 1);
    assert_eq!(after.get(), 0);
    assert_eq!(run(&p, Value::I32(1)), Stage::Value(Value::I32(9)));
    assert_eq!(before.get(), 2);
    assert_eq!(after.get(), 1);
}

#[test]
fn invalid_stage_passes_through_untouched() {
    let calls = std::rc::Rc::new(std::cell::Cell::new(0));
    let p = pipeline(vec![Step::Custom(Box::new(Counting { calls: calls.clone() })), Step::Literal(Value::Null)]);
    assert_eq!(
        run_with(&p, Stage::Invalid("no".to_string()), None, &env(Source::Unknown)),
        Stage::Invalid("no".to_string())
    );
    assert_eq!(calls.get(), 0);
}

#[test]
fn tests_branch_the_stage_and_keep_the_value() {
    assert_eq!(run(&pipeline(vec![Step::Eq(Value::I32(1))]), Value::I32(1)), Stage::ConditionTrue(Value::I32(1)));
    assert_eq!(run(&pipeline(vec![Step::Eq(Value::I32(1))]), Value::I64(1)), Stage::ConditionFalse(Value::I64(1)));
    assert_eq!(run(&pipeline(vec![Step::Neq(Value::I32(1))]), Value::I32(2)), Stage::ConditionTrue(Value::I32(2)));
    assert_eq!(run(&pipeline(vec![Step::Neq(Value::I32(1))]), Value::I32(1)), Stage::ConditionFalse(Value::I32(1)));
    let set = || vec![string("a"), string("b")];
    assert_eq!(run(&pipeline(vec![Step::In(set())]), string("b")), Stage::ConditionTrue(string("b")));
    assert_eq!(run(&pipeline(vec![Step::In(set())]), string("c")), Stage::ConditionFalse(string("c")));
    assert_eq!(run(&pipeline(vec![Step::NotIn(set())]), string("c")), Stage::ConditionTrue(string("c")));
    assert_eq!(run(&pipeline(vec![Step::NotIn(set())]), string("a")), Stage::ConditionFalse(string("a")));
}

#[test]
fn then_and_else_follow_the_last_test() {
    let p = pipeline(vec![
        Step::Eq(Value::I32(1)),
        Step::Then(pipeline(vec![Step::Literal(string("one"))])),
        Step::Else(pipeline(vec![Step::Literal(string("other"))])),
    ]);
    assert_eq!(run(&p, Value::I32(1)), Stage::Value(string("one")));
    assert_eq!(run(&p, Value::I32(2)), Stage::Value(string("other")));
    // without a test neither runs
    let p = pipeline(vec![
        Step::Then(pipeline(vec![Step::Literal(string("one"))])),
        Step::Else(pipeline(vec![Step::Literal(string("other"))])),
    ]);
    assert_eq!(run(&p, Value::I32(1)), Stage::Value(Value::I32(1)));
}

#[test]
fn if_asks_an_inner_pipeline() {
    let p = pipeline(vec![Step::If(pipeline(vec![Step::Exists]))]);
    assert_eq!(run(&p, Value::I32(1)), Stage::ConditionTrue(Value::I32(1)));
    assert_eq!(run(&p, Value::Null), Stage::ConditionFalse(Value::Null));
    let p = pipeline(vec![Step::If(pipeline(vec![Step::Eq(Value::I32(1))]))]);
    assert_eq!(run(&p, Value::I32(2)), Stage::ConditionFalse(Value::I32(2)));
    // what the inner pipeline makes of the value does not leave it
    let p = pipeline(vec![Step::If(pipeline(vec![Step::Literal(Value::I32(7))]))]);
    assert_eq!(run(&p, Value::I32(2)), Stage::ConditionTrue(Value::I32(2)));
}

#[test]
fn a_refusal_inside_a_branch_ends_the_outer_pipeline() {
    let calls = std::rc::Rc::new(std::cell::Cell::new(0));
    let p = pipeline(vec![
        Step::Eq(Value::Null),
        Step::Then(pipeline(vec![Step::Exists, Step::Literal(Value::I32(1))])),
        Step::Custom(Box::new(Counting { calls: calls.clone() })),
    ]);
    assert_eq!(run(&p, Value::Null), Stage::Invalid("Value is required.".to_string()));
    assert_eq!(calls.get(), 0);
}

#[test]
fn all_refuses_with_the_first_and_any_with_the_last() {
    let refuse = |reason: &str| {
        pipeline(vec![
            Step::Literal(Value::Null),
            Step::Exists,
            Step::Literal(string(reason)),
        ])
    };
    let accept = || pipeline(vec![Step::Exists]);
    let named = |reason: &'static str| {
        pipeline(vec![Step::Custom(Box::new(Refusing { reason }))])
    };
    let _ = refuse;
    assert_eq!(run(&pipeline(vec![Step::All(vec![accept(), accept()])]), Value::I32(1)), Stage::Value(Value::I32(1)));
    assert_eq!(
        run(&pipeline(vec![Step::All(vec![accept(), named("first"), named("second")])]), Value::I32(1)),
        Stage::Invalid("first".to_string())
    );
    assert_eq!(run(&pipeline(vec![Step::All(vec![])]), Value::I32(1)), Stage::Value(Value::I32(1)));
    assert_eq!(
        run(&pipeline(vec![Step::Any(vec![named("first"), accept()])]), Value::I32(1)),
        Stage::Value(Value::I32(1))
    );
    assert_eq!(
        run(&pipeline(vec![Step::Any(vec![named("first"), named("second")])]), Value::I32(1)),
        Stage::Invalid("second".to_string())
    );
    assert_eq!(run(&pipeline(vec![Step::Any(vec![])]), Value::I32(1)), Stage::Value(Value::I32(1)));
}

struct Refusing {
    reason: &'static str,
}

impl Modifier for Refusing {
    fn name(&self) -> &'static str {
        "refusing"
    }

    fn call<'a>(&self, ctx: Context<'a>) -> Context<'a> {
        ctx.invalid(self.reason)
    }
}

#[test]
fn reverse_turns_a_list_around() {
    let p = pipeline(vec![Step::Reverse]);
    assert_eq!(
        run(&p, Value::Vec(vec![Value::I32(1), Value::I32(2), Value::I32(3)])),
        Stage::Value(Value::Vec(vec![Value::I32(3), Value::I32(2), Value::I32(1)]))
    );
    assert_eq!(run(&p, Value::Vec(vec![])), Stage::Value(Value::Vec(vec![])));
    assert_eq!(run(&p, Value::I32(1)), Stage::Invalid("Value is not a list.".to_string()));
}

#[test]
fn context_steps_read_the_object_and_the_environment() {
    let u = user("ann");
    let e = env(Source::Unknown);
    let p = pipeline(vec![Step::ObjectField("name".to_string())]);
    assert_eq!(run_with(&p, Stage::Value(Value::Null), Some(&u), &e), Stage::Value(string("ann")));
    assert_eq!(run_with(&p, Stage::Value(Value::I32(1)), None, &e), Stage::Value(Value::Null));
    let p = pipeline(vec![Step::ObjectField("age".to_string())]);
    assert_eq!(run_with(&p, Stage::Value(Value::I32(1)), Some(&u), &e), Stage::Value(Value::Null));
    let p = pipeline(vec![Step::GetObject]);
    assert_eq!(run_with(&p, Stage::Value(Value::Null), Some(&u), &e), Stage::Value(Value::Object(user("ann"))));
    assert_eq!(run_with(&p, Stage::Value(Value::I32(1)), None, &e), Stage::Value(Value::Null));
    let p = pipeline(vec![Step::GetEnv("lang".to_string())]);
    assert_eq!(run(&p, Value::Null), Stage::Value(string("en")));
    let p = pipeline(vec![Step::GetEnv("zone".to_string())]);
    assert_eq!(run(&p, Value::I32(1)), Stage::Value(Value::Null));
}

#[test]
fn get_identity_yields_the_object_behind_the_request() {
    let p = pipeline(vec![Step::GetIdentity(GetIdentityModifier::new())]);
    let signed_in = env(Source::Identity(Box::new(user("bob"))));
    assert_eq!(
        run_with(&p, Stage::Value(Value::Null), None, &signed_in),
        Stage::Value(Value::Object(user("bob")))
    );
    let token = env(Source::Token("t".to_string()));
    assert_eq!(run_with(&p, Stage::Value(Value::I32(1)), None, &token), Stage::Value(Value::Null));
    assert_eq!(run(&p, Value::I32(1)), Stage::Value(Value::Null));
    assert_eq!(GetIdentityModifier::new().name(), "getIdentity");
}

#[test]
fn is_instance_of_tests_the_model_of_an_object() {
    let m = IsInstanceOfModifier::new("User");
    assert_eq!(m.name(), "is_instance_of");
    assert!(m.accepts(&Value::Object(user("ann"))));
    assert!(!IsInstanceOfModifier::new("Post").accepts(&Value::Object(user("ann"))));
    assert!(!m.accepts(&string("User")));
    let p = pipeline(vec![Step::IsInstanceOf(m)]);
    assert_eq!(
        run(&p, Value::Object(user("ann"))),
        Stage::ConditionTrue(Value::Object(user("ann")))
    );
    assert_eq!(run(&p, string("ann")), Stage::ConditionFalse(string("ann")));
    let p = pipeline(vec![Step::IsInstanceOf(IsInstanceOfModifier::new("Post"))]);
    assert_eq!(
        run(&p, Value::Object(user("ann"))),
        Stage::ConditionFalse(Value::Object(user("ann")))
    );
    assert_eq!(
        run_with(&p, Stage::Invalid("x".to_string()), None, &env(Source::Unknown)),
        Stage::Invalid("x".to_string())
    );
}

#[test]
fn context_changes_only_its_stage() {
    let path = KeyPath::default() + "a";
    let e = env(Source::Unknown);
    let u = user("ann");
    let ctx = Context { object: Some(&u), key_path: &path, stage: Stage::Value(Value::Null), env: &e };
    let ctx = ctx.alter_value(Value::I32(1));
    assert_eq!(ctx.stage, Stage::Value(Value::I32(1)));
    let ctx = ctx.alter_stage(Stage::ConditionTrue(Value::I32(2)));
    assert_eq!(ctx.stage, Stage::ConditionTrue(Value::I32(2)));
    assert_eq!(ctx.stage.value(), Some(&Value::I32(2)));
    let ctx = ctx.invalid("no");
    assert_eq!(ctx.stage, Stage::Invalid("no".to_string()));
    assert_eq!(ctx.stage.value(), None);
    assert_eq!(ctx.key_path, &path);
    assert_eq!(ctx.object, Some(&u));
    assert!(ctx.stage.same(&ctx.stage.duplicate()));
}
