use key_path::KeyPath;
use teo::action::ActionType;
use teo::argument::FnArgument;
use teo::collections::put_entry;
use teo::decoder::Decoder;
use teo::error::ActionError;
use teo::field::Field;
use teo::field_builder::FieldBuilder;
use teo::graph::Graph;
use teo::json::Json;
use teo::model::Model;
use teo::pipeline::Pipeline;
use teo::pipeline::Step;
use teo::value::Env;
use teo::value::Object;
use teo::value::Source;
use teo::value::Value;

fn field(name: &'static str, build: impl Fn(&mut FieldBuilder)) -> Field {
    let mut b = FieldBuilder::new(name);
    build(&mut b);
    Field::new(b)
}

fn simple() -> Model {
    Model::build(
        "Simple".to_string(),
        vec![
            field("id", |f| {
                f.primary().required().readonly().object_id().assigned_by_database();
            }),
            field("uniqueString", |f| {
                f.unique().required().string();
            }),
            field("requiredString", |f| {
                f.required().string();
            }),
            field("optionalString", |f| {
                f.optional().string();
            }),
        ],
        Vec::new(),
    )
}

struct NameLength {}

impl FnArgument for NameLength {
    fn call(&self, object: &Object) -> Value {
        Value::U64(object.model.len() as u64)
    }
}

fn rules() -> Model {
    Model::build(
        "Rules".to_string(),
        vec![
            field("open", |f| {
                f.optional().string();
            }),
            field("fixed", |f| {
                f.optional().readonly().string();
            }),
            field("once", |f| {
                f.optional().write_once().string();
            }),
            field("born", |f| {
                f.optional().write_on_create().string();
            }),
            field("full", |f| {
                f.optional().write_nonnull().string();
            }),
            field("checked", |f| {
                f.optional().string().on_set(|p| {
                    p.push(Step::Exists);
                });
            }),
            field("scratch", |f| {
                f.optional().temp().string();
            }),
            field("sum", |f| {
                f.optional().calculated().string().on_output(|p| {
                    p.push(Step::ObjectField("open".to_string()));
                });
            }),
            field("state", |f| {
                f.required().string().default(Value::String("new".to_string()));
            }),
            field("size", |f| {
                f.required().u64().default_by_fn(Box::new(NameLength {}));
            }),
            field("copy", |f| {
                f.optional().string().default_by_pipeline(|p| {
                    p.push(Step::ObjectField("open".to_string()));
                });
            }),
            field("stamped", |f| {
                f.optional().string().on_save(|p| {
                    p.push(Step::Literal(Value::String("saved".to_string())));
                });
            }),
            field("hidden", |f| {
                f.optional().internal().string();
            }),
        ],
        Vec::new(),
    )
}

fn graph() -> Graph {
    Graph::new(vec![simple(), rules()], Vec::new(), String::new())
}

fn env() -> Env {
    Env { source: Source::Unknown, intent: ActionType::Create, path: KeyPath::default() + "create", map: Vec::new() }
}

fn string(s: &str) -> Value {
    Value::String(s.to_string())
}

fn text(s: &str) -> Json {
    Json::String(s.to_string())
}

fn object(members: Vec<(&str, Json)>) -> Json {
    Json::Object(members.into_iter().map(|(k, v)| (k.to_string(), v)).collect())
}

fn create_path(key: &str) -> KeyPath {
    KeyPath::default() + "create" + key
}

fn get<'a>(entries: &'a [(String, Value)], key: &str) -> Option<&'a Value> {
    entries.iter().find(|e| e.0 == key).map(|e| &e.1)
}

/// A connector that keeps what it saved and refuses a second object with the
/// same unique string.
struct Memory {
    rows: Vec<Vec<(String, Value)>>,
}

impl Memory {
    fn save(&mut self, object: &mut Object, g: &Graph) -> Result<(), ActionError> {
        let row = object.stored_values(g);
        let key = get(&row, "uniqueString").cloned_value();
        if key.is_some() && self.rows.iter().any(|r| get(r, "uniqueString").cloned_value() == key) {
            return Err(ActionError::UniqueConstraintViolation(
                "uniqueString".to_string(),
                create_path("uniqueString"),
            ));
        }
        let id = [self.rows.len() as u8 + 1; 12];
        put_entry(&mut object.values, "id".to_string(), Value::ObjectId(id));
        let mut row = row;
        row.push(("id".to_string(), Value::ObjectId(id)));
        self.rows.push(row);
        Ok(())
    }
}

trait ClonedValue {
    fn cloned_value(self) -> Option<Value>;
}

impl ClonedValue for Option<&Value> {
    fn cloned_value(self) -> Option<Value> {
        self.map(|v| v.duplicate())
    }
}

/// The whole of a create: decode, set, save by the connector, show.
fn create(memory: &mut Memory, g: &Graph, body: Json) -> Result<Json, ActionError> {
    let model = g.model("Simple").unwrap();
    let decoded = Decoder::decode(model, g, ActionType::Create, &body)?;
    let values = match decoded {
        Value::HashMap(top) => match get(&top, "create").cloned_value() {
            Some(Value::HashMap(values)) => values,
            _ => Vec::new(),
        },
        _ => Vec::new(),
    };
    let mut object = Object::new(model, env());
    object.set(g, &values)?;
    object.begin_save(g)?;
    let verdict = memory.save(&mut object, g);
    object.finish_save(g, verdict)?;
    assert_eq!(object.previous_values, object.values);
    assert!(object.dirty_fields.is_empty());
    object.to_json(g)
}

#[test]
fn create_with_valid_data_creates_entry() {
    let g = graph();
    let mut memory = Memory { rows: Vec::new() };
    let body = object(vec![(
        "create",
        object(vec![("uniqueString", text("1")), ("requiredString", text("1"))]),
    )]);
    let data = create(&mut memory, &g, body).unwrap();
    let members = match data {
        Json::Object(members) => members,
        _ => Vec::new(),
    };
    let member = |key: &str| members.iter().find(|m| m.0 == key).map(|m| &m.1);
    assert_eq!(member("uniqueString"), Some(&text("1")));
    assert_eq!(member("requiredString"), Some(&text("1")));
    assert_eq!(member("optionalString"), Some(&Json::Null));
    assert_eq!(member("id"), Some(&text("010101010101010101010101")));
    assert_eq!(memory.rows.len(), 1);
}

#[test]
fn create_with_required_field_omitted_cannot_create() {
    let g = graph();
    let mut memory = Memory { rows: Vec::new() };
    let body = object(vec![("create", object(vec![("uniqueString", text("1"))]))]);
    assert_eq!(
        create(&mut memory, &g, body),
        Err(ActionError::ValidationError(vec![(
            "requiredString".to_string(),
            "Value is required.".to_string()
        )]))
    );
    assert!(memory.rows.is_empty());
}

#[test]
fn second_create_with_the_same_unique_value_is_refused() {
    let g = graph();
    let mut memory = Memory { rows: Vec::new() };
    let body = || object(vec![(
        "create",
        object(vec![("uniqueString", text("x")), ("requiredString", text("1"))]),
    )]);
    assert!(create(&mut memory, &g, body()).is_ok());
    assert_eq!(
        create(&mut memory, &g, body()),
        Err(ActionError::UniqueConstraintViolation("uniqueString".to_string(), create_path("uniqueString")))
    );
    assert_eq!(memory.rows.len(), 1);
}

fn fresh() -> Object {
    let g = graph();
    Object::new(g.model("Rules").unwrap(), env())
}

#[test]
fn new_object_is_new_and_empty() {
    let o = fresh();
    assert_eq!(o.model, "Rules");
    assert!(o.is_new && !o.is_modified && !o.is_deleted);
    assert!(o.values.is_empty() && o.previous_values.is_empty() && o.dirty_fields.is_empty());
}

#[test]
fn set_value_stores_the_value_and_marks_the_field() {
    let g = graph();
    let mut o = fresh();
    assert_eq!(o.set_value(&g, "open", string("a")), Ok(()));
    assert_eq!(o.set_value(&g, "open", string("b")), Ok(()));
    assert_eq!(o.set_value(&g, "checked", string("c")), Ok(()));
    assert_eq!(o.values, vec![("open".to_string(), string("b")), ("checked".to_string(), string("c"))]);
    assert_eq!(o.dirty_fields, vec!["open".to_string(), "checked".to_string()]);
    assert!(o.is_modified);
    assert!(o.previous_values.is_empty());
}

#[test]
fn no_write_field_is_always_denied() {
    let g = graph();
    for value in [Value::Null, string("a")] {
        for is_new in [true, false] {
            let mut o = fresh();
            o.is_new = is_new;
            let before = o.duplicate();
            assert_eq!(
                o.set_value(&g, "fixed", value.duplicate()),
                Err(ActionError::PermissionDenied("Field is readonly.".to_string(), create_path("fixed")))
            );
            assert_eq!(o, before);
            assert_eq!(
                o.set_value(&g, "hidden", value.duplicate()),
                Err(ActionError::PermissionDenied("Field is readonly.".to_string(), create_path("hidden")))
            );
            assert_eq!(
                o.set_value(&g, "sum", value.duplicate()),
                Err(ActionError::PermissionDenied("Field is readonly.".to_string(), create_path("sum")))
            );
        }
    }
}

#[test]
fn write_once_field_is_denied_after_a_stored_value() {
    let g = graph();
    let mut o = fresh();
    assert_eq!(o.set_value(&g, "once", string("a")), Ok(()));
    assert_eq!(o.set_value(&g, "once", string("b")), Ok(()));
    o.previous_values = vec![("once".to_string(), Value::Null)];
    assert_eq!(o.set_value(&g, "once", string("c")), Ok(()));
    o.previous_values = vec![("once".to_string(), string("c"))];
    assert_eq!(
        o.set_value(&g, "once", string("d")),
        Err(ActionError::PermissionDenied("Field can be written once.".to_string(), create_path("once")))
    );
    assert_eq!(get(&o.values, "once"), Some(&string("c")));
}

#[test]
fn write_on_create_field_is_denied_once_stored() {
    let g = graph();
    let mut o = fresh();
    assert_eq!(o.set_value(&g, "born", string("a")), Ok(()));
    o.is_new = false;
    assert_eq!(
        o.set_value(&g, "born", string("b")),
        Err(ActionError::PermissionDenied("Field can be written on create.".to_string(), create_path("born")))
    );
}

#[test]
fn write_nonnull_field_refuses_null() {
    let g = graph();
    let mut o = fresh();
    assert_eq!(
        o.set_value(&g, "full", Value::Null),
        Err(ActionError::PermissionDenied("Field cannot be set to null.".to_string(), create_path("full")))
    );
    assert_eq!(o.set_value(&g, "full", string("a")), Ok(()));
}

#[test]
fn set_value_reports_what_the_pipeline_refuses() {
    let g = graph();
    let mut o = fresh();
    let before = o.duplicate();
    assert_eq!(
        o.set_value(&g, "checked", Value::Null),
        Err(ActionError::ValidationError(vec![("checked".to_string(), "Value is required.".to_string())]))
    );
    assert_eq!(o, before);
}

#[test]
fn set_value_needs_a_field_a_model_and_a_living_object() {
    let g = graph();
    let mut o = fresh();
    assert_eq!(
        o.set_value(&g, "nothing", Value::Null),
        Err(ActionError::UnexpectedInputKey("nothing".to_string(), create_path("nothing")))
    );
    o.is_deleted = true;
    assert_eq!(o.set_value(&g, "open", Value::Null), Err(ActionError::ObjectIsDeleted));
    assert_eq!(o.set_value(&g, "fixed", Value::Null), Err(ActionError::ObjectIsDeleted));
    let mut lost = fresh();
    lost.model = "Lost".to_string();
    assert_eq!(
        lost.set_value(&g, "open", Value::Null),
        Err(ActionError::InternalServerError("Model is not found.".to_string()))
    );
}

#[test]
fn set_gathers_every_refused_value() {
    let g = graph();
    let mut o = fresh();
    let values = vec![
        ("open".to_string(), string("a")),
        ("checked".to_string(), Value::Null),
        ("full".to_string(), string("b")),
        ("checked".to_string(), Value::Null),
    ];
    assert_eq!(
        o.set(&g, &values),
        Err(ActionError::ValidationError(vec![
            ("checked".to_string(), "Value is required.".to_string()),
            ("checked".to_string(), "Value is required.".to_string()),
        ]))
    );
    assert_eq!(o.values, vec![("open".to_string(), string("a")), ("full".to_string(), string("b"))]);
    // a denial ends the setting at once
    let mut o = fresh();
    let values = vec![
        ("checked".to_string(), Value::Null),
        ("open".to_string(), string("a")),
        ("fixed".to_string(), string("b")),
        ("full".to_string(), string("c")),
    ];
    assert_eq!(
        o.set(&g, &values),
        Err(ActionError::PermissionDenied("Field is readonly.".to_string(), create_path("fixed")))
    );
    assert_eq!(o.values, vec![("open".to_string(), string("a"))]);
    let mut o = fresh();
    assert_eq!(o.set(&g, &Vec::new()), Ok(()));
}

#[test]
fn save_fills_defaults_and_runs_the_save_pipelines() {
    let g = graph();
    let mut o = fresh();
    o.set(&g, &vec![("open".to_string(), string("a")), ("scratch".to_string(), string("s"))]).unwrap();
    assert_eq!(o.begin_save(&g), Ok(()));
    assert_eq!(get(&o.values, "state"), Some(&string("new")));
    assert_eq!(get(&o.values, "size"), Some(&Value::U64(5)));
    assert_eq!(get(&o.values, "copy"), Some(&string("a")));
    assert_eq!(get(&o.values, "stamped"), None);
    assert_eq!(get(&o.values, "scratch"), Some(&string("s")));
    assert!(o.previous_values.is_empty());
    // what goes to the connector holds neither the temporary nor the computed field
    let sent = o.stored_values(&g);
    assert_eq!(get(&sent, "open"), Some(&string("a")));
    assert_eq!(get(&sent, "scratch"), None);
    assert_eq!(get(&sent, "sum"), None);
    assert_eq!(o.finish_save(&g, Ok(())), Ok(()));
    assert_eq!(get(&o.values, "scratch"), None);
    assert_eq!(o.previous_values, o.values);
    assert!(o.dirty_fields.is_empty());
    assert!(!o.is_new && !o.is_modified);
}

#[test]
fn save_runs_the_pipeline_of_a_field_that_has_a_value() {
    let g = graph();
    let mut o = fresh();
    o.set_value(&g, "stamped", string("x")).unwrap();
    assert_eq!(o.begin_save(&g), Ok(()));
    assert_eq!(get(&o.values, "stamped"), Some(&string("saved")));
}

#[test]
fn save_of_a_stored_object_touches_the_changed_fields_only() {
    let g = graph();
    let mut o = fresh();
    o.is_new = false;
    o.set_value(&g, "open", string("a")).unwrap();
    assert_eq!(o.begin_save(&g), Ok(()));
    assert_eq!(o.values, vec![("open".to_string(), string("a"))]);
}

#[test]
fn failed_save_leaves_the_stored_values() {
    let g = graph();
    let mut o = fresh();
    o.set_value(&g, "open", string("a")).unwrap();
    o.begin_save(&g).unwrap();
    o.finish_save(&g, Ok(())).unwrap();
    let stored = o.previous_values.iter().map(|e| (e.0.clone(), e.1.duplicate())).collect::<Vec<_>>();
    o.set_value(&g, "open", string("b")).unwrap();
    o.begin_save(&g).unwrap();
    let before = o.duplicate();
    assert_eq!(
        o.finish_save(&g, Err(ActionError::ConnectorError("down".to_string()))),
        Err(ActionError::ConnectorError("down".to_string()))
    );
    assert_eq!(o, before);
    assert_eq!(o.previous_values, stored);
    assert_eq!(o.dirty_fields, vec!["open".to_string()]);
}

#[test]
fn save_reports_every_missing_required_value() {
    let g = graph();
    let mut o = Object::new(g.model("Simple").unwrap(), env());
    let before = o.duplicate();
    assert_eq!(
        o.begin_save(&g),
        Err(ActionError::ValidationError(vec![
            ("uniqueString".to_string(), "Value is required.".to_string()),
            ("requiredString".to_string(), "Value is required.".to_string()),
        ]))
    );
    assert_eq!(o, before);
    o.is_deleted = true;
    assert_eq!(o.begin_save(&g), Err(ActionError::ObjectIsDeleted));
}

#[test]
fn deleted_object_takes_no_more_changes() {
    let g = graph();
    let mut o = fresh();
    assert_eq!(o.begin_delete(), Ok(()));
    assert_eq!(
        o.finish_delete(Err(ActionError::NotFound("Rules".to_string()))),
        Err(ActionError::NotFound("Rules".to_string()))
    );
    assert!(!o.is_deleted);
    assert_eq!(o.finish_delete(Ok(())), Ok(()));
    assert!(o.is_deleted);
    assert_eq!(o.begin_delete(), Err(ActionError::ObjectIsDeleted));
    assert_eq!(o.set_value(&g, "open", string("a")), Err(ActionError::ObjectIsDeleted));
    assert_eq!(o.set(&g, &vec![("open".to_string(), string("a"))]), Err(ActionError::ObjectIsDeleted));
    assert_eq!(o.begin_save(&g), Err(ActionError::ObjectIsDeleted));
}

#[test]
fn output_shows_the_readable_fields_that_are_selected() {
    let g = graph();
    let mut o = fresh();
    o.set_value(&g, "open", string("a")).unwrap();
    let keys = |j: Json| match j {
        Json::Object(members) => members.into_iter().map(|m| m.0).collect::<Vec<_>>(),
        _ => Vec::new(),
    };
    let all = o.to_json(&g).unwrap();
    assert_eq!(
        keys(all),
        vec!["open", "fixed", "once", "born", "full", "checked", "sum", "state", "size", "copy", "stamped"]
    );
    o.selected_fields = vec!["sum".to_string(), "open".to_string(), "hidden".to_string()];
    assert_eq!(
        o.to_json(&g),
        Ok(object(vec![("open", text("a")), ("sum", text("a"))]))
    );
}

#[test]
fn output_fails_where_a_value_has_no_json() {
    let g = graph();
    let mut o = fresh();
    o.values = vec![("open".to_string(), Value::Date(teo::value::Date { year: 2022, month: 13, day: 1 }))];
    assert_eq!(
        o.to_json(&g),
        Err(ActionError::InternalServerError("Value cannot be written as JSON.".to_string()))
    );
    o.model = "Lost".to_string();
    assert_eq!(o.to_json(&g), Err(ActionError::InternalServerError("Model is not found.".to_string())));
}

#[test]
fn pipelines_can_be_built_step_by_step() {
    let mut p = Pipeline::new();
    assert!(p.steps.is_empty());
    p.push(Step::Exists);
    p.push(Step::Reverse);
    assert_eq!(p.steps.len(), 2);
}

#[test]
fn output_shows_the_included_objects_of_a_relation() {
    let author = Model::build(
        "Author".to_string(),
        vec![
            field("id", |f| {
                f.primary().u64();
            }),
            field("name", |f| {
                f.string();
            }),
        ],
        vec![teo::model::Relation {
            name: "books".to_string(),
            fields: vec!["id".to_string()],
            references: vec!["authorId".to_string()],
            model: "Book".to_string(),
            optionality: teo::field::Availability::Optional,
            multiplicity: teo::model::Multiplicity::Many,
        }],
    );
    let book = Model::build(
        "Book".to_string(),
        vec![
            field("id", |f| {
                f.primary().u64();
            }),
            field("authorId", |f| {
                f.writeonly().u64();
            }),
            field("title", |f| {
                f.string();
            }),
        ],
        Vec::new(),
    );
    let g = Graph::new(vec![author, book], Vec::new(), String::new());
    let make = |model: &str, values: Vec<(&str, Value)>| {
        let mut o = Object::new(g.model(model).unwrap(), env());
        o.values = values.into_iter().map(|(k, v)| (k.to_string(), v)).collect();
        o
    };
    let mut ann = make("Author", vec![("id", Value::U64(1)), ("name", string("Ann"))]);
    ann.included_relations = vec![
        (
            "books".to_string(),
            vec![
                make("Book", vec![("id", Value::U64(7)), ("authorId", Value::U64(1)), ("title", string("One"))]),
                make("Book", vec![("id", Value::U64(8)), ("title", string("Two"))]),
            ],
        ),
        ("friends".to_string(), vec![make("Author", vec![])]),
    ];
    let number = |n: u64| Json::Number(teo::json::Number::PosInt(n));
    assert_eq!(
        ann.to_json(&g),
        Ok(object(vec![
            ("id", number(1)),
            ("name", text("Ann")),
            (
                "books",
                Json::Array(vec![
                    object(vec![("id", number(7)), ("title", text("One"))]),
                    object(vec![("id", number(8)), ("title", text("Two"))]),
                ])
            ),
        ]))
    );
    ann.included_relations = vec![("books".to_string(), Vec::new())];
    assert_eq!(
        ann.to_json(&g),
        Ok(object(vec![("id", number(1)), ("name", text("Ann")), ("books", Json::Array(vec![]))]))
    );
    let mut lost = make("Book", vec![]);
    lost.model = "Lost".to_string();
    ann.included_relations = vec![("books".to_string(), vec![lost])];
    assert_eq!(ann.to_json(&g), Err(ActionError::InternalServerError("Model is not found.".to_string())));
    assert!(ann.same(&ann.duplicate()));
    let mut other = ann.duplicate();
    other.included_relations.clear();
    assert!(!ann.same(&other));
}
