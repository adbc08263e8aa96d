use key_path::KeyPath;
use teo::action::ActionType;
use teo::collections::add_item;
use teo::collections::find_entry;
use teo::collections::get_entry;
use teo::collections::put_entry;
use teo::error::ActionError;
use teo::field::Availability;
use teo::field::Field;
use teo::field_builder::FieldBuilder;
use teo::graph::EnumDef;
use teo::graph::Graph;
use teo::json::Json;
use teo::json::Number;
use teo::model::derive_indices;
use teo::model::picked;
use teo::model::IndexKind;
use teo::model::Model;
use teo::model::ModelIndex;
use teo::model::Multiplicity;
use teo::model::Pick;
use teo::model::Relation;
use teo::order::add_sorted_item;
use teo::order::before;
use teo::order::put_sorted_entry;
use teo::order::Gather;
use teo::text::add_name;
use teo::text::contains_name;
use teo::text::find_name;
use teo::text::names_copy;
use teo::text::names_same;
use teo::text::pairs_copy;
use teo::text::pairs_same;
use teo::value::Date;
use teo::value::DateTime;
use teo::value::Decimal;
use teo::value::Env;
use teo::value::Object;
use teo::value::Source;
use teo::value::Value;

fn field(name: &'static str, build: impl Fn(&mut FieldBuilder)) -> Field {
    let mut b = FieldBuilder::new(name);
    build(&mut b);
    Field::new(b)
}

fn relation(name: &str, fields: &[&str], references: &[&str], model: &str) -> Relation {
    Relation {
        name: name.to_string(),
        fields: fields.iter().map(|s| s.to_string()).collect(),
        references: references.iter().map(|s| s.to_string()).collect(),
        model: model.to_string(),
        optionality: Availability::Optional,
        multiplicity: Multiplicity::Many,
    }
}

fn user(relations: Vec<Relation>) -> Model {
    Model::build(
        "User".to_string(),
        vec![
            field("id", |f| {
                f.primary().u64();
            }),
            field("email", |f| {
                f.unique().string();
            }),
            field("password", |f| {
                f.writeonly().string();
            }),
            field("token", |f| {
                f.temp().string();
            }),
            field("age", |f| {
                f.calculated().u8();
            }),
            field("first", |f| {
                f.compound_unique("name").string();
            }),
            field("city", |f| {
                f.compound_index("place").index().compound_index("place").string();
            }),
            field("last", |f| {
                f.compound_unique("name").string();
            }),
            field("street", |f| {
                f.compound_index("place").string();
            }),
            field("nick", |f| {
                f.index().string();
            }),
        ],
        relations,
    )
}

fn names(list: &[&str]) -> Vec<String> {
    list.iter().map(|s| s.to_string()).collect()
}

#[test]
fn key_sets_follow_from_the_fields() {
    let m = user(vec![relation("posts", &["id"], &["authorId"], "Post")]);
    assert_eq!(m.name(), "User");
    assert_eq!(
        m.scalar_keys(),
        &names(&["id", "email", "password", "age", "first", "city", "last", "street", "nick"])
    );
    assert_eq!(m.query_keys(), &names(&["id", "email", "age", "first", "city", "last", "street", "nick"]));
    assert_eq!(
        m.local_output_keys(),
        &names(&["id", "email", "age", "first", "city", "last", "street", "nick"])
    );
    assert_eq!(m.relation_output_keys(), &names(&["posts"]));
    assert_eq!(m.fields().len(), 10);
    assert_eq!(m.relations().len(), 1);
    assert!(m.is_well_formed());
    assert_eq!(picked(m.fields(), Pick::Scalar), names(&["id", "email", "password", "age", "first", "city", "last", "street", "nick"]));
    let f = m.fields().iter().find(|f| f.name == "token").unwrap();
    assert!(!Pick::Scalar.picks(f) && !Pick::Queryable.picks(f) && !Pick::Readable.picks(f));
    let f = m.fields().iter().find(|f| f.name == "password").unwrap();
    assert!(Pick::Scalar.picks(f) && !Pick::Queryable.picks(f) && !Pick::Readable.picks(f));
    let mut broken = user(Vec::new());
    broken.query_keys.pop();
    assert!(!broken.is_well_formed());
}

fn keys(index: &ModelIndex) -> Vec<&str> {
    index.items.iter().map(|i| i.field.as_str()).collect()
}

#[test]
fn indices_follow_from_the_fields() {
    let m = user(Vec::new());
    let found: Vec<(Vec<&str>, bool)> = m.indices().iter().map(|i| (keys(i), i.unique)).collect();
    assert_eq!(
        found,
        vec![
            (vec!["id"], true),
            (vec!["email"], true),
            (vec!["first", "last"], true),
            (vec!["city", "street"], false),
            (vec!["nick"], false),
        ]
    );
    assert!(matches!(m.indices()[0].kind, IndexKind::Primary));
    assert!(matches!(m.indices()[1].kind, IndexKind::Single));
    assert!(matches!(&m.indices()[2].kind, IndexKind::Compound(k) if k == "name"));
    assert!(derive_indices(&Vec::new()).is_empty());
    // the primary key may be compound, and a primary field may have an index of its own
    let fields = vec![
        field("a", |f| {
            f.primary().unique().u8();
        }),
        field("b", |f| {
            f.primary().u8();
        }),
    ];
    let found: Vec<(Vec<String>, bool)> = derive_indices(&fields)
        .iter()
        .map(|i| (i.items.iter().map(|x| x.field.clone()).collect(), i.unique))
        .collect();
    assert_eq!(found, vec![(names(&["a", "b"]), true), (names(&["a"]), true)]);
}

#[test]
fn fields_relations_models_and_enums_are_found_by_name() {
    let m = user(vec![relation("posts", &["id"], &["authorId"], "Post")]);
    assert_eq!(m.field("email").map(|f| f.name), Some("email"));
    assert!(m.field("posts").is_none());
    assert_eq!(m.relation("posts").map(|r| r.model.as_str()), Some("Post"));
    assert!(m.relation("email").is_none());
    let colors = EnumDef { name: "Color".to_string(), values: names(&["red", "green"]) };
    let g = Graph::new(vec![m], vec![colors], "http://www.example.com".to_string());
    assert_eq!(g.host_url, "http://www.example.com");
    assert_eq!(g.model("User").map(|m| m.name()), Some("User"));
    assert!(g.model("Post").is_none());
    assert_eq!(g.enum_values("Color"), Some(&names(&["red", "green"])));
    assert_eq!(g.enum_values("Size"), None);
}

fn post(relations: Vec<Relation>) -> Model {
    Model::build(
        "Post".to_string(),
        vec![
            field("id", |f| {
                f.primary().u64();
            }),
            field("authorId", |f| {
                f.u64();
            }),
        ],
        relations,
    )
}

#[test]
fn well_formed_graph_holds_together() {
    let good = || {
        Graph::new(
            vec![
                user(vec![relation("posts", &["id"], &["authorId"], "Post")]),
                post(vec![relation("author", &["authorId"], &["id"], "User")]),
            ],
            Vec::new(),
            String::new(),
        )
    };
    assert!(good().is_well_formed());
    assert!(Graph::new(Vec::new(), Vec::new(), String::new()).is_well_formed());
    // two models of one name
    let g = Graph::new(vec![post(Vec::new()), user(Vec::new()), post(Vec::new())], Vec::new(), String::new());
    assert!(!g.is_well_formed());
    // a relation to a model that is not there
    let g = Graph::new(vec![user(vec![relation("posts", &["id"], &["authorId"], "Post")])], Vec::new(), String::new());
    assert!(!g.is_well_formed());
    let with = |r: Relation| Graph::new(vec![user(vec![r]), post(Vec::new())], Vec::new(), String::new());
    // as many local fields as remote ones
    assert!(!with(relation("posts", &["id", "email"], &["authorId"], "Post")).is_well_formed());
    // the local and the remote fields exist
    assert!(!with(relation("posts", &["uid"], &["authorId"], "Post")).is_well_formed());
    assert!(!with(relation("posts", &["id"], &["userId"], "Post")).is_well_formed());
    // no field has the name of a relation
    assert!(!with(relation("email", &["id"], &["authorId"], "Post")).is_well_formed());
    assert!(with(relation("posts", &["id"], &["authorId"], "Post")).is_well_formed());
    // a model without primary key
    let keyless = Model::build(
        "Log".to_string(),
        vec![field("line", |f| {
            f.string();
        })],
        Vec::new(),
    );
    let g = Graph::new(vec![keyless], Vec::new(), String::new());
    assert!(!g.fits_model(&g.models[0]));
    assert!(!g.is_well_formed());
    // key sets that do not follow from the fields
    let mut g = good();
    g.models[1].scalar_keys.push("ghost".to_string());
    assert!(!g.is_well_formed());
    let g = good();
    assert!(g.fits_relation(&g.models[0], &g.models[0].relations[0]));
}

fn string(s: &str) -> Value {
    Value::String(s.to_string())
}

#[test]
fn values_stand_in_their_order() {
    let ordered = vec![
        Value::Null,
        Value::ObjectId([0; 12]),
        Value::ObjectId([0, 0, 0, 0, 0, 0, 0, 0, 0, 0, 0, 1]),
        Value::ObjectId([1; 12]),
        Value::Bool(false),
        Value::Bool(true),
        Value::I8(-1),
        Value::I8(3),
        Value::I64(-9),
        Value::U8(0),
        Value::U128(7),
        Value::F64(Number::NegInt(-1)),
        Value::F64(Number::NegInt(0)),
        Value::F64(Number::PosInt(0)),
        Value::F64(Number::Float(1)),
        Value::Decimal(Decimal { mantissa: 5, scale: 0 }),
        Value::Decimal(Decimal { mantissa: -5, scale: 1 }),
        string(""),
        string("a"),
        string("ab"),
        string("b"),
        string("é"),
        Value::Date(Date { year: 2021, month: 12, day: 31 }),
        Value::Date(Date { year: 2022, month: 1, day: 1 }),
        Value::Date(Date { year: 2022, month: 1, day: 2 }),
        Value::DateTime(DateTime { seconds: 1, nanos: 9 }),
        Value::DateTime(DateTime { seconds: 2, nanos: 0 }),
        Value::Vec(vec![]),
        Value::HashMap(vec![]),
    ];
    for i in 0..ordered.len() {
        for j in 0..ordered.len() {
            assert_eq!(before(&ordered[i], &ordered[j]), i < j, "{:?} before {:?}", ordered[i], ordered[j]);
        }
    }
    // collections of one kind have no order among themselves
    assert!(!before(&Value::Vec(vec![Value::I8(1)]), &Value::Vec(vec![Value::I8(2)])));
    assert!(!before(&Value::Vec(vec![Value::I8(2)]), &Value::Vec(vec![Value::I8(1)])));
}

#[test]
fn sorted_sets_and_maps_keep_their_order() {
    let mut set = Vec::new();
    for n in [5, 1, 3, 1, 4, 5, 2] {
        add_sorted_item(&mut set, Value::I32(n));
    }
    assert_eq!(set, vec![Value::I32(1), Value::I32(2), Value::I32(3), Value::I32(4), Value::I32(5)]);
    add_sorted_item(&mut set, Value::Null);
    add_sorted_item(&mut set, string("z"));
    assert_eq!(set.first(), Some(&Value::Null));
    assert_eq!(set.last(), Some(&string("z")));
    let mut map = Vec::new();
    for (k, v) in [("m", 1), ("a", 2), ("z", 3), ("a", 4), ("b", 5)] {
        put_sorted_entry(&mut map, k.to_string(), Value::I32(v));
    }
    assert_eq!(
        map,
        vec![
            ("a".to_string(), Value::I32(4)),
            ("b".to_string(), Value::I32(5)),
            ("m".to_string(), Value::I32(1)),
            ("z".to_string(), Value::I32(3)),
        ]
    );
    let mut list = Vec::new();
    for n in [2, 1, 2] {
        Gather::List.gather(&mut list, Value::I32(n));
    }
    assert_eq!(list, vec![Value::I32(2), Value::I32(1), Value::I32(2)]);
    let mut unique = Vec::new();
    for n in [2, 1, 2] {
        Gather::Unique.gather(&mut unique, Value::I32(n));
    }
    assert_eq!(unique, vec![Value::I32(2), Value::I32(1)]);
    let mut sorted = Vec::new();
    for n in [2, 1, 2] {
        Gather::Sorted.gather(&mut sorted, Value::I32(n));
    }
    assert_eq!(sorted, vec![Value::I32(1), Value::I32(2)]);
}

#[test]
fn maps_and_sets_hold_no_key_or_value_twice() {
    let mut map = Vec::new();
    put_entry(&mut map, "a".to_string(), Value::I32(1));
    put_entry(&mut map, "b".to_string(), Value::I32(2));
    put_entry(&mut map, "a".to_string(), Value::I32(3));
    assert_eq!(map, vec![("a".to_string(), Value::I32(3)), ("b".to_string(), Value::I32(2))]);
    assert_eq!(find_entry(&map, "b"), Some(1));
    assert_eq!(find_entry(&map, "c"), None);
    assert_eq!(get_entry(&map, "a"), Some(&Value::I32(3)));
    assert_eq!(get_entry(&map, ""), None);
    let mut set = Vec::new();
    add_item(&mut set, string("x"));
    add_item(&mut set, string("y"));
    add_item(&mut set, string("x"));
    assert_eq!(set, vec![string("x"), string("y")]);
    let mut list = names(&["a"]);
    add_name(&mut list, "b");
    add_name(&mut list, "a");
    assert_eq!(list, names(&["a", "b"]));
    assert_eq!(find_name(&list, "b"), Some(1));
    assert_eq!(find_name(&list, "c"), None);
    assert!(contains_name(&list, "a") && !contains_name(&list, "A"));
    assert!(names_same(&list, &names_copy(&list)));
    assert!(!names_same(&list, &names(&["a"])));
    assert!(!names_same(&list, &names(&["a", "c"])));
    let pairs = vec![("k".to_string(), "v".to_string())];
    assert!(pairs_same(&pairs, &pairs_copy(&pairs)));
    assert!(!pairs_same(&pairs, &vec![("k".to_string(), "w".to_string())]));
    assert!(!pairs_same(&pairs, &Vec::new()));
}

fn env(path: KeyPath) -> Env {
    Env { source: Source::Token("t".to_string()), intent: ActionType::Update, path, map: vec![("a".to_string(), "b".to_string())] }
}

fn object(model: &str, value: Value) -> Object {
    Object {
        model: model.to_string(),
        values: vec![("v".to_string(), value)],
        previous_values: Vec::new(),
        selected_fields: names(&["v"]),
        included_relations: Vec::new(),
        is_new: false,
        is_modified: true,
        is_deleted: false,
        dirty_fields: names(&["v"]),
        env: env(KeyPath::default() + "update"),
    }
}

#[test]
fn same_tells_values_apart() {
    let values = || {
        vec![
            Value::Null,
            Value::ObjectId([1; 12]),
            Value::ObjectId([2; 12]),
            Value::Bool(true),
            Value::I8(1),
            Value::I16(1),
            Value::I32(1),
            Value::I64(1),
            Value::I128(1),
            Value::U8(1),
            Value::U16(1),
            Value::U32(1),
            Value::U64(1),
            Value::U128(1),
            Value::F32(Number::PosInt(1)),
            Value::F64(Number::PosInt(1)),
            Value::F64(Number::NegInt(1)),
            Value::Decimal(Decimal { mantissa: 1, scale: 0 }),
            Value::Decimal(Decimal { mantissa: 10, scale: 1 }),
            string("1"),
            Value::Date(Date { year: 1, month: 1, day: 1 }),
            Value::DateTime(DateTime { seconds: 1, nanos: 1 }),
            Value::Vec(vec![Value::I8(1)]),
            Value::Vec(vec![Value::I8(1), Value::I8(1)]),
            Value::HashSet(vec![Value::I8(1)]),
            Value::BTreeSet(vec![Value::I8(1)]),
            Value::HashMap(vec![("k".to_string(), Value::I8(1))]),
            Value::HashMap(vec![("l".to_string(), Value::I8(1))]),
            Value::HashMap(vec![("k".to_string(), Value::I8(2))]),
            Value::BTreeMap(vec![("k".to_string(), Value::I8(1))]),
            Value::Object(object("A", Value::Null)),
            Value::Object(object("B", Value::Null)),
            Value::Object(object("A", Value::Bool(false))),
        ]
    };
    let (a, b) = (values(), values());
    for i in 0..a.len() {
        assert!(a[i].same(&a[i].duplicate()));
        assert_eq!(a[i].duplicate(), a[i]);
        for j in 0..b.len() {
            assert_eq!(a[i].same(&b[j]), i == j, "{:?} and {:?}", a[i], b[j]);
        }
    }
}

#[test]
fn same_tells_objects_environments_and_sources_apart() {
    let o = object("A", Value::Null);
    assert!(o.same(&o.duplicate()));
    let mut other = o.duplicate();
    other.is_deleted = true;
    assert!(!o.same(&other));
    let mut other = o.duplicate();
    other.env.path = KeyPath::default() + "create";
    assert!(!o.same(&other));
    assert!(!o.env.same(&other.env));
    assert!(o.env.same(&o.env.duplicate()));
    let mut other = o.duplicate();
    other.env.intent = ActionType::Create;
    assert!(!o.env.same(&other.env));
    let mut other = o.duplicate();
    other.previous_values.push(("v".to_string(), Value::Null));
    assert!(!o.same(&other));
    let identity = Source::Identity(Box::new(object("A", Value::Null)));
    assert!(identity.same(&identity.duplicate()));
    assert!(!identity.same(&Source::Identity(Box::new(object("B", Value::Null)))));
    assert!(!identity.same(&Source::Unknown));
    assert!(!Source::Token("a".to_string()).same(&Source::Token("b".to_string())));
    assert!(Source::Unknown.same(&Source::Unknown));
    assert_eq!(identity.as_identity().map(|o| o.model.as_str()), Some("A"));
    assert!(Source::Unknown.as_identity().is_none());
}

#[test]
fn errors_say_what_and_where() {
    let p = KeyPath::default() + "where" + 2usize + "name";
    let q = KeyPath::default() + "where" + 3usize + "name";
    assert_eq!(p.to_string(), "where.2.name");
    let errors = |p: &KeyPath| {
        vec![
            ActionError::unexpected_input_root_type("object"),
            ActionError::unexpected_input_type("bool", p),
            ActionError::unexpected_input_value("range", p),
            ActionError::unexpected_input_key("k", p),
            ActionError::unexpected_object_length(1, p),
            ActionError::missing_required_input(p),
            ActionError::ValidationError(vec![("f".to_string(), "r".to_string())]),
            ActionError::permission_denied("no", p),
            ActionError::NotFound("M".to_string()),
            ActionError::UniqueConstraintViolation("i".to_string(), p.clone()),
            ActionError::ObjectIsDeleted,
            ActionError::InternalServerError("x".to_string()),
            ActionError::ConnectorError("x".to_string()),
        ]
    };
    let (a, b, c) = (errors(&p), errors(&p), errors(&q));
    for i in 0..a.len() {
        for j in 0..b.len() {
            assert_eq!(a[i].same(&b[j]), i == j);
        }
        let has_path = !matches!(
            a[i],
            ActionError::UnexpectedInputRootType(_)
                | ActionError::ValidationError(_)
                | ActionError::NotFound(_)
                | ActionError::ObjectIsDeleted
                | ActionError::InternalServerError(_)
                | ActionError::ConnectorError(_)
        );
        assert_eq!(a[i].same(&c[i]), !has_path);
    }
    assert_eq!(a[1], ActionError::UnexpectedInputType("bool".to_string(), p.clone()));
    assert_eq!(a[4], ActionError::UnexpectedObjectLength(1, p.clone()));
    assert_eq!(a[5], ActionError::MissingRequiredInput(p.clone()));
    assert_eq!(a[7], ActionError::PermissionDenied("no".to_string(), p));
}

#[test]
fn json_values_are_read_by_kind() {
    assert!(Json::Null.is_null() && !Json::Bool(false).is_null());
    assert!(Json::Object(vec![]).is_object() && !Json::Array(vec![]).is_object());
    assert_eq!(Json::Bool(true).as_bool(), Some(true));
    assert_eq!(Json::Null.as_bool(), None);
    assert_eq!(Json::String("a".to_string()).as_str(), Some("a"));
    assert_eq!(Json::Bool(true).as_str(), None);
    assert_eq!(Json::Array(vec![Json::Null]).as_array(), Some(&vec![Json::Null]));
    assert_eq!(Json::Null.as_array(), None);
    assert_eq!(Json::Object(vec![]).as_object(), Some(&vec![]));
    assert_eq!(Json::Null.as_object(), None);
    let n = |n: Number| Json::Number(n);
    assert_eq!(n(Number::PosInt(5)).as_number(), Some(Number::PosInt(5)));
    assert_eq!(Json::Null.as_number(), None);
    assert_eq!(n(Number::PosInt(5)).as_i64(), Some(5));
    assert_eq!(n(Number::PosInt(i64::MAX as u64)).as_i64(), Some(i64::MAX));
    assert_eq!(n(Number::PosInt(i64::MAX as u64 + 1)).as_i64(), None);
    assert_eq!(n(Number::NegInt(-5)).as_i64(), Some(-5));
    assert_eq!(n(Number::Float(0)).as_i64(), None);
    assert_eq!(n(Number::PosInt(5)).as_u64(), Some(5));
    assert_eq!(n(Number::NegInt(-5)).as_u64(), None);
    assert_eq!(n(Number::Float(0)).as_u64(), None);
    assert_eq!(n(Number::PosInt(u64::MAX)).as_integer(), Some(u64::MAX as i128));
    assert_eq!(n(Number::NegInt(i64::MIN)).as_integer(), Some(i64::MIN as i128));
    assert_eq!(n(Number::Float(0)).as_integer(), None);
    assert_eq!(Json::String("5".to_string()).as_integer(), None);
    assert_eq!(Json::Null.as_i64(), None);
    assert_eq!(Json::Null.as_u64(), None);
}
