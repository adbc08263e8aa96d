use teo::argument::Argument;
use teo::argument::FnArgument;
use teo::db_type::DatabaseType;
use teo::db_type::DatabaseTypeBuilder;
use teo::db_type::DatabaseTypeTerminationBuilder;
use teo::db_type::DateTimeTypeBuilder;
use teo::db_type::SignedIntegerTypeBuilder;
use teo::db_type::StringTypeBuilder;
use teo::decorators::copy_decorator;
use teo::field::Availability;
use teo::field::Field;
use teo::field::FieldIndex;
use teo::field::FieldType;
use teo::field::FilterClass;
use teo::field::ObjectAssignment;
use teo::field::QueryAbility;
use teo::field::ReadRule;
use teo::field::Store;
use teo::field::WriteRule;
use teo::field_builder::FieldBuilder;
use teo::pipeline::Step;
use teo::value::Object;
use teo::value::Value;

#[test]
fn new_builder_has_the_defaults() {
    let b = FieldBuilder::new("age");
    assert_eq!(b.name, "age");
    assert_eq!(b.localized_name, "");
    assert_eq!(b.description, "");
    assert!(matches!(b.field_type, FieldType::Undefined));
    assert_eq!(b.availability, Availability::Required);
    assert!(matches!(b.store, Store::Embedded));
    assert!(!b.primary);
    assert_eq!(b.read_rule, ReadRule::Read);
    assert_eq!(b.write_rule, WriteRule::Write);
    assert!(matches!(b.index, FieldIndex::NoIndex));
    assert_eq!(b.query_ability, QueryAbility::Queryable);
    assert_eq!(b.object_assignment, ObjectAssignment::Reference);
    assert!(!b.assigned_by_database && !b.auto_increment && !b.auth_identity);
    assert!(b.default.is_none());
    assert!(b.on_set_pipeline.steps.is_empty());
    assert!(b.on_save_pipeline.steps.is_empty());
    assert!(b.on_output_pipeline.steps.is_empty());
}

#[test]
fn names_are_set() {
    let mut b = FieldBuilder::new("age");
    b.localized_name("Alter");
    b.description("years since birth");
    assert_eq!((b.name, b.localized_name, b.description), ("age", "Alter", "years since birth"));
}

#[test]
fn each_type_setter_sets_its_type() {
    let mut b = FieldBuilder::new("f");
    assert!(matches!(b.object_id().field_type, FieldType::ObjectId));
    assert!(matches!(b.bool().field_type, FieldType::Bool));
    assert!(matches!(b.i8().field_type, FieldType::I8));
    assert!(matches!(b.i16().field_type, FieldType::I16));
    assert!(matches!(b.i32().field_type, FieldType::I32));
    assert!(matches!(b.i64().field_type, FieldType::I64));
    assert!(matches!(b.i128().field_type, FieldType::I128));
    assert!(matches!(b.u8().field_type, FieldType::U8));
    assert!(matches!(b.u16().field_type, FieldType::U16));
    assert!(matches!(b.u32().field_type, FieldType::U32));
    assert!(matches!(b.u64().field_type, FieldType::U64));
    assert!(matches!(b.u128().field_type, FieldType::U128));
    assert!(matches!(b.float32().field_type, FieldType::F32));
    assert!(matches!(b.float64().field_type, FieldType::F64));
    assert!(matches!(b.decimal().field_type, FieldType::Decimal));
    assert!(matches!(b.string().field_type, FieldType::String));
    assert!(matches!(b.date().field_type, FieldType::Date));
    assert!(matches!(b.datetime().field_type, FieldType::DateTime));
    assert!(matches!(b.enumeration("Color").field_type, FieldType::Enum("Color")));
    assert!(matches!(b.object("User").field_type, FieldType::Object("User")));
    assert_eq!(b.name, "f");
    assert_eq!(b.availability, Availability::Required);
}

#[test]
fn collection_setters_build_the_element_field() {
    let mut b = FieldBuilder::new("tags");
    b.vec(|e| {
        e.string().optional();
    });
    match &b.field_type {
        FieldType::Vec(inner) => {
            assert_eq!(inner.name, "");
            assert!(matches!(inner.field_type, FieldType::String));
            assert!(inner.is_optional());
        }
        _ => panic!("no list"),
    }
    b.map(|e| {
        e.i32();
    });
    match &b.field_type {
        FieldType::HashMap(inner) => {
            assert!(matches!(inner.field_type, FieldType::I32));
            assert!(inner.is_required());
        }
        _ => panic!("no map"),
    }
    assert!(b.field_type.element_field().is_some());
    assert!(FieldType::String.element_field().is_none());
}

#[test]
fn rule_setters_set_their_rules() {
    let mut b = FieldBuilder::new("f");
    assert!(b.primary().primary);
    b.internal();
    assert_eq!((b.write_rule, b.read_rule), (WriteRule::NoWrite, ReadRule::NoRead));
    let mut b = FieldBuilder::new("f");
    b.readonly();
    assert_eq!((b.write_rule, b.read_rule), (WriteRule::NoWrite, ReadRule::Read));
    let mut b = FieldBuilder::new("f");
    b.writeonly();
    assert_eq!(
        (b.write_rule, b.read_rule, b.query_ability),
        (WriteRule::Write, ReadRule::NoRead, QueryAbility::Unqueryable)
    );
    assert_eq!(b.write_once().write_rule, WriteRule::WriteOnce);
    assert_eq!(b.write_on_create().write_rule, WriteRule::WriteOnCreate);
    assert_eq!(b.write_nonnull().write_rule, WriteRule::WriteNonNull);
    assert!(matches!(b.unique().index, FieldIndex::Unique));
    assert!(matches!(b.compound_unique("k").index, FieldIndex::CompoundUnique("k")));
    assert!(matches!(b.index().index, FieldIndex::Index));
    assert!(matches!(b.compound_index("j").index, FieldIndex::CompoundIndex("j")));
    assert_eq!(b.optional().availability, Availability::Optional);
    assert_eq!(b.required().availability, Availability::Required);
    assert!(matches!(b.linked_by("authorId").store, Store::ForeignKey("authorId")));
    assert!(matches!(b.link_to().store, Store::LocalKey));
    assert!(matches!(b.temp().store, Store::Temp));
    let mut b = FieldBuilder::new("f");
    b.calculated();
    assert!(matches!(b.store, Store::Calculated));
    assert_eq!(b.write_rule, WriteRule::NoWrite);
    assert_eq!(b.copy().object_assignment, ObjectAssignment::Copy);
    assert!(b.auth_identity().auth_identity);
    let mut b = FieldBuilder::new("f");
    b.assigned_by_database();
    assert!(b.assigned_by_database && !b.auto_increment);
    let mut b = FieldBuilder::new("f");
    b.auto_increment();
    assert!(b.assigned_by_database && b.auto_increment);
    let mut b = FieldBuilder::new("f");
    b.u8().assign_identity();
    assert!(matches!(b.field_type, FieldType::U8));
    assert!(!b.auth_identity);
}

struct Seven {}

impl FnArgument for Seven {
    fn call(&self, _object: &Object) -> Value {
        Value::U8(7)
    }
}

#[test]
fn hooks_and_defaults_are_set() {
    let mut b = FieldBuilder::new("f");
    b.on_set(|p| {
        p.push(Step::Exists);
    })
    .on_set(|p| {
        p.push(Step::Reverse);
    })
    .on_save(|p| {
        p.push(Step::GetObject);
    })
    .on_output(|p| {
        p.push(Step::Exists);
        p.push(Step::Exists);
        p.push(Step::Exists);
    });
    assert_eq!(b.on_set_pipeline.steps.len(), 2);
    assert!(matches!(b.on_set_pipeline.steps[1], Step::Reverse));
    assert_eq!(b.on_save_pipeline.steps.len(), 1);
    assert_eq!(b.on_output_pipeline.steps.len(), 3);
    b.default(Value::I32(5));
    assert!(matches!(b.default, Some(Argument::ValueArgument(Value::I32(5)))));
    b.default_by_pipeline(|p| {
        p.push(Step::Literal(Value::Null));
    });
    match &b.default {
        Some(Argument::PipelineArgument(p)) => assert_eq!(p.steps.len(), 1),
        _ => panic!("no pipeline"),
    }
    b.default_by_fn(Box::new(Seven {}));
    assert!(matches!(b.default, Some(Argument::FunctionArgument(_))));
}

#[test]
fn field_is_what_its_builder_describes() {
    let mut b = FieldBuilder::new("age");
    b.localized_name("Alter");
    b.u8().optional().unique().copy().auto_increment();
    let f = Field::new(b);
    assert_eq!(f.name(), "age");
    assert_eq!(f.localized_name, "Alter");
    assert!(matches!(f.field_type(), FieldType::U8));
    assert!(f.is_optional() && !f.is_required());
    assert!(matches!(f.index, FieldIndex::Unique));
    assert_eq!(f.object_assignment, ObjectAssignment::Copy);
    assert!(f.assigned_by_database && f.auto_increment);
}

#[test]
fn copy_decorator_sets_the_assignment() {
    let mut b = FieldBuilder::new("f");
    b.string();
    copy_decorator(vec![Argument::ValueArgument(Value::Null)], &mut b);
    assert_eq!(b.object_assignment, ObjectAssignment::Copy);
    assert!(matches!(b.field_type, FieldType::String));
}

#[test]
fn filters_follow_the_type() {
    assert_eq!(FieldType::Undefined.filters(), FilterClass::Nothing);
    assert_eq!(FieldType::Object("User").filters(), FilterClass::Nothing);
    assert_eq!(FieldType::Bool.filters(), FilterClass::Plain);
    assert_eq!(FieldType::String.filters(), FilterClass::Text);
    for ty in [FieldType::I8, FieldType::U128, FieldType::F64, FieldType::Decimal, FieldType::Date,
        FieldType::DateTime, FieldType::ObjectId, FieldType::Enum("E")] {
        assert_eq!(ty.filters(), FilterClass::Ordered);
    }
    let mut e = FieldBuilder::new("");
    e.bool();
    assert_eq!(FieldType::BTreeSet(Box::new(Field::new(e))).filters(), FilterClass::Collection);
    assert!(Store::Embedded.is_scalar() && Store::Calculated.is_scalar() && !Store::Temp.is_scalar());
    assert!(Store::LocalKey.is_scalar() && Store::ForeignKey("k").is_scalar());
}

fn finish(b: impl Into<DatabaseType>) -> DatabaseType {
    b.into()
}

fn name(s: &str) -> Option<String> {
    Some(s.to_string())
}

#[test]
fn column_types_start_undefined() {
    assert_eq!(finish(DatabaseTypeBuilder::new()), DatabaseType::Undefined);
    assert_eq!(finish(DatabaseTypeTerminationBuilder::new(DatabaseType::Date)), DatabaseType::Date);
    assert_eq!(finish(StringTypeBuilder::new(DatabaseType::Real)), DatabaseType::Real);
    assert_eq!(finish(SignedIntegerTypeBuilder::new(DatabaseType::Int(true))), DatabaseType::Int(true));
    assert_eq!(finish(DateTimeTypeBuilder::new(DatabaseType::Time(3, false))), DatabaseType::Time(3, false));
}

#[test]
fn integer_columns_may_become_unsigned() {
    let mut b = DatabaseTypeBuilder::new();
    assert_eq!(finish(b.tiny_int()), DatabaseType::TinyInt(false));
    assert_eq!(finish(b.small_int()), DatabaseType::SmallInt(false));
    assert_eq!(finish(b.medium_int()), DatabaseType::MediumInt(false));
    assert_eq!(finish(b.integer()), DatabaseType::Int(false));
    assert_eq!(finish(b.big_int()), DatabaseType::BigInt(false));
    assert_eq!(finish(b.tiny_int().unsigned()), DatabaseType::TinyInt(true));
    assert_eq!(finish(b.small_int().unsigned()), DatabaseType::SmallInt(true));
    assert_eq!(finish(b.medium_int().unsigned()), DatabaseType::MediumInt(true));
    assert_eq!(finish(b.integer().unsigned()), DatabaseType::Int(true));
    assert_eq!(finish(b.big_int().unsigned()), DatabaseType::BigInt(true));
    assert_eq!(finish(SignedIntegerTypeBuilder::new(DatabaseType::Double).unsigned()), DatabaseType::Double);
    assert_eq!(finish(b), DatabaseType::Undefined);
}

#[test]
fn number_and_time_columns() {
    let mut b = DatabaseTypeBuilder::new();
    assert_eq!(finish(b.real_number()), DatabaseType::Real);
    assert_eq!(finish(b.double()), DatabaseType::Double);
    assert_eq!(finish(b.float(24)), DatabaseType::Float(24));
    assert_eq!(finish(b.date()), DatabaseType::Date);
    assert_eq!(finish(b.timestamp(6)), DatabaseType::Timestamp(6, false));
    assert_eq!(finish(b.timestamp(6).with_timezone()), DatabaseType::Timestamp(6, true));
    assert_eq!(
        finish(DateTimeTypeBuilder::new(DatabaseType::Time(2, false)).with_timezone()),
        DatabaseType::Time(2, true)
    );
    assert_eq!(
        finish(DateTimeTypeBuilder::new(DatabaseType::Date).with_timezone()),
        DatabaseType::Date
    );
}

#[test]
fn character_columns_take_a_charset_and_a_collation() {
    let mut b = DatabaseTypeBuilder::new();
    assert_eq!(finish(b.char(8)), DatabaseType::Char(8, None, None));
    assert_eq!(finish(b.var_char(300)), DatabaseType::VarChar(300, None, None));
    assert_eq!(finish(b.tiny_text()), DatabaseType::TinyText(None, None));
    assert_eq!(finish(b.medium_text()), DatabaseType::MediumText(None, None));
    assert_eq!(finish(b.long_text()), DatabaseType::LongText(None, None));
    assert_eq!(finish(b.text()), DatabaseType::Text(None, None, None));
    assert_eq!(finish(b.char(8).charset("utf8mb4")), DatabaseType::Char(8, name("utf8mb4"), None));
    assert_eq!(
        finish(b.var_char(9).charset("latin1").collation("latin1_bin")),
        DatabaseType::VarChar(9, name("latin1"), name("latin1_bin"))
    );
    assert_eq!(finish(b.tiny_text().collation("c")), DatabaseType::TinyText(None, name("c")));
    assert_eq!(
        finish(b.medium_text().charset("a").charset("b")),
        DatabaseType::MediumText(name("b"), None)
    );
    assert_eq!(
        finish(b.long_text().charset("a").collation("c")),
        DatabaseType::LongText(name("a"), name("c"))
    );
    assert_eq!(
        finish(StringTypeBuilder::new(DatabaseType::Text(Some(5), None, name("old"))).charset("a")),
        DatabaseType::Text(Some(5), name("a"), name("old"))
    );
    assert_eq!(
        finish(StringTypeBuilder::new(DatabaseType::Text(Some(5), name("a"), name("old"))).collation("new")),
        DatabaseType::Text(Some(5), name("a"), name("new"))
    );
    assert_eq!(finish(StringTypeBuilder::new(DatabaseType::Int(false)).charset("a")), DatabaseType::Int(false));
    assert_eq!(finish(StringTypeBuilder::new(DatabaseType::Date).collation("a")), DatabaseType::Date);
    let column = DatabaseType::Char(1, name("a"), None);
    assert_eq!(column.duplicate(), column);
}
