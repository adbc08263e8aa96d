//! The fluent builder of a field.

use crate::argument::Argument;
use crate::argument::FnArgument;
use crate::field::built;
use crate::field::Availability;
use crate::field::Field;
use crate::field::FieldIndex;
use crate::field::FieldType;
use crate::field::ObjectAssignment;
use crate::field::QueryAbility;
use crate::field::ReadRule;
use crate::field::Store;
use crate::field::WriteRule;
use crate::pipeline::Pipeline;
use crate::value::Value;
use vstd::prelude::*;

verus! {

pub struct FieldBuilder {
    pub name: &'static str,
    pub localized_name: &'static str,
    pub description: &'static str,
    pub field_type: FieldType,
    pub availability: Availability,
    pub store: Store,
    pub primary: bool,
    pub read_rule: ReadRule,
    pub write_rule: WriteRule,
    pub index: FieldIndex,
    pub query_ability: QueryAbility,
    pub object_assignment: ObjectAssignment,
    pub assigned_by_database: bool,
    pub auto_increment: bool,
    pub auth_identity: bool,
    pub default: Option<Argument>,
    pub on_set_pipeline: Pipeline,
    pub on_save_pipeline: Pipeline,
    pub on_output_pipeline: Pipeline,
}

impl FieldBuilder {
    /// Whether the builder is as `new` leaves it: a required, embedded field
    /// of no type yet, which requests read, write and query, without index,
    /// default or pipelines.
    pub open spec fn is_fresh(&self, name: &'static str) -> bool {
        &&& self.name == name
        &&& self.localized_name == ""
        &&& self.description == ""
        &&& self.field_type is Undefined
        &&& self.availability == Availability::Required
        &&& self.store is Embedded
        &&& !self.primary
        &&& self.read_rule == ReadRule::Read
        &&& self.write_rule == WriteRule::Write
        &&& self.index is NoIndex
        &&& self.query_ability == QueryAbility::Queryable
        &&& self.object_assignment == ObjectAssignment::Reference
        &&& !self.assigned_by_database
        &&& !self.auto_increment
        &&& !self.auth_identity
        &&& self.default is None
        &&& self.on_set_pipeline.steps@.len() == 0
        &&& self.on_save_pipeline.steps@.len() == 0
        &&& self.on_output_pipeline.steps@.len() == 0
    }

    pub fn new(name: &'static str) -> (b: Self)
        ensures
            b.is_fresh(name),
    {
        FieldBuilder {
            name,
            localized_name: "",
            description: "",
            field_type: FieldType::Undefined,
            availability: Availability::Required,
            store: Store::Embedded,
            primary: false,
            read_rule: ReadRule::Read,
            write_rule: WriteRule::Write,
            index: FieldIndex::NoIndex,
            query_ability: QueryAbility::Queryable,
            object_assignment: ObjectAssignment::Reference,
            assigned_by_database: false,
            auto_increment: false,
            auth_identity: false,
            default: None,
            on_set_pipeline: Pipeline::new(),
            on_save_pipeline: Pipeline::new(),
            on_output_pipeline: Pipeline::new(),
        }
    }

    pub fn localized_name(&mut self, localized_name: &'static str)
        ensures
            *final(self) == (FieldBuilder { localized_name, ..*old(self) }),
    {
        self.localized_name = localized_name;
    }

    pub fn description(&mut self, description: &'static str)
        ensures
            *final(self) == (FieldBuilder { description, ..*old(self) }),
    {
        self.description = description;
    }

    pub fn object_id(&mut self) -> (r: &mut Self)
        ensures
            *r == (FieldBuilder { field_type: FieldType::ObjectId, ..*old(self) }),
            *final(self) == *final(r),
    {
        self.field_type = FieldType::ObjectId;
        self
    }

    pub fn bool(&mut self) -> (r: &mut Self)
        ensures
            *r == (FieldBuilder { field_type: FieldType::Bool, ..*old(self) }),
            *final(self) == *final(r),
    {
        self.field_type = FieldType::Bool;
        self
    }

    pub fn i8(&mut self) -> (r: &mut Self)
        ensures
            *r == (FieldBuilder { field_type: FieldType::I8, ..*old(self) }),
            *final(self) == *final(r),
    {
        self.field_type = FieldType::I8;
        self
    }

    pub fn i16(&mut self) -> (r: &mut Self)
        ensures
            *r == (FieldBuilder { field_type: FieldType::I16, ..*old(self) }),
            *final(self) == *final(r),
    {
        self.field_type = FieldType::I16;
        self
    }

    pub fn i32(&mut self) -> (r: &mut Self)
        ensures
            *r == (FieldBuilder { field_type: FieldType::I32, ..*old(self) }),
            *final(self) == *final(r),
    {
        self.field_type = FieldType::I32;
        self
    }

    pub fn i64(&mut self) -> (r: &mut Self)
        ensures
            *r == (FieldBuilder { field_type: FieldType::I64, ..*old(self) }),
            *final(self) == *final(r),
    {
        self.field_type = FieldType::I64;
        self
    }

    pub fn i128(&mut self) -> (r: &mut Self)
        ensures
            *r == (FieldBuilder { field_type: FieldType::I128, ..*old(self) }),
            *final(self) == *final(r),
    {
        self.field_type = FieldType::I128;
        self
    }

    pub fn u8(&mut self) -> (r: &mut Self)
        ensures
            *r == (FieldBuilder { field_type: FieldType::U8, ..*old(self) }),
            *final(self) == *final(r),
    {
        self.field_type = FieldType::U8;
        self
    }

    pub fn u16(&mut self) -> (r: &mut Self)
        ensures
            *r == (FieldBuilder { field_type: FieldType::U16, ..*old(self) }),
            *final(self) == *final(r),
    {
        self.field_type = FieldType::U16;
        self
    }

    pub fn u32(&mut self) -> (r: &mut Self)
        ensures
            *r == (FieldBuilder { field_type: FieldType::U32, ..*old(self) }),
            *final(self) == *final(r),
    {
        self.field_type = FieldType::U32;
        self
    }

    pub fn u64(&mut self) -> (r: &mut Self)
        ensures
            *r == (FieldBuilder { field_type: FieldType::U64, ..*old(self) }),
            *final(self) == *final(r),
    {
        self.field_type = FieldType::U64;
        self
    }

    pub fn u128(&mut self) -> (r: &mut Self)
        ensures
            *r == (FieldBuilder { field_type: FieldType::U128, ..*old(self) }),
            *final(self) == *final(r),
    {
        self.field_type = FieldType::U128;
        self
    }

    /// The field holds single precision floats.
    pub fn float32(&mut self) -> (r: &mut Self)
        ensures
            *r == (FieldBuilder { field_type: FieldType::F32, ..*old(self) }),
            *final(self) == *final(r),
    {
        self.field_type = FieldType::F32;
        self
    }

    /// The field holds double precision floats.
    pub fn float64(&mut self) -> (r: &mut Self)
        ensures
            *r == (FieldBuilder { field_type: FieldType::F64, ..*old(self) }),
            *final(self) == *final(r),
    {
        self.field_type = FieldType::F64;
        self
    }

    pub fn decimal(&mut self) -> (r: &mut Self)
        ensures
            *r == (FieldBuilder { field_type: FieldType::Decimal, ..*old(self) }),
            *final(self) == *final(r),
    {
        self.field_type = FieldType::Decimal;
        self
    }

    pub fn string(&mut self) -> (r: &mut Self)
        ensures
            *r == (FieldBuilder { field_type: FieldType::String, ..*old(self) }),
            *final(self) == *final(r),
    {
        self.field_type = FieldType::String;
        self
    }

    pub fn date(&mut self) -> (r: &mut Self)
        ensures
            *r == (FieldBuilder { field_type: FieldType::Date, ..*old(self) }),
            *final(self) == *final(r),
    {
        self.field_type = FieldType::Date;
        self
    }

    pub fn datetime(&mut self) -> (r: &mut Self)
        ensures
            *r == (FieldBuilder { field_type: FieldType::DateTime, ..*old(self) }),
            *final(self) == *final(r),
    {
        self.field_type = FieldType::DateTime;
        self
    }

    /// The field holds one of the values of the enum of the name.
    pub fn enumeration(&mut self, name: &'static str) -> (r: &mut Self)
        ensures
            *r == (FieldBuilder { field_type: FieldType::Enum(name), ..*old(self) }),
            *final(self) == *final(r),
    {
        self.field_type = FieldType::Enum(name);
        self
    }

    pub fn object(&mut self, model: &'static str) -> (r: &mut Self)
        ensures
            *r == (FieldBuilder { field_type: FieldType::Object(model), ..*old(self) }),
            *final(self) == *final(r),
    {
        self.field_type = FieldType::Object(model);
        self
    }

    pub fn primary(&mut self) -> (r: &mut Self)
        ensures
            *r == (FieldBuilder { primary: true, ..*old(self) }),
            *final(self) == *final(r),
    {
        self.primary = true;
        self
    }

    /// Neither read nor written by requests.
    pub fn internal(&mut self) -> (r: &mut Self)
        ensures
            *r == (FieldBuilder { write_rule: WriteRule::NoWrite, read_rule: ReadRule::NoRead, ..*old(self) }),
            *final(self) == *final(r),
    {
        self.write_rule = WriteRule::NoWrite;
        self.read_rule = ReadRule::NoRead;
        self
    }

    pub fn readonly(&mut self) -> (r: &mut Self)
        ensures
            *r == (FieldBuilder { write_rule: WriteRule::NoWrite, ..*old(self) }),
            *final(self) == *final(r),
    {
        self.write_rule = WriteRule::NoWrite;
        self
    }

    /// Written by requests, and neither shown nor named in filters.
    pub fn writeonly(&mut self) -> (r: &mut Self)
        ensures
            *r == (FieldBuilder { read_rule: ReadRule::NoRead, query_ability: QueryAbility::Unqueryable, ..*old(self) }),
            *final(self) == *final(r),
    {
        self.read_rule = ReadRule::NoRead;
        self.query_ability = QueryAbility::Unqueryable;
        self
    }

    pub fn write_once(&mut self) -> (r: &mut Self)
        ensures
            *r == (FieldBuilder { write_rule: WriteRule::WriteOnce, ..*old(self) }),
            *final(self) == *final(r),
    {
        self.write_rule = WriteRule::WriteOnce;
        self
    }

    pub fn write_on_create(&mut self) -> (r: &mut Self)
        ensures
            *r == (FieldBuilder { write_rule: WriteRule::WriteOnCreate, ..*old(self) }),
            *final(self) == *final(r),
    {
        self.write_rule = WriteRule::WriteOnCreate;
        self
    }

    pub fn write_nonnull(&mut self) -> (r: &mut Self)
        ensures
            *r == (FieldBuilder { write_rule: WriteRule::WriteNonNull, ..*old(self) }),
            *final(self) == *final(r),
    {
        self.write_rule = WriteRule::WriteNonNull;
        self
    }

    pub fn unique(&mut self) -> (r: &mut Self)
        ensures
            *r == (FieldBuilder { index: FieldIndex::Unique, ..*old(self) }),
            *final(self) == *final(r),
    {
        self.index = FieldIndex::Unique;
        self
    }

    pub fn compound_unique(&mut self, key: &'static str) -> (r: &mut Self)
        ensures
            *r == (FieldBuilder { index: FieldIndex::CompoundUnique(key), ..*old(self) }),
            *final(self) == *final(r),
    {
        self.index = FieldIndex::CompoundUnique(key);
        self
    }

    pub fn index(&mut self) -> (r: &mut Self)
        ensures
            *r == (FieldBuilder { index: FieldIndex::Index, ..*old(self) }),
            *final(self) == *final(r),
    {
        self.index = FieldIndex::Index;
        self
    }

    pub fn compound_index(&mut self, key: &'static str) -> (r: &mut Self)
        ensures
            *r == (FieldBuilder { index: FieldIndex::CompoundIndex(key), ..*old(self) }),
            *final(self) == *final(r),
    {
        self.index = FieldIndex::CompoundIndex(key);
        self
    }

    pub fn optional(&mut self) -> (r: &mut Self)
        ensures
            *r == (FieldBuilder { availability: Availability::Optional, ..*old(self) }),
            *final(self) == *final(r),
    {
        self.availability = Availability::Optional;
        self
    }

    pub fn required(&mut self) -> (r: &mut Self)
        ensures
            *r == (FieldBuilder { availability: Availability::Required, ..*old(self) }),
            *final(self) == *final(r),
    {
        self.availability = Availability::Required;
        self
    }

    /// The value lives in a related object, under the field named.
    pub fn linked_by(&mut self, field: &'static str) -> (r: &mut Self)
        ensures
            *r == (FieldBuilder { store: Store::ForeignKey(field), ..*old(self) }),
            *final(self) == *final(r),
    {
        self.store = Store::ForeignKey(field);
        self
    }

    /// The value lives in the object, as the key of a relation.
    pub fn link_to(&mut self) -> (r: &mut Self)
        ensures
            *r == (FieldBuilder { store: Store::LocalKey, ..*old(self) }),
            *final(self) == *final(r),
    {
        self.store = Store::LocalKey;
        self
    }

    pub fn temp(&mut self) -> (r: &mut Self)
        ensures
            *r == (FieldBuilder { store: Store::Temp, ..*old(self) }),
            *final(self) == *final(r),
    {
        self.store = Store::Temp;
        self
    }

    /// The value is computed on each read, so requests cannot write it.
    pub fn calculated(&mut self) -> (r: &mut Self)
        ensures
            *r == (FieldBuilder { store: Store::Calculated, write_rule: WriteRule::NoWrite, ..*old(self) }),
            *final(self) == *final(r),
    {
        self.store = Store::Calculated;
        self.write_rule = WriteRule::NoWrite;
        self
    }

    pub fn copy(&mut self) -> (r: &mut Self)
        ensures
            *r == (FieldBuilder { object_assignment: ObjectAssignment::Copy, ..*old(self) }),
            *final(self) == *final(r),
    {
        self.object_assignment = ObjectAssignment::Copy;
        self
    }

    pub fn auth_identity(&mut self) -> (r: &mut Self)
        ensures
            *r == (FieldBuilder { auth_identity: true, ..*old(self) }),
            *final(self) == *final(r),
    {
        self.auth_identity = true;
        self
    }

    pub fn assigned_by_database(&mut self) -> (r: &mut Self)
        ensures
            *r == (FieldBuilder { assigned_by_database: true, ..*old(self) }),
            *final(self) == *final(r),
    {
        self.assigned_by_database = true;
        self
    }

    /// The database assigns the next number of a sequence.
    pub fn auto_increment(&mut self) -> (r: &mut Self)
        ensures
            *r == (FieldBuilder { assigned_by_database: true, auto_increment: true, ..*old(self) }),
            *final(self) == *final(r),
    {
        self.assigned_by_database = true;
        self.auto_increment = true;
        self
    }

    /// The value of the field where a new object has none.
    pub fn default(&mut self, value: Value) -> (r: &mut Self)
        ensures
            *r == (FieldBuilder { default: Some(Argument::ValueArgument(value)), ..*old(self) }),
            *final(self) == *final(r),
    {
        self.default = Some(Argument::ValueArgument(value));
        self
    }

    /// The function that provides the value of the field where a new object
    /// has none.
    pub fn default_by_fn(&mut self, function: Box<dyn FnArgument>) -> (r: &mut Self)
        ensures
            *r == (FieldBuilder { default: Some(Argument::FunctionArgument(function)), ..*old(self) }),
            *final(self) == *final(r),
    {
        self.default = Some(Argument::FunctionArgument(function));
        self
    }

    /// The field holds lists of what the inner builder describes once
    /// `build` has worked on it.
    pub fn vec<F: Fn(&mut FieldBuilder)>(&mut self, build: F) -> (r: &mut Self)
        requires
            forall|b: &mut FieldBuilder| b.is_fresh("") ==> call_requires(build, (b,)),
        ensures
            exists|b: &mut FieldBuilder|
                b.is_fresh("") && call_ensures(build, (b,), ()) && *r == (FieldBuilder {
                    field_type: FieldType::Vec(Box::new(built(*final(b)))),
                    ..*old(self)
                }),
            *final(self) == *final(r),
    {
        let mut builder = FieldBuilder::new("");
        build(&mut builder);
        let field = Field::new(builder);
        self.field_type = FieldType::Vec(Box::new(field));
        self
    }

    /// The field holds maps, keyed by strings, of what the inner builder
    /// describes once `build` has worked on it.
    pub fn map<F: Fn(&mut FieldBuilder)>(&mut self, build: F) -> (r: &mut Self)
        requires
            forall|b: &mut FieldBuilder| b.is_fresh("") ==> call_requires(build, (b,)),
        ensures
            exists|b: &mut FieldBuilder|
                b.is_fresh("") && call_ensures(build, (b,), ()) && *r == (FieldBuilder {
                    field_type: FieldType::HashMap(Box::new(built(*final(b)))),
                    ..*old(self)
                }),
            *final(self) == *final(r),
    {
        let mut builder = FieldBuilder::new("");
        build(&mut builder);
        let field = Field::new(builder);
        self.field_type = FieldType::HashMap(Box::new(field));
        self
    }

    /// Lets `build` work on the pipeline that runs when the field is set.
    pub fn on_set<F: Fn(&mut Pipeline)>(&mut self, build: F) -> (r: &mut Self)
        requires
            forall|p: &mut Pipeline| call_requires(build, (p,)),
        ensures
            exists|p: &mut Pipeline|
                *p == old(self).on_set_pipeline && call_ensures(build, (p,), ()) && *r == (FieldBuilder {
                    on_set_pipeline: *final(p),
                    ..*old(self)
                }),
            *final(self) == *final(r),
    {
        build(&mut self.on_set_pipeline);
        self
    }

    /// Lets `build` work on the pipeline that runs when the object is saved.
    pub fn on_save<F: Fn(&mut Pipeline)>(&mut self, build: F) -> (r: &mut Self)
        requires
            forall|p: &mut Pipeline| call_requires(build, (p,)),
        ensures
            exists|p: &mut Pipeline|
                *p == old(self).on_save_pipeline && call_ensures(build, (p,), ()) && *r == (FieldBuilder {
                    on_save_pipeline: *final(p),
                    ..*old(self)
                }),
            *final(self) == *final(r),
    {
        build(&mut self.on_save_pipeline);
        self
    }

    /// Lets `build` work on the pipeline that runs when the field is shown.
    pub fn on_output<F: Fn(&mut Pipeline)>(&mut self, build: F) -> (r: &mut Self)
        requires
            forall|p: &mut Pipeline| call_requires(build, (p,)),
        ensures
            exists|p: &mut Pipeline|
                *p == old(self).on_output_pipeline && call_ensures(build, (p,), ()) && *r == (FieldBuilder {
                    on_output_pipeline: *final(p),
                    ..*old(self)
                }),
            *final(self) == *final(r),
    {
        build(&mut self.on_output_pipeline);
        self
    }

    /// The default of the field is what the pipeline yields that `build`
    /// makes of an empty one.
    pub fn default_by_pipeline<F: Fn(&mut Pipeline)>(&mut self, build: F) -> (r: &mut Self)
        requires
            forall|p: &mut Pipeline| call_requires(build, (p,)),
        ensures
            exists|p: &mut Pipeline|
                p.steps@.len() == 0 && call_ensures(build, (p,), ()) && *r == (FieldBuilder {
                    default: Some(Argument::PipelineArgument(*final(p))),
                    ..*old(self)
                }),
            *final(self) == *final(r),
    {
        let mut pipeline = Pipeline::new();
        build(&mut pipeline);
        self.default = Some(Argument::PipelineArgument(pipeline));
        self
    }

    /// Where the value is assigned from the identity of the request; not in
    /// use, so the builder stays as it is.
    pub fn assign_identity(&mut self) -> (r: &mut Self)
        ensures
            *r == *old(self),
            *final(self) == *final(r),
    {
        self
    }
}

} // verus!
