//! Fields of a model and the rules that govern them.

use crate::argument::Argument;
use crate::field_builder::FieldBuilder;
use crate::pipeline::Pipeline;
use crate::text::same_text;
use vstd::prelude::*;

verus! {

#[derive(Clone, Copy, Debug, PartialEq, Eq, Structural)]
pub enum Availability {
    Required,
    Optional,
}

impl Availability {
    pub fn is_optional(&self) -> (r: bool)
        ensures
            r == (*self == Availability::Optional),
    {
        match self {
            Availability::Optional => true,
            Availability::Required => false,
        }
    }

    pub fn is_required(&self) -> (r: bool)
        ensures
            r == (*self == Availability::Required),
    {
        match self {
            Availability::Required => true,
            Availability::Optional => false,
        }
    }
}

/// Where the value of a field lives.
#[derive(Clone, Copy, Debug)]
pub enum Store {
    /// In the record of the object itself.
    Embedded,
    /// In the record of the object, as the key of a relation.
    LocalKey,
    /// In the record of a related object, under the field named.
    ForeignKey(&'static str),
    /// Nowhere: the value lives until the object is saved.
    Temp,
    /// Nowhere: the value is computed each time it is read.
    Calculated,
}

#[derive(Clone, Copy, Debug, PartialEq, Eq, Structural)]
pub enum ReadRule {
    Read,
    NoRead,
}

#[derive(Clone, Copy, Debug, PartialEq, Eq, Structural)]
pub enum WriteRule {
    Write,
    NoWrite,
    /// Writable until it holds a stored value that is not `Null`.
    WriteOnce,
    /// Writable while the object is new.
    WriteOnCreate,
    /// Writable with any value but `Null`.
    WriteNonNull,
}

/// How a field is indexed. The compound forms name the index that the field
/// belongs to together with the other fields of that name.
#[derive(Clone, Copy, Debug)]
pub enum FieldIndex {
    NoIndex,
    Index,
    Unique,
    CompoundIndex(&'static str),
    CompoundUnique(&'static str),
}

#[derive(Clone, Copy, Debug, PartialEq, Eq, Structural)]
pub enum QueryAbility {
    Queryable,
    Unqueryable,
}

#[derive(Clone, Copy, Debug, PartialEq, Eq, Structural)]
pub enum ObjectAssignment {
    Reference,
    Copy,
}

/// The type of the values of a field. A collection type holds the field that
/// describes its elements; an enum and an object are held by name.
pub enum FieldType {
    Undefined,
    ObjectId,
    Bool,
    I8,
    I16,
    I32,
    I64,
    I128,
    U8,
    U16,
    U32,
    U64,
    U128,
    F32,
    F64,
    Decimal,
    String,
    Date,
    DateTime,
    Enum(&'static str),
    Vec(Box<Field>),
    HashSet(Box<Field>),
    BTreeSet(Box<Field>),
    HashMap(Box<Field>),
    BTreeMap(Box<Field>),
    Object(&'static str),
}

pub struct Field {
    pub name: &'static str,
    pub localized_name: &'static str,
    pub description: &'static str,
    pub field_type: FieldType,
    pub availability: Availability,
    pub store: Store,
    pub primary: bool,
    pub read_rule: ReadRule,
    pub write_rule: WriteRule,
    pub index: FieldIndex,
    pub query_ability: QueryAbility,
    pub object_assignment: ObjectAssignment,
    pub assigned_by_database: bool,
    pub auto_increment: bool,
    pub auth_identity: bool,
    pub default: Option<Argument>,
    pub on_set_pipeline: Pipeline,
    pub on_save_pipeline: Pipeline,
    pub on_output_pipeline: Pipeline,
}

/// The classes of field types that share a set of filters.
#[derive(Clone, Copy, Debug, PartialEq, Eq, Structural)]
pub enum FilterClass {
    /// No filter applies.
    Nothing,
    /// Only equality can be asked of the value.
    Plain,
    /// The values are ordered.
    Ordered,
    /// The values are text.
    Text,
    /// The values are collections.
    Collection,
}

impl FilterClass {
    /// The closed set of filter keys of the class.
    pub open spec fn allows_key(self, key: Seq<char>) -> bool {
        match self {
            FilterClass::Nothing => false,
            FilterClass::Plain => key == "equals"@ || key == "not"@,
            FilterClass::Ordered => is_ordered_filter(key),
            FilterClass::Text => is_ordered_filter(key) || key == "contains"@ || key
                == "startsWith"@ || key == "endsWith"@ || key == "matches"@ || key == "mode"@,
            FilterClass::Collection => key == "has"@ || key == "hasEvery"@ || key == "hasSome"@
                || key == "isEmpty"@ || key == "length"@,
        }
    }

    /// Whether the class has the filter key.
    pub fn allows(&self, key: &str) -> (r: bool)
        ensures
            r == self.allows_key(key@),
    {
        let plain = same_text(key, "equals") || same_text(key, "not");
        let ordered = plain || same_text(key, "gt") || same_text(key, "gte") || same_text(
            key,
            "lt",
        ) || same_text(key, "lte") || same_text(key, "in") || same_text(key, "notIn");
        match self {
            FilterClass::Nothing => false,
            FilterClass::Plain => plain,
            FilterClass::Ordered => ordered,
            FilterClass::Text => ordered || same_text(key, "contains") || same_text(
                key,
                "startsWith",
            ) || same_text(key, "endsWith") || same_text(key, "matches") || same_text(key, "mode"),
            FilterClass::Collection => same_text(key, "has") || same_text(key, "hasEvery")
                || same_text(key, "hasSome") || same_text(key, "isEmpty") || same_text(
                key,
                "length",
            ),
        }
    }
}

/// Whether the key is a filter of ordered values.
pub open spec fn is_ordered_filter(key: Seq<char>) -> bool {
    key == "equals"@ || key == "not"@ || key == "gt"@ || key == "gte"@ || key == "lt"@ || key
        == "lte"@ || key == "in"@ || key == "notIn"@
}

impl FieldType {
    /// The class whose filters apply to values of the type.
    pub open spec fn spec_filters(&self) -> FilterClass {
        match self {
            FieldType::Undefined | FieldType::Object(_) => FilterClass::Nothing,
            FieldType::Bool => FilterClass::Plain,
            FieldType::String => FilterClass::Text,
            FieldType::Vec(_)
            | FieldType::HashSet(_)
            | FieldType::BTreeSet(_)
            | FieldType::HashMap(_)
            | FieldType::BTreeMap(_) => FilterClass::Collection,
            _ => FilterClass::Ordered,
        }
    }

    /// The field that describes the elements of a collection type.
    pub open spec fn spec_element_field(&self) -> Option<Field> {
        match self {
            FieldType::Vec(f)
            | FieldType::HashSet(f)
            | FieldType::BTreeSet(f)
            | FieldType::HashMap(f)
            | FieldType::BTreeMap(f) => Some(**f),
            _ => None,
        }
    }

    pub fn filters(&self) -> (r: FilterClass)
        ensures
            r == self.spec_filters(),
    {
        match self {
            FieldType::Undefined | FieldType::Object(_) => FilterClass::Nothing,
            FieldType::Bool => FilterClass::Plain,
            FieldType::String => FilterClass::Text,
            FieldType::Vec(_)
            | FieldType::HashSet(_)
            | FieldType::BTreeSet(_)
            | FieldType::HashMap(_)
            | FieldType::BTreeMap(_) => FilterClass::Collection,
            _ => FilterClass::Ordered,
        }
    }

    pub fn element_field(&self) -> (r: Option<&Field>)
        ensures
            match r {
                Some(f) => self.spec_element_field() == Some(*f),
                None => self.spec_element_field() is None,
            },
    {
        match self {
            FieldType::Vec(f)
            | FieldType::HashSet(f)
            | FieldType::BTreeSet(f)
            | FieldType::HashMap(f)
            | FieldType::BTreeMap(f) => Some(f),
            _ => None,
        }
    }
}

impl Store {
    /// Whether a field so stored is one of the scalar keys of its model.
    pub open spec fn spec_is_scalar(self) -> bool {
        !(self is Temp)
    }

    pub fn is_scalar(&self) -> (r: bool)
        ensures
            r == self.spec_is_scalar(),
    {
        match self {
            Store::Temp => false,
            _ => true,
        }
    }
}

/// The field that a builder describes.
pub open spec fn built(builder: FieldBuilder) -> Field {
    Field {
        name: builder.name,
        localized_name: builder.localized_name,
        description: builder.description,
        field_type: builder.field_type,
        availability: builder.availability,
        store: builder.store,
        primary: builder.primary,
        read_rule: builder.read_rule,
        write_rule: builder.write_rule,
        index: builder.index,
        query_ability: builder.query_ability,
        object_assignment: builder.object_assignment,
        assigned_by_database: builder.assigned_by_database,
        auto_increment: builder.auto_increment,
        auth_identity: builder.auth_identity,
        default: builder.default,
        on_set_pipeline: builder.on_set_pipeline,
        on_save_pipeline: builder.on_save_pipeline,
        on_output_pipeline: builder.on_output_pipeline,
    }
}

impl Field {
    /// The field that a builder describes.
    pub fn new(builder: FieldBuilder) -> (f: Field)
        ensures
            f == built(builder),
    {
        Field {
            name: builder.name,
            localized_name: builder.localized_name,
            description: builder.description,
            field_type: builder.field_type,
            availability: builder.availability,
            store: builder.store,
            primary: builder.primary,
            read_rule: builder.read_rule,
            write_rule: builder.write_rule,
            index: builder.index,
            query_ability: builder.query_ability,
            object_assignment: builder.object_assignment,
            assigned_by_database: builder.assigned_by_database,
            auto_increment: builder.auto_increment,
            auth_identity: builder.auth_identity,
            default: builder.default,
            on_set_pipeline: builder.on_set_pipeline,
            on_save_pipeline: builder.on_save_pipeline,
            on_output_pipeline: builder.on_output_pipeline,
        }
    }

    pub fn name(&self) -> (r: &'static str)
        ensures
            r == self.name,
    {
        self.name
    }

    pub fn field_type(&self) -> (r: &FieldType)
        ensures
            *r == self.field_type,
    {
        &self.field_type
    }

    /// Whether the field takes `Null`.
    pub open spec fn spec_is_optional(&self) -> bool {
        self.availability == Availability::Optional
    }

    pub fn is_optional(&self) -> (r: bool)
        ensures
            r == self.spec_is_optional(),
    {
        self.availability.is_optional()
    }

    pub fn is_required(&self) -> (r: bool)
        ensures
            r == (self.availability == Availability::Required),
    {
        self.availability.is_required()
    }
}

} // verus!
