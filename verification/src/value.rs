//! The typed value to which every request is lowered before any rule runs.

use crate::action::ActionType;
use crate::json::Number;
use crate::path::path_copy;
use crate::path::path_items;
use crate::path::path_same;
use crate::path::Segment;
use crate::text::names_copy;
use crate::text::names_same;
use crate::text::names_view;
use crate::text::pairs_copy;
use crate::text::pairs_same;
use crate::text::pairs_view;
use key_path::KeyPath;
use vstd::prelude::*;

verus! {

/// A decimal number: `mantissa` divided by ten to the power `scale`.
#[derive(Clone, Copy, Debug, PartialEq, Eq, Structural)]
pub struct Decimal {
    pub mantissa: i128,
    pub scale: u32,
}

/// A calendar date in UTC.
#[derive(Clone, Copy, Debug, PartialEq, Eq, Structural)]
pub struct Date {
    pub year: i32,
    pub month: u32,
    pub day: u32,
}

/// An instant in UTC: whole seconds since the Unix epoch, and the nanoseconds
/// past that second.
#[derive(Clone, Copy, Debug, PartialEq, Eq, Structural)]
pub struct DateTime {
    pub seconds: i64,
    pub nanos: u32,
}

/// A typed value.
///
/// `F32` and `F64` keep the number as it was read; it is rounded to a binary
/// float only where one is stored. A set holds no value twice. A map holds no
/// key twice; `HashMap` keeps its entries in the order in which their keys
/// first came, `BTreeMap` in the order of its keys.
#[derive(Debug, PartialEq)]
pub enum Value {
    Null,
    ObjectId([u8; 12]),
    Bool(bool),
    I8(i8),
    I16(i16),
    I32(i32),
    I64(i64),
    I128(i128),
    U8(u8),
    U16(u16),
    U32(u32),
    U64(u64),
    U128(u128),
    F32(Number),
    F64(Number),
    Decimal(Decimal),
    String(String),
    Date(Date),
    DateTime(DateTime),
    Vec(Vec<Value>),
    HashSet(Vec<Value>),
    BTreeSet(Vec<Value>),
    HashMap(Vec<(String, Value)>),
    BTreeMap(Vec<(String, Value)>),
    Object(Object),
}

/// Who stands behind a request.
#[derive(Debug, PartialEq)]
pub enum Source {
    /// A signed-in object of a model of the graph.
    Identity(Box<Object>),
    /// A bearer of the token.
    Token(String),
    Unknown,
}

/// What a request carries along with the values it sets.
#[derive(Debug, PartialEq)]
pub struct Env {
    pub source: Source,
    /// The action that the request asks for.
    pub intent: ActionType,
    /// Where in the request the object's values stand.
    pub path: KeyPath,
    pub map: Vec<(String, String)>,
}

/// An instance of a model while an action works on it.
///
/// The model is held by its name and looked up in the graph. `values` and
/// `previous_values` are maps from field names to values, entry after entry in
/// the order in which the keys first came.
#[derive(Debug, PartialEq)]
pub struct Object {
    pub model: String,
    pub values: Vec<(String, Value)>,
    /// The values as the connector last stored them.
    pub previous_values: Vec<(String, Value)>,
    /// The fields to show; none selected means all.
    pub selected_fields: Vec<String>,
    /// The related objects to show, under the names of their relations.
    pub included_relations: Vec<(String, Vec<Object>)>,
    pub is_new: bool,
    pub is_modified: bool,
    pub is_deleted: bool,
    /// The fields set since the object was last stored.
    pub dirty_fields: Vec<String>,
    pub env: Env,
}

/// What a `Value` is, for contracts: the same tree over sequences.
pub ghost enum ValueView {
    Null,
    ObjectId(Seq<u8>),
    Bool(bool),
    I8(i8),
    I16(i16),
    I32(i32),
    I64(i64),
    I128(i128),
    U8(u8),
    U16(u16),
    U32(u32),
    U64(u64),
    U128(u128),
    F32(Number),
    F64(Number),
    Decimal(Decimal),
    String(Seq<char>),
    Date(Date),
    DateTime(DateTime),
    Vec(Seq<ValueView>),
    HashSet(Seq<ValueView>),
    BTreeSet(Seq<ValueView>),
    HashMap(Seq<(Seq<char>, ValueView)>),
    BTreeMap(Seq<(Seq<char>, ValueView)>),
    Object(ObjectView),
}

/// What a `Source` is, for contracts.
pub ghost enum SourceView {
    Identity(Box<ObjectView>),
    Token(Seq<char>),
    Unknown,
}

/// What an `Env` is, for contracts.
pub ghost struct EnvView {
    pub source: SourceView,
    pub intent: ActionType,
    pub path: Seq<Segment>,
    pub map: Seq<(Seq<char>, Seq<char>)>,
}

/// What an `Object` is, for contracts.
pub ghost struct ObjectView {
    pub model: Seq<char>,
    pub values: Seq<(Seq<char>, ValueView)>,
    pub previous_values: Seq<(Seq<char>, ValueView)>,
    pub selected_fields: Seq<Seq<char>>,
    pub included_relations: Seq<(Seq<char>, Seq<ObjectView>)>,
    pub is_new: bool,
    pub is_modified: bool,
    pub is_deleted: bool,
    pub dirty_fields: Seq<Seq<char>>,
    pub env: EnvView,
}

/// The views of a sequence of values, item by item.
pub open spec fn items_view(s: Seq<Value>) -> Seq<ValueView>
    decreases s,
{
    Seq::new(
        s.len(),
        |i: int|
            if 0 <= i < s.len() {
                s[i].view()
            } else {
                ValueView::Null
            },
    )
}

/// The views of a sequence of entries, entry by entry.
pub open spec fn entries_view(s: Seq<(String, Value)>) -> Seq<(Seq<char>, ValueView)>
    decreases s,
{
    Seq::new(
        s.len(),
        |i: int|
            if 0 <= i < s.len() {
                (s[i].0@, s[i].1.view())
            } else {
                (Seq::empty(), ValueView::Null)
            },
    )
}

/// The views of a sequence of objects, object by object.
pub open spec fn objects_view(s: Seq<Object>) -> Seq<ObjectView>
    decreases s,
{
    Seq::new(
        s.len(),
        |i: int|
            if 0 <= i < s.len() {
                s[i].view()
            } else {
                arbitrary()
            },
    )
}

/// The views of the related objects of each relation, relation by relation.
pub open spec fn relations_view(s: Seq<(String, Vec<Object>)>) -> Seq<(Seq<char>, Seq<ObjectView>)>
    decreases s,
{
    Seq::new(
        s.len(),
        |i: int|
            if 0 <= i < s.len() {
                (s[i].0@, objects_view(s[i].1@))
            } else {
                (Seq::empty(), Seq::empty())
            },
    )
}

impl View for Value {
    type V = ValueView;

    open spec fn view(&self) -> ValueView
        decreases self,
    {
        match self {
            Value::Null => ValueView::Null,
            Value::ObjectId(b) => ValueView::ObjectId(b@),
            Value::Bool(b) => ValueView::Bool(*b),
            Value::I8(n) => ValueView::I8(*n),
            Value::I16(n) => ValueView::I16(*n),
            Value::I32(n) => ValueView::I32(*n),
            Value::I64(n) => ValueView::I64(*n),
            Value::I128(n) => ValueView::I128(*n),
            Value::U8(n) => ValueView::U8(*n),
            Value::U16(n) => ValueView::U16(*n),
            Value::U32(n) => ValueView::U32(*n),
            Value::U64(n) => ValueView::U64(*n),
            Value::U128(n) => ValueView::U128(*n),
            Value::F32(n) => ValueView::F32(*n),
            Value::F64(n) => ValueView::F64(*n),
            Value::Decimal(d) => ValueView::Decimal(*d),
            Value::String(s) => ValueView::String(s@),
            Value::Date(d) => ValueView::Date(*d),
            Value::DateTime(d) => ValueView::DateTime(*d),
            Value::Vec(v) => ValueView::Vec(items_view(v@)),
            Value::HashSet(v) => ValueView::HashSet(items_view(v@)),
            Value::BTreeSet(v) => ValueView::BTreeSet(items_view(v@)),
            Value::HashMap(m) => ValueView::HashMap(entries_view(m@)),
            Value::BTreeMap(m) => ValueView::BTreeMap(entries_view(m@)),
            Value::Object(o) => ValueView::Object(o.view()),
        }
    }
}

impl View for Source {
    type V = SourceView;

    open spec fn view(&self) -> SourceView
        decreases self,
    {
        match self {
            Source::Identity(o) => SourceView::Identity(Box::new((**o).view())),
            Source::Token(t) => SourceView::Token(t@),
            Source::Unknown => SourceView::Unknown,
        }
    }
}

impl View for Env {
    type V = EnvView;

    open spec fn view(&self) -> EnvView
        decreases self,
    {
        EnvView {
            source: self.source.view(),
            intent: self.intent,
            path: path_items(self.path),
            map: pairs_view(self.map@),
        }
    }
}

impl View for Object {
    type V = ObjectView;

    open spec fn view(&self) -> ObjectView
        decreases self,
    {
        ObjectView {
            model: self.model@,
            values: entries_view(self.values@),
            previous_values: entries_view(self.previous_values@),
            selected_fields: names_view(self.selected_fields@),
            included_relations: relations_view(self.included_relations@),
            is_new: self.is_new,
            is_modified: self.is_modified,
            is_deleted: self.is_deleted,
            dirty_fields: names_view(self.dirty_fields@),
            env: self.env.view(),
        }
    }
}

/// Whether two object ids hold the same bytes.
fn bytes_same(a: &[u8; 12], b: &[u8; 12]) -> (r: bool)
    ensures
        r == (a@ == b@),
{
    let mut i: usize = 0;
    while i < 12
        invariant
            i <= 12,
            forall|j: int| 0 <= j < i ==> a@[j] == b@[j],
        decreases 12 - i,
    {
        if a[i] != b[i] {
            return false;
        }
        i += 1;
    }
    assert(a@ =~= b@);
    true
}

/// Whether two lists of values are equal item by item.
fn items_same(a: &Vec<Value>, b: &Vec<Value>) -> (r: bool)
    ensures
        r == (items_view(a@) == items_view(b@)),
    decreases a@,
{
    if a.len() != b.len() {
        assert(items_view(a@).len() != items_view(b@).len());
        return false;
    }
    let mut i: usize = 0;
    while i < a.len()
        invariant
            i <= a.len(),
            a.len() == b.len(),
            forall|j: int| 0 <= j < i ==> a@[j]@ == b@[j]@,
        decreases a.len() - i,
    {
        if !a[i].same(&b[i]) {
            assert(items_view(a@)[i as int] != items_view(b@)[i as int]);
            return false;
        }
        i += 1;
    }
    assert(items_view(a@) =~= items_view(b@));
    true
}

/// Whether two lists of entries are equal entry by entry.
fn entries_same(a: &Vec<(String, Value)>, b: &Vec<(String, Value)>) -> (r: bool)
    ensures
        r == (entries_view(a@) == entries_view(b@)),
    decreases a@,
{
    if a.len() != b.len() {
        assert(entries_view(a@).len() != entries_view(b@).len());
        return false;
    }
    let mut i: usize = 0;
    while i < a.len()
        invariant
            i <= a.len(),
            a.len() == b.len(),
            forall|j: int| 0 <= j < i ==> a@[j].0@ == b@[j].0@ && a@[j].1@ == b@[j].1@,
        decreases a.len() - i,
    {
        if !(a[i].0 == b[i].0) || !a[i].1.same(&b[i].1) {
            assert(entries_view(a@)[i as int] != entries_view(b@)[i as int]);
            return false;
        }
        i += 1;
    }
    assert(entries_view(a@) =~= entries_view(b@));
    true
}

impl Value {
    /// Whether two values are the same tree.
    pub fn same(&self, other: &Value) -> (r: bool)
        ensures
            r == (self@ == other@),
        decreases self,
    {
        match (self, other) {
            (Value::Null, Value::Null) => true,
            (Value::ObjectId(a), Value::ObjectId(b)) => bytes_same(a, b),
            (Value::Bool(a), Value::Bool(b)) => *a == *b,
            (Value::I8(a), Value::I8(b)) => *a == *b,
            (Value::I16(a), Value::I16(b)) => *a == *b,
            (Value::I32(a), Value::I32(b)) => *a == *b,
            (Value::I64(a), Value::I64(b)) => *a == *b,
            (Value::I128(a), Value::I128(b)) => *a == *b,
            (Value::U8(a), Value::U8(b)) => *a == *b,
            (Value::U16(a), Value::U16(b)) => *a == *b,
            (Value::U32(a), Value::U32(b)) => *a == *b,
            (Value::U64(a), Value::U64(b)) => *a == *b,
            (Value::U128(a), Value::U128(b)) => *a == *b,
            (Value::F32(a), Value::F32(b)) => *a == *b,
            (Value::F64(a), Value::F64(b)) => *a == *b,
            (Value::Decimal(a), Value::Decimal(b)) => *a == *b,
            (Value::String(a), Value::String(b)) => *a == *b,
            (Value::Date(a), Value::Date(b)) => *a == *b,
            (Value::DateTime(a), Value::DateTime(b)) => *a == *b,
            (Value::Vec(a), Value::Vec(b)) => items_same(a, b),
            (Value::HashSet(a), Value::HashSet(b)) => items_same(a, b),
            (Value::BTreeSet(a), Value::BTreeSet(b)) => items_same(a, b),
            (Value::HashMap(a), Value::HashMap(b)) => entries_same(a, b),
            (Value::BTreeMap(a), Value::BTreeMap(b)) => entries_same(a, b),
            (Value::Object(a), Value::Object(b)) => a.same(b),
            _ => false,
        }
    }

    /// A second value that is the same tree.
    pub fn duplicate(&self) -> (r: Value)
        ensures
            r@ == self@,
        decreases self,
    {
        match self {
            Value::Null => Value::Null,
            Value::ObjectId(b) => Value::ObjectId(*b),
            Value::Bool(b) => Value::Bool(*b),
            Value::I8(n) => Value::I8(*n),
            Value::I16(n) => Value::I16(*n),
            Value::I32(n) => Value::I32(*n),
            Value::I64(n) => Value::I64(*n),
            Value::I128(n) => Value::I128(*n),
            Value::U8(n) => Value::U8(*n),
            Value::U16(n) => Value::U16(*n),
            Value::U32(n) => Value::U32(*n),
            Value::U64(n) => Value::U64(*n),
            Value::U128(n) => Value::U128(*n),
            Value::F32(n) => Value::F32(*n),
            Value::F64(n) => Value::F64(*n),
            Value::Decimal(d) => Value::Decimal(*d),
            Value::String(s) => Value::String(s.clone()),
            Value::Date(d) => Value::Date(*d),
            Value::DateTime(d) => Value::DateTime(*d),
            Value::Vec(v) => Value::Vec(items_copy(v)),
            Value::HashSet(v) => Value::HashSet(items_copy(v)),
            Value::BTreeSet(v) => Value::BTreeSet(items_copy(v)),
            Value::HashMap(m) => Value::HashMap(entries_copy(m)),
            Value::BTreeMap(m) => Value::BTreeMap(entries_copy(m)),
            Value::Object(o) => Value::Object(o.duplicate()),
        }
    }
}

/// A second list with the same values.
pub fn items_copy(a: &Vec<Value>) -> (r: Vec<Value>)
    ensures
        items_view(r@) == items_view(a@),
    decreases a@,
{
    let mut r: Vec<Value> = Vec::new();
    let mut i: usize = 0;
    while i < a.len()
        invariant
            i <= a.len(),
            r.len() == i,
            forall|j: int| 0 <= j < i ==> r@[j]@ == a@[j]@,
        decreases a.len() - i,
    {
        r.push(a[i].duplicate());
        i += 1;
    }
    assert(items_view(r@) =~= items_view(a@));
    r
}

/// A second list with the same entries.
pub fn entries_copy(a: &Vec<(String, Value)>) -> (r: Vec<(String, Value)>)
    ensures
        entries_view(r@) == entries_view(a@),
    decreases a@,
{
    let mut r: Vec<(String, Value)> = Vec::new();
    let mut i: usize = 0;
    while i < a.len()
        invariant
            i <= a.len(),
            r.len() == i,
            forall|j: int| 0 <= j < i ==> r@[j].0@ == a@[j].0@ && r@[j].1@ == a@[j].1@,
        decreases a.len() - i,
    {
        r.push((a[i].0.clone(), a[i].1.duplicate()));
        i += 1;
    }
    assert(entries_view(r@) =~= entries_view(a@));
    r
}

/// Whether two lists of objects are equal object by object.
pub fn objects_same(a: &Vec<Object>, b: &Vec<Object>) -> (r: bool)
    ensures
        r == (objects_view(a@) == objects_view(b@)),
    decreases a@,
{
    if a.len() != b.len() {
        assert(objects_view(a@).len() != objects_view(b@).len());
        return false;
    }
    let mut i: usize = 0;
    while i < a.len()
        invariant
            i <= a.len(),
            a.len() == b.len(),
            forall|j: int| 0 <= j < i ==> a@[j]@ == b@[j]@,
        decreases a.len() - i,
    {
        if !a[i].same(&b[i]) {
            assert(objects_view(a@)[i as int] != objects_view(b@)[i as int]);
            return false;
        }
        i += 1;
    }
    assert(objects_view(a@) =~= objects_view(b@));
    true
}

/// A second list with the same objects.
pub fn objects_copy(a: &Vec<Object>) -> (r: Vec<Object>)
    ensures
        objects_view(r@) == objects_view(a@),
    decreases a@,
{
    let mut r: Vec<Object> = Vec::new();
    let mut i: usize = 0;
    while i < a.len()
        invariant
            i <= a.len(),
            r.len() == i,
            forall|j: int| 0 <= j < i ==> r@[j]@ == a@[j]@,
        decreases a.len() - i,
    {
        r.push(a[i].duplicate());
        i += 1;
    }
    assert(objects_view(r@) =~= objects_view(a@));
    r
}

/// Whether two lists of related objects are equal relation by relation.
fn relations_same(a: &Vec<(String, Vec<Object>)>, b: &Vec<(String, Vec<Object>)>) -> (r: bool)
    ensures
        r == (relations_view(a@) == relations_view(b@)),
    decreases a@,
{
    if a.len() != b.len() {
        assert(relations_view(a@).len() != relations_view(b@).len());
        return false;
    }
    let mut i: usize = 0;
    while i < a.len()
        invariant
            i <= a.len(),
            a.len() == b.len(),
            forall|j: int|
                0 <= j < i ==> a@[j].0@ == b@[j].0@ && objects_view(a@[j].1@) == objects_view(
                    b@[j].1@,
                ),
        decreases a.len() - i,
    {
        if !(a[i].0 == b[i].0) || !objects_same(&a[i].1, &b[i].1) {
            assert(relations_view(a@)[i as int] != relations_view(b@)[i as int]);
            return false;
        }
        i += 1;
    }
    assert(relations_view(a@) =~= relations_view(b@));
    true
}

/// A second list with the same related objects.
fn relations_copy(a: &Vec<(String, Vec<Object>)>) -> (r: Vec<(String, Vec<Object>)>)
    ensures
        relations_view(r@) == relations_view(a@),
    decreases a@,
{
    let mut r: Vec<(String, Vec<Object>)> = Vec::new();
    let mut i: usize = 0;
    while i < a.len()
        invariant
            i <= a.len(),
            r.len() == i,
            forall|j: int|
                0 <= j < i ==> r@[j].0@ == a@[j].0@ && objects_view(r@[j].1@) == objects_view(
                    a@[j].1@,
                ),
        decreases a.len() - i,
    {
        r.push((a[i].0.clone(), objects_copy(&a[i].1)));
        i += 1;
    }
    assert(relations_view(r@) =~= relations_view(a@));
    r
}

impl Source {
    /// Whether two sources are the same.
    pub fn same(&self, other: &Source) -> (r: bool)
        ensures
            r == (self@ == other@),
        decreases self,
    {
        match (self, other) {
            (Source::Identity(a), Source::Identity(b)) => a.same(b),
            (Source::Token(a), Source::Token(b)) => *a == *b,
            (Source::Unknown, Source::Unknown) => true,
            _ => false,
        }
    }

    /// A second source that is the same.
    pub fn duplicate(&self) -> (r: Source)
        ensures
            r@ == self@,
        decreases self,
    {
        match self {
            Source::Identity(o) => Source::Identity(Box::new(o.duplicate())),
            Source::Token(t) => Source::Token(t.clone()),
            Source::Unknown => Source::Unknown,
        }
    }

    /// The object that stands behind the request, where one does.
    pub fn as_identity(&self) -> (r: Option<&Object>)
        ensures
            match r {
                Some(o) => self@ == SourceView::Identity(Box::new(o@)),
                None => !(self@ is Identity),
            },
    {
        match self {
            Source::Identity(o) => Some(o),
            _ => None,
        }
    }
}

impl Env {
    /// Whether two environments are the same.
    pub fn same(&self, other: &Env) -> (r: bool)
        ensures
            r == (self@ == other@),
        decreases self,
    {
        self.source.same(&other.source) && self.intent == other.intent && path_same(
            &self.path,
            &other.path,
        ) && pairs_same(&self.map, &other.map)
    }

    /// A second environment that is the same.
    pub fn duplicate(&self) -> (r: Env)
        ensures
            r@ == self@,
        decreases self,
    {
        Env {
            source: self.source.duplicate(),
            intent: self.intent,
            path: path_copy(&self.path),
            map: pairs_copy(&self.map),
        }
    }
}

impl Object {
    /// Whether two objects are in the same state.
    pub fn same(&self, other: &Object) -> (r: bool)
        ensures
            r == (self@ == other@),
        decreases self,
    {
        self.model == other.model && entries_same(&self.values, &other.values) && entries_same(
            &self.previous_values,
            &other.previous_values,
        ) && names_same(&self.selected_fields, &other.selected_fields) && relations_same(
            &self.included_relations,
            &other.included_relations,
        ) && self.is_new
            == other.is_new && self.is_modified == other.is_modified && self.is_deleted
            == other.is_deleted && names_same(&self.dirty_fields, &other.dirty_fields)
            && self.env.same(&other.env)
    }

    /// A second object in the same state.
    pub fn duplicate(&self) -> (r: Object)
        ensures
            r@ == self@,
        decreases self,
    {
        Object {
            model: self.model.clone(),
            values: entries_copy(&self.values),
            previous_values: entries_copy(&self.previous_values),
            selected_fields: names_copy(&self.selected_fields),
            included_relations: relations_copy(&self.included_relations),
            is_new: self.is_new,
            is_modified: self.is_modified,
            is_deleted: self.is_deleted,
            dirty_fields: names_copy(&self.dirty_fields),
            env: self.env.duplicate(),
        }
    }
}

} // verus!
