//! Models: named lists of fields, relations and indices, with the key sets
//! that follow from them.

use crate::field::Availability;
use crate::field::Field;
use crate::field::FieldIndex;
use crate::field::QueryAbility;
use crate::field::ReadRule;
use crate::text::names_same;
use crate::text::names_view;
use crate::text::same_text;
use vstd::prelude::*;

verus! {

#[derive(Clone, Copy, Debug, PartialEq, Eq, Structural)]
pub enum Multiplicity {
    One,
    Many,
}

/// A link from the objects of one model to those of another: the local
/// fields, in order, hold the values of the remote fields they refer to.
pub struct Relation {
    pub name: String,
    pub fields: Vec<String>,
    pub references: Vec<String>,
    /// The name of the remote model.
    pub model: String,
    pub optionality: Availability,
    pub multiplicity: Multiplicity,
}

#[derive(Clone, Copy, Debug, PartialEq, Eq, Structural)]
pub enum Sort {
    Asc,
    Desc,
}

pub struct IndexItem {
    pub field: String,
    pub sort: Sort,
}

/// What an index is made for.
pub enum IndexKind {
    /// The primary key of the model.
    Primary,
    /// The fields that name the same compound index, held by that name.
    Compound(String),
    /// One field.
    Single,
}

/// An index over fields of a model, addressed by the names of its fields in
/// order.
pub struct ModelIndex {
    pub kind: IndexKind,
    pub items: Vec<IndexItem>,
    pub unique: bool,
}

/// What an `IndexKind` is, for contracts.
pub ghost enum IndexKindView {
    Primary,
    Compound(Seq<char>),
    Single,
}

/// What a `ModelIndex` is, for contracts: its kind, the names of its fields
/// with their directions, and whether it is unique.
pub ghost struct IndexView {
    pub kind: IndexKindView,
    pub keys: Seq<Seq<char>>,
    pub sorts: Seq<Sort>,
    pub unique: bool,
}

impl View for IndexKind {
    type V = IndexKindView;

    open spec fn view(&self) -> IndexKindView {
        match self {
            IndexKind::Primary => IndexKindView::Primary,
            IndexKind::Compound(k) => IndexKindView::Compound(k@),
            IndexKind::Single => IndexKindView::Single,
        }
    }
}

impl View for ModelIndex {
    type V = IndexView;

    open spec fn view(&self) -> IndexView {
        IndexView {
            kind: self.kind@,
            keys: self.key_names(),
            sorts: Seq::new(self.items@.len(), |i: int| self.items@[i].sort),
            unique: self.unique,
        }
    }
}

/// The views of a list of indices, index by index.
pub open spec fn indices_view(indices: Seq<ModelIndex>) -> Seq<IndexView> {
    Seq::new(indices.len(), |i: int| indices[i]@)
}

/// The first position at or after `from` of an index of the kind.
pub open spec fn kind_index(indices: Seq<IndexView>, kind: IndexKindView, from: int) -> Option<int>
    decreases indices.len() - from,
{
    if from < 0 || from >= indices.len() {
        None
    } else if indices[from].kind == kind {
        Some(from)
    } else {
        kind_index(indices, kind, from + 1)
    }
}

/// The indices after a field has joined the index of a kind: the field comes
/// last in that index, which is made with the field where there was none.
pub open spec fn joined(
    indices: Seq<IndexView>,
    kind: IndexKindView,
    name: Seq<char>,
    unique: bool,
) -> Seq<IndexView> {
    match kind_index(indices, kind, 0) {
        Some(i) => indices.update(
            i,
            IndexView {
                keys: indices[i].keys.push(name),
                sorts: indices[i].sorts.push(Sort::Asc),
                ..indices[i]
            },
        ),
        None => indices.push(
            IndexView { kind, keys: seq![name], sorts: seq![Sort::Asc], unique },
        ),
    }
}

/// The indices after those of a field were added: a primary field joins the
/// primary key; a field with an index of its own gets one; a field of a
/// compound index joins the index of that name.
pub open spec fn with_field(indices: Seq<IndexView>, f: Field) -> Seq<IndexView> {
    let base = if f.primary {
        joined(indices, IndexKindView::Primary, f.name@, true)
    } else {
        indices
    };
    match f.index {
        FieldIndex::NoIndex => base,
        FieldIndex::Index => base.push(
            IndexView {
                kind: IndexKindView::Single,
                keys: seq![f.name@],
                sorts: seq![Sort::Asc],
                unique: false,
            },
        ),
        FieldIndex::Unique => base.push(
            IndexView {
                kind: IndexKindView::Single,
                keys: seq![f.name@],
                sorts: seq![Sort::Asc],
                unique: true,
            },
        ),
        FieldIndex::CompoundIndex(k) => joined(base, IndexKindView::Compound(k@), f.name@, false),
        FieldIndex::CompoundUnique(k) => joined(base, IndexKindView::Compound(k@), f.name@, true),
    }
}

/// The indices that follow from the fields from a position on, after those
/// that follow from the fields before.
pub open spec fn derived_indices(fields: Seq<Field>, from: int, done: Seq<IndexView>) -> Seq<
    IndexView,
>
    decreases fields.len() - from,
{
    if from < 0 || from >= fields.len() {
        done
    } else {
        derived_indices(fields, from + 1, with_field(done, fields[from]))
    }
}

/// Whether two kinds of index are the same.
fn same_kind(a: &IndexKind, b: &IndexKind) -> (r: bool)
    ensures
        r == (a@ == b@),
{
    match (a, b) {
        (IndexKind::Primary, IndexKind::Primary) => true,
        (IndexKind::Single, IndexKind::Single) => true,
        (IndexKind::Compound(x), IndexKind::Compound(y)) => *x == *y,
        _ => false,
    }
}

/// Lets a field join the index of a kind.
fn join(indices: &mut Vec<ModelIndex>, kind: IndexKind, name: &str, unique: bool)
    ensures
        indices_view(final(indices)@) == joined(indices_view(old(indices)@), kind@, name@, unique),
{
    let ghost before = indices_view(indices@);
    let mut i: usize = 0;
    while i < indices.len()
        invariant
            i <= indices.len(),
            before == indices_view(indices@),
            before == indices_view(old(indices)@),
            kind_index(before, kind@, 0) == kind_index(before, kind@, i as int),
        decreases indices.len() - i,
    {
        if same_kind(&indices[i].kind, &kind) {
            let mut index = indices.remove(i);
            let ghost was = index@;
            index.items.push(IndexItem { field: name.to_owned(), sort: Sort::Asc });
            assert(index@.keys =~= was.keys.push(name@));
            assert(index@.sorts =~= was.sorts.push(Sort::Asc));
            indices.insert(i, index);
            assert(indices_view(indices@) =~= before.update(
                i as int,
                IndexView {
                    keys: before[i as int].keys.push(name@),
                    sorts: before[i as int].sorts.push(Sort::Asc),
                    ..before[i as int]
                },
            ));
            return ;
        }
        i += 1;
    }
    let mut items: Vec<IndexItem> = Vec::new();
    items.push(IndexItem { field: name.to_owned(), sort: Sort::Asc });
    let index = ModelIndex { kind, items, unique };
    assert(index@.keys =~= seq![name@]);
    assert(index@.sorts =~= seq![Sort::Asc]);
    indices.push(index);
    assert(indices_view(indices@) =~= before.push(
        IndexView { kind: kind@, keys: seq![name@], sorts: seq![Sort::Asc], unique },
    ));
}

/// Adds the index of one field.
fn add_single(indices: &mut Vec<ModelIndex>, name: &str, unique: bool)
    ensures
        indices_view(final(indices)@) == indices_view(old(indices)@).push(
            IndexView {
                kind: IndexKindView::Single,
                keys: seq![name@],
                sorts: seq![Sort::Asc],
                unique,
            },
        ),
{
    let ghost before = indices_view(indices@);
    let mut items: Vec<IndexItem> = Vec::new();
    items.push(IndexItem { field: name.to_owned(), sort: Sort::Asc });
    let index = ModelIndex { kind: IndexKind::Single, items, unique };
    assert(index@.keys =~= seq![name@]);
    assert(index@.sorts =~= seq![Sort::Asc]);
    indices.push(index);
    assert(indices_view(indices@) =~= before.push(
        IndexView { kind: IndexKindView::Single, keys: seq![name@], sorts: seq![Sort::Asc], unique },
    ));
}

/// The indices that follow from the fields of a model, in the order in which
/// the fields first name them. Every index goes up.
pub fn derive_indices(fields: &Vec<Field>) -> (r: Vec<ModelIndex>)
    ensures
        indices_view(r@) == derived_indices(fields@, 0, Seq::empty()),
{
    let mut out: Vec<ModelIndex> = Vec::new();
    let mut i: usize = 0;
    assert(indices_view(out@) =~= Seq::empty());
    while i < fields.len()
        invariant
            i <= fields.len(),
            derived_indices(fields@, 0, Seq::empty()) == derived_indices(
                fields@,
                i as int,
                indices_view(out@),
            ),
        decreases fields.len() - i,
    {
        let f = &fields[i];
        if f.primary {
            join(&mut out, IndexKind::Primary, f.name, true);
        }
        match f.index {
            FieldIndex::NoIndex => {},
            FieldIndex::Index => add_single(&mut out, f.name, false),
            FieldIndex::Unique => add_single(&mut out, f.name, true),
            FieldIndex::CompoundIndex(k) => join(&mut out, IndexKind::Compound(k.to_owned()), f.name, false),
            FieldIndex::CompoundUnique(k) => join(
                &mut out,
                IndexKind::Compound(k.to_owned()),
                f.name,
                true,
            ),
        }
        i += 1;
    }
    out
}

pub struct Model {
    pub name: String,
    pub fields: Vec<Field>,
    pub relations: Vec<Relation>,
    pub indices: Vec<ModelIndex>,
    pub scalar_keys: Vec<String>,
    pub query_keys: Vec<String>,
    pub local_output_keys: Vec<String>,
    pub relation_output_keys: Vec<String>,
}

/// A rule that picks fields of a model for one of its key sets.
#[derive(Clone, Copy, Debug, PartialEq, Eq, Structural)]
pub enum Pick {
    /// The fields whose values are not only held until the object is saved.
    Scalar,
    /// The scalar fields that filters may name.
    Queryable,
    /// The scalar fields that results may show.
    Readable,
}

impl Pick {
    /// Whether the rule picks the field.
    pub open spec fn holds(self, f: Field) -> bool {
        match self {
            Pick::Scalar => f.store.spec_is_scalar(),
            Pick::Queryable => f.store.spec_is_scalar() && f.query_ability
                == QueryAbility::Queryable,
            Pick::Readable => f.store.spec_is_scalar() && f.read_rule == ReadRule::Read,
        }
    }

    pub fn picks(&self, f: &Field) -> (r: bool)
        ensures
            r == self.holds(*f),
    {
        if !f.store.is_scalar() {
            return false;
        }
        match self {
            Pick::Scalar => true,
            Pick::Queryable => match f.query_ability {
                QueryAbility::Queryable => true,
                QueryAbility::Unqueryable => false,
            },
            Pick::Readable => match f.read_rule {
                ReadRule::Read => true,
                ReadRule::NoRead => false,
            },
        }
    }
}

/// The names of the fields that a rule picks, in the order of the fields.
pub open spec fn picked_names(fields: Seq<Field>, pick: Pick) -> Seq<Seq<char>>
    decreases fields.len(),
{
    if fields.len() == 0 {
        Seq::empty()
    } else {
        let rest = picked_names(fields.drop_last(), pick);
        if pick.holds(fields.last()) {
            rest.push(fields.last().name@)
        } else {
            rest
        }
    }
}

/// The names of the relations, in order.
pub open spec fn relation_names(relations: Seq<Relation>) -> Seq<Seq<char>> {
    Seq::new(relations.len(), |i: int| relations[i].name@)
}

/// The names of the fields that a rule picks.
pub fn picked(fields: &Vec<Field>, pick: Pick) -> (r: Vec<String>)
    ensures
        names_view(r@) == picked_names(fields@, pick),
{
    let mut out: Vec<String> = Vec::new();
    let mut i: usize = 0;
    assert(names_view(out@) =~= Seq::empty());
    while i < fields.len()
        invariant
            i <= fields.len(),
            names_view(out@) == picked_names(fields@.take(i as int), pick),
        decreases fields.len() - i,
    {
        let ghost before = names_view(out@);
        proof {
            assert(fields@.take(i + 1).drop_last() =~= fields@.take(i as int));
            assert(fields@.take(i + 1).last() == fields@[i as int]);
        }
        if pick.picks(&fields[i]) {
            out.push(fields[i].name.to_owned());
            assert(names_view(out@) =~= before.push(fields@[i as int].name@));
        }
        i += 1;
    }
    assert(fields@.take(fields.len() as int) =~= fields@);
    out
}

/// The names of the relations.
pub fn names_of_relations(relations: &Vec<Relation>) -> (r: Vec<String>)
    ensures
        names_view(r@) == relation_names(relations@),
{
    let mut out: Vec<String> = Vec::new();
    let mut j: usize = 0;
    while j < relations.len()
        invariant
            j <= relations.len(),
            out.len() == j,
            forall|k: int| 0 <= k < j ==> out@[k]@ == relations@[k].name@,
        decreases relations.len() - j,
    {
        out.push(relations[j].name.clone());
        j += 1;
    }
    assert(names_view(out@) =~= relation_names(relations@));
    out
}

impl ModelIndex {
    /// The names of the fields of the index, in order.
    pub open spec fn key_names(&self) -> Seq<Seq<char>> {
        Seq::new(self.items@.len(), |i: int| self.items@[i].field@)
    }
}

impl Model {
    /// The key sets are those that follow from the fields and relations.
    pub open spec fn well_formed(&self) -> bool {
        &&& names_view(self.scalar_keys@) == picked_names(self.fields@, Pick::Scalar)
        &&& names_view(self.query_keys@) == picked_names(self.fields@, Pick::Queryable)
        &&& names_view(self.local_output_keys@) == picked_names(self.fields@, Pick::Readable)
        &&& names_view(self.relation_output_keys@) == relation_names(self.relations@)
    }

    /// The first field of the name, where the model has one.
    pub open spec fn spec_field(&self, name: Seq<char>) -> Option<Field> {
        first_field(self.fields@, name, 0)
    }

    /// The first relation of the name, where the model has one.
    pub open spec fn spec_relation(&self, name: Seq<char>) -> Option<Relation> {
        first_relation(self.relations@, name, 0)
    }

    /// The model of the name with these fields, relations and indices.
    pub fn new(
        name: String,
        fields: Vec<Field>,
        relations: Vec<Relation>,
        indices: Vec<ModelIndex>,
    ) -> (m: Model)
        ensures
            m.well_formed(),
            m.name == name,
            m.fields == fields,
            m.relations == relations,
            m.indices == indices,
    {
        let scalar_keys = picked(&fields, Pick::Scalar);
        let query_keys = picked(&fields, Pick::Queryable);
        let local_output_keys = picked(&fields, Pick::Readable);
        let relation_output_keys = names_of_relations(&relations);
        Model {
            name,
            fields,
            relations,
            indices,
            scalar_keys,
            query_keys,
            local_output_keys,
            relation_output_keys,
        }
    }

    /// The model of the name with these fields and relations, and with the
    /// indices that follow from the fields.
    pub fn build(name: String, fields: Vec<Field>, relations: Vec<Relation>) -> (m: Model)
        ensures
            m.well_formed(),
            m.name == name,
            m.fields == fields,
            m.relations == relations,
            indices_view(m.indices@) == derived_indices(fields@, 0, Seq::empty()),
    {
        let indices = derive_indices(&fields);
        Model::new(name, fields, relations, indices)
    }

    /// Whether the key sets are those that follow from the fields and
    /// relations.
    pub fn is_well_formed(&self) -> (r: bool)
        ensures
            r == self.well_formed(),
    {
        names_same(&self.scalar_keys, &picked(&self.fields, Pick::Scalar)) && names_same(
            &self.query_keys,
            &picked(&self.fields, Pick::Queryable),
        ) && names_same(&self.local_output_keys, &picked(&self.fields, Pick::Readable))
            && names_same(&self.relation_output_keys, &names_of_relations(&self.relations))
    }

    pub fn name(&self) -> (r: &str)
        ensures
            r@ == self.name@,
    {
        self.name.as_str()
    }

    pub fn fields(&self) -> (r: &Vec<Field>)
        ensures
            *r == self.fields,
    {
        &self.fields
    }

    pub fn relations(&self) -> (r: &Vec<Relation>)
        ensures
            *r == self.relations,
    {
        &self.relations
    }

    pub fn indices(&self) -> (r: &Vec<ModelIndex>)
        ensures
            *r == self.indices,
    {
        &self.indices
    }

    pub fn scalar_keys(&self) -> (r: &Vec<String>)
        ensures
            *r == self.scalar_keys,
    {
        &self.scalar_keys
    }

    pub fn query_keys(&self) -> (r: &Vec<String>)
        ensures
            *r == self.query_keys,
    {
        &self.query_keys
    }

    pub fn local_output_keys(&self) -> (r: &Vec<String>)
        ensures
            *r == self.local_output_keys,
    {
        &self.local_output_keys
    }

    pub fn relation_output_keys(&self) -> (r: &Vec<String>)
        ensures
            *r == self.relation_output_keys,
    {
        &self.relation_output_keys
    }

    /// The first field of the name.
    pub fn field(&self, name: &str) -> (r: Option<&Field>)
        ensures
            match r {
                Some(f) => self.spec_field(name@) == Some(*f),
                None => self.spec_field(name@) is None,
            },
    {
        let mut i: usize = 0;
        while i < self.fields.len()
            invariant
                i <= self.fields.len(),
                self.spec_field(name@) == first_field(self.fields@, name@, i as int),
            decreases self.fields.len() - i,
        {
            if same_text(self.fields[i].name, name) {
                return Some(&self.fields[i]);
            }
            i += 1;
        }
        None
    }

    /// The first relation of the name.
    pub fn relation(&self, name: &str) -> (r: Option<&Relation>)
        ensures
            match r {
                Some(f) => self.spec_relation(name@) == Some(*f),
                None => self.spec_relation(name@) is None,
            },
    {
        let mut i: usize = 0;
        while i < self.relations.len()
            invariant
                i <= self.relations.len(),
                self.spec_relation(name@) == first_relation(self.relations@, name@, i as int),
            decreases self.relations.len() - i,
        {
            if same_text(self.relations[i].name.as_str(), name) {
                return Some(&self.relations[i]);
            }
            i += 1;
        }
        None
    }
}

/// The first field of the name at or after a position.
pub open spec fn first_field(fields: Seq<Field>, name: Seq<char>, from: int) -> Option<Field>
    decreases fields.len() - from,
{
    if from < 0 || from >= fields.len() {
        None
    } else if fields[from].name@ == name {
        Some(fields[from])
    } else {
        first_field(fields, name, from + 1)
    }
}

/// The first relation of the name at or after a position.
pub open spec fn first_relation(relations: Seq<Relation>, name: Seq<char>, from: int) -> Option<
    Relation,
>
    decreases relations.len() - from,
{
    if from < 0 || from >= relations.len() {
        None
    } else if relations[from].name@ == name {
        Some(relations[from])
    } else {
        first_relation(relations, name, from + 1)
    }
}

} // verus!
