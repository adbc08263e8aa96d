//! What each part of a request decodes to.
//!
//! A request is a tree of objects and arrays. Each member and item is decoded
//! by the rule of the place it stands in; `decoded_members` and
//! `decoded_list` walk the members and items in order and stop at the first
//! that is refused.

use crate::action::is_paging_key;
use crate::action::ActionType;
use crate::collections::put;
use crate::decoder::folds::as_list;
use crate::decoder::folds::as_map;
use crate::decoder::folds::first_refused;
use crate::decoder::folds::keys_of;
use crate::decoder::folds::Allowed;
use crate::decoder::values::decoded_value;
use crate::decoder::values::decoded_value_array;
use crate::error::ErrorView;
use crate::field::FieldType;
use crate::graph::Graph;
use crate::json::Json;
use crate::model::Model;
use crate::model::ModelIndex;
use crate::model::Multiplicity;
use crate::path::Segment;
use crate::text::has_name;
use crate::value::ValueView;
use vstd::prelude::*;

verus! {

/// The place that a member or an item stands in.
#[derive(Clone, Copy)]
pub enum Rule<'a> {
    /// A member of `select`.
    Select(&'a Model),
    /// A member of `include`.
    Include(&'a Model),
    /// A member of an object of `create` or `update`.
    Create(&'a Model),
    /// An item of an array of `create` or `update`.
    CreateItem(&'a Model),
    /// A member of the key of a unique index.
    Unique(&'a Model),
    /// A member of `where`.
    Where(&'a Model),
    /// An item of an array under `AND` or `OR`.
    WhereItem(&'a Model),
    /// A member of the filter of a relation to one or to many objects of the
    /// model.
    Related(&'a Model, Multiplicity),
    /// A member of the filter of a field of the type, optional or not.
    Filter(&'a FieldType, bool),
    /// An item of an array of `distinct`.
    Distinct(&'a Model),
    /// An item of an array of `orderBy`.
    OrderBy(&'a Model),
    /// A member of the request for the action.
    Top(&'a Model, ActionType),
}

/// The closed set of filter keys of a relation.
pub open spec fn relation_allows_key(multiplicity: Multiplicity, key: Seq<char>) -> bool {
    match multiplicity {
        Multiplicity::One => key == "is"@ || key == "isNot"@,
        Multiplicity::Many => key == "some"@ || key == "every"@ || key == "none"@,
    }
}

/// Whether the keys are, in order, those of a unique index.
pub open spec fn has_unique_index(indices: Seq<ModelIndex>, keys: Seq<Seq<char>>) -> bool {
    exists|i: int|
        0 <= i < indices.len() && (#[trigger] indices[i]).unique && indices[i].key_names() == keys
}

pub open spec fn decoded_bool(json: Json, path: Seq<Segment>) -> Result<ValueView, ErrorView> {
    match json.spec_as_bool() {
        Some(b) => Ok(ValueView::Bool(b)),
        None => Err(ErrorView::UnexpectedInputType("bool"@, path)),
    }
}

pub open spec fn decoded_unsigned(json: Json, path: Seq<Segment>) -> Result<ValueView, ErrorView> {
    match json.spec_as_u64() {
        Some(u) => Ok(ValueView::U64(u)),
        None => Err(ErrorView::UnexpectedInputType("positive integer number"@, path)),
    }
}

/// The one member of an object of one member.
pub open spec fn single_member(json: Json, path: Seq<Segment>) -> Result<
    (Seq<char>, Json),
    ErrorView,
> {
    match json {
        Json::Object(members) => if members@.len() == 1 {
            Ok((members@[0].0@, members@[0].1))
        } else {
            Err(ErrorView::UnexpectedObjectLength(1, path))
        },
        _ => Err(ErrorView::UnexpectedInputType("object"@, path)),
    }
}

pub open spec fn decoded_distinct_item(model: Model, json: Json, path: Seq<Segment>) -> Result<
    ValueView,
    ErrorView,
> {
    match json.spec_as_text() {
        Some(s) => if has_name(model.scalar_keys@, s) {
            Ok(ValueView::String(s))
        } else {
            Err(ErrorView::UnexpectedInputValue("scalar fields enum"@, path))
        },
        None => Err(ErrorView::UnexpectedInputType("string"@, path)),
    }
}

pub open spec fn decoded_order_by_item(model: Model, json: Json, path: Seq<Segment>) -> Result<
    ValueView,
    ErrorView,
> {
    match single_member(json, path) {
        Ok((key, value)) => match value.spec_as_text() {
            Some(s) => if s == "asc"@ || s == "desc"@ {
                Ok(ValueView::HashMap(seq![(key, ValueView::String(s))]))
            } else {
                Err(ErrorView::UnexpectedInputType("string"@, path))
            },
            None => Err(ErrorView::UnexpectedInputType("string"@, path)),
        },
        Err(e) => Err(e),
    }
}

/// What a member or an item decodes to by the rule of its place. `path` is
/// the place of the member or item itself.
pub open spec fn decoded_member(
    rule: Rule,
    graph: Graph,
    key: Seq<char>,
    value: Json,
    path: Seq<Segment>,
) -> Result<ValueView, ErrorView>
    decreases value, 5nat,
{
    match rule {
        Rule::Select(model) => if has_name(model.local_output_keys@, key) {
            decoded_bool(value, path)
        } else {
            Err(ErrorView::UnexpectedInputKey(key, path))
        },
        Rule::Include(model) => if has_name(model.relation_output_keys@, key) {
            decoded_include_item(*model, graph, key, value, path)
        } else {
            Err(ErrorView::UnexpectedInputKey(key, path))
        },
        Rule::Create(model) | Rule::Unique(model) => match model.spec_field(key) {
            Some(f) => decoded_value(graph, f.field_type, f.spec_is_optional(), value, path),
            None => Err(ErrorView::UnexpectedInputKey(key, path)),
        },
        Rule::CreateItem(model) => decoded_create_object(*model, graph, value, path),
        Rule::Where(model) => decoded_where_member(*model, graph, key, value, path),
        Rule::WhereItem(model) => decoded_where(*model, graph, value, path),
        Rule::Related(model, multiplicity) => if relation_allows_key(multiplicity, key) {
            decoded_where(*model, graph, value, path)
        } else {
            Err(ErrorView::UnexpectedInputKey(key, path))
        },
        Rule::Filter(ty, optional) => decoded_filter(graph, *ty, optional, key, value, path),
        Rule::Distinct(model) => decoded_distinct_item(*model, value, path),
        Rule::OrderBy(model) => decoded_order_by_item(*model, value, path),
        Rule::Top(model, action) => decoded_top(*model, graph, action, key, value, path),
    }
}

/// The map of the members of an object from a position on, each decoded by
/// the rule and set under its key in the map of those decoded before.
pub open spec fn decoded_members(
    rule: Rule,
    graph: Graph,
    members: Seq<(String, Json)>,
    path: Seq<Segment>,
    from: int,
    done: Seq<(Seq<char>, ValueView)>,
) -> Result<Seq<(Seq<char>, ValueView)>, ErrorView>
    decreases members, members.len() - from,
{
    if from < 0 || from >= members.len() {
        Ok(done)
    } else {
        match decoded_member(
            rule,
            graph,
            members[from].0@,
            members[from].1,
            path.push(Segment::Key(members[from].0@)),
        ) {
            Ok(v) => decoded_members(
                rule,
                graph,
                members,
                path,
                from + 1,
                put(done, members[from].0@, v),
            ),
            Err(e) => Err(e),
        }
    }
}

/// The list of the items of an array from a position on, each decoded by the
/// rule, after those decoded before.
pub open spec fn decoded_list(
    rule: Rule,
    graph: Graph,
    items: Seq<Json>,
    path: Seq<Segment>,
    from: int,
    done: Seq<ValueView>,
) -> Result<Seq<ValueView>, ErrorView>
    decreases items, items.len() - from,
{
    if from < 0 || from >= items.len() {
        Ok(done)
    } else {
        match decoded_member(
            rule,
            graph,
            Seq::empty(),
            items[from],
            path.push(Segment::Index(from as nat)),
        ) {
            Ok(v) => decoded_list(rule, graph, items, path, from + 1, done.push(v)),
            Err(e) => Err(e),
        }
    }
}

/// What the whole of an object decodes to by a rule for its members.
pub open spec fn decoded_object(
    rule: Rule,
    graph: Graph,
    members: Seq<(String, Json)>,
    path: Seq<Segment>,
) -> Result<ValueView, ErrorView>
    decreases members, members.len() + 1,
{
    as_map(decoded_members(rule, graph, members, path, 0, Seq::empty()))
}

/// What the whole of an array decodes to by a rule for its items.
pub open spec fn decoded_array(
    rule: Rule,
    graph: Graph,
    items: Seq<Json>,
    path: Seq<Segment>,
) -> Result<ValueView, ErrorView>
    decreases items, items.len() + 1,
{
    as_list(decoded_list(rule, graph, items, path, 0, Seq::empty()))
}

pub open spec fn decoded_select(model: Model, graph: Graph, json: Json, path: Seq<Segment>) -> Result<
    ValueView,
    ErrorView,
>
    decreases json, 1nat,
{
    match json {
        Json::Object(members) => decoded_object(Rule::Select(&model), graph, members@, path),
        _ => Err(ErrorView::UnexpectedInputType("object"@, path)),
    }
}

pub open spec fn decoded_include(
    model: Model,
    graph: Graph,
    json: Json,
    path: Seq<Segment>,
) -> Result<ValueView, ErrorView>
    decreases json, 1nat,
{
    match json {
        Json::Object(members) => decoded_object(Rule::Include(&model), graph, members@, path),
        _ => Err(ErrorView::UnexpectedInputType("object"@, path)),
    }
}

/// What is asked of one relation under `include`: `true` or `false`, or a
/// query of its own against the related model.
pub open spec fn decoded_include_item(
    model: Model,
    graph: Graph,
    name: Seq<char>,
    json: Json,
    path: Seq<Segment>,
) -> Result<ValueView, ErrorView>
    decreases json, 3nat,
{
    match json {
        Json::Bool(b) => Ok(ValueView::Bool(b)),
        Json::Object(_) => match model.spec_relation(name) {
            Some(relation) => match graph.spec_model(relation.model@) {
                Some(related) => decoded_request(related, graph, ActionType::FindMany, json, path),
                None => Err(ErrorView::InternalServerError("Model of relation is not found."@)),
            },
            None => Err(ErrorView::InternalServerError("Relation is not found."@)),
        },
        _ => Err(ErrorView::UnexpectedInputType("bool or object"@, path)),
    }
}

pub open spec fn decoded_distinct(
    model: Model,
    graph: Graph,
    json: Json,
    path: Seq<Segment>,
) -> Result<ValueView, ErrorView>
    decreases json, 3nat,
{
    match json {
        Json::String(_) => decoded_distinct_item(model, json, path),
        Json::Array(items) => decoded_array(Rule::Distinct(&model), graph, items@, path),
        _ => Err(ErrorView::UnexpectedInputType("string or array"@, path)),
    }
}

pub open spec fn decoded_order_by(
    model: Model,
    graph: Graph,
    json: Json,
    path: Seq<Segment>,
) -> Result<ValueView, ErrorView>
    decreases json, 3nat,
{
    match json {
        Json::Object(_) => match decoded_order_by_item(model, json, path) {
            Ok(v) => Ok(ValueView::Vec(seq![v])),
            Err(e) => Err(e),
        },
        Json::Array(items) => decoded_array(Rule::OrderBy(&model), graph, items@, path),
        _ => Err(ErrorView::UnexpectedInputType("object or array"@, path)),
    }
}

/// The values to create or update one object with.
pub open spec fn decoded_create_object(
    model: Model,
    graph: Graph,
    json: Json,
    path: Seq<Segment>,
) -> Result<ValueView, ErrorView>
    decreases json, 1nat,
{
    match json {
        Json::Object(members) => decoded_object(Rule::Create(&model), graph, members@, path),
        _ => Err(ErrorView::UnexpectedInputType("object"@, path)),
    }
}

/// The values to create or update one object with, or a list of them.
pub open spec fn decoded_create_or_update(
    model: Model,
    graph: Graph,
    json: Json,
    path: Seq<Segment>,
) -> Result<ValueView, ErrorView>
    decreases json, 3nat,
{
    match json {
        Json::Object(_) => decoded_create_object(model, graph, json, path),
        Json::Array(items) => decoded_array(Rule::CreateItem(&model), graph, items@, path),
        _ => Err(ErrorView::UnexpectedInputType("object or array"@, path)),
    }
}

/// The key of a unique index: the members stand for the fields of a unique
/// index of the model, in its order.
pub open spec fn decoded_where_unique(
    model: Model,
    graph: Graph,
    json: Json,
    path: Seq<Segment>,
) -> Result<ValueView, ErrorView>
    decreases json, 1nat,
{
    match json {
        Json::Object(members) => if members@.len() == 0 {
            Err(ErrorView::UnexpectedInputValue("Unique where can't be empty."@, path))
        } else if has_unique_index(model.indices@, keys_of(members@)) {
            decoded_object(Rule::Unique(&model), graph, members@, path)
        } else {
            Err(ErrorView::UnexpectedInputKey(members@[0].0@, path))
        },
        _ => Err(ErrorView::UnexpectedInputType("object"@, path)),
    }
}

/// A filter: an object of connectives, fields and relations.
pub open spec fn decoded_where(
    model: Model,
    graph: Graph,
    json: Json,
    path: Seq<Segment>,
) -> Result<ValueView, ErrorView>
    decreases json, 1nat,
{
    match json {
        Json::Object(members) => decoded_object(Rule::Where(&model), graph, members@, path),
        _ => Err(ErrorView::UnexpectedInputType("object"@, path)),
    }
}

/// One member of a filter: a connective over filters, the filter of a field
/// that queries may name, or the filter of a relation.
pub open spec fn decoded_where_member(
    model: Model,
    graph: Graph,
    key: Seq<char>,
    value: Json,
    path: Seq<Segment>,
) -> Result<ValueView, ErrorView>
    decreases value, 4nat,
{
    if key == "AND"@ || key == "OR"@ {
        match value {
            Json::Object(_) => decoded_where(model, graph, value, path),
            Json::Array(items) => decoded_array(Rule::WhereItem(&model), graph, items@, path),
            _ => Err(ErrorView::UnexpectedInputType("object or array"@, path)),
        }
    } else if key == "NOT"@ {
        match value {
            Json::Object(_) => decoded_where(model, graph, value, path),
            _ => Err(ErrorView::UnexpectedInputType("object"@, path)),
        }
    } else if has_name(model.query_keys@, key) && model.spec_field(key) is Some {
        let f = model.spec_field(key).unwrap();
        decoded_where_for_field(graph, f.field_type, f.spec_is_optional(), value, path)
    } else {
        match model.spec_relation(key) {
            Some(relation) => decoded_relation_where(graph, relation.model@, relation.multiplicity, value, path),
            None => Err(ErrorView::UnexpectedInputKey(key, path)),
        }
    }
}

/// The filter of a relation: an object whose keys say of how many related
/// objects the filters under them hold.
pub open spec fn decoded_relation_where(
    graph: Graph,
    related: Seq<char>,
    multiplicity: Multiplicity,
    json: Json,
    path: Seq<Segment>,
) -> Result<ValueView, ErrorView>
    decreases json, 1nat,
{
    match json {
        Json::Object(members) => match graph.spec_model(related) {
            Some(model) => decoded_object(Rule::Related(&model, multiplicity), graph, members@, path),
            None => Err(ErrorView::InternalServerError("Model of relation is not found."@)),
        },
        _ => Err(ErrorView::UnexpectedInputType("object"@, path)),
    }
}

/// The filter of a field: a value, which the field must equal, or an object
/// of the filters of the field's type.
pub open spec fn decoded_where_for_field(
    graph: Graph,
    ty: FieldType,
    optional: bool,
    json: Json,
    path: Seq<Segment>,
) -> Result<ValueView, ErrorView>
    decreases json, 1nat,
{
    match json {
        Json::Object(members) => match first_refused(
            keys_of(members@),
            Allowed::Filters(ty.spec_filters()),
            0,
        ) {
            Some(k) => Err(ErrorView::UnexpectedInputKey(k, path.push(Segment::Key(k)))),
            None => decoded_object(Rule::Filter(&ty, optional), graph, members@, path),
        },
        _ => match decoded_value(graph, ty, optional, json, path) {
            Ok(v) => Ok(ValueView::HashMap(seq![("equals"@, v)])),
            Err(e) => Err(e),
        },
    }
}

/// The accepted values of `mode`.
pub open spec fn is_mode(s: Seq<char>) -> bool {
    s == "default"@ || s == "caseInsensitive"@
}

/// One filter of a field.
pub open spec fn decoded_filter(
    graph: Graph,
    ty: FieldType,
    optional: bool,
    key: Seq<char>,
    value: Json,
    path: Seq<Segment>,
) -> Result<ValueView, ErrorView>
    decreases value, 4nat,
{
    if key == "equals"@ {
        decoded_value(graph, ty, optional, value, path)
    } else if key == "not"@ {
        decoded_where_for_field(graph, ty, optional, value, path)
    } else if key == "gt"@ || key == "gte"@ || key == "lt"@ || key == "lte"@ || key == "contains"@
        || key == "startsWith"@ || key == "endsWith"@ || key == "matches"@ {
        decoded_value(graph, ty, false, value, path)
    } else if key == "in"@ || key == "notIn"@ {
        decoded_value_array(graph, ty, false, value, path)
    } else if key == "mode"@ {
        match value.spec_as_text() {
            Some(s) => if is_mode(s) {
                Ok(ValueView::String(s))
            } else {
                Err(ErrorView::UnexpectedInputType("'default' or 'caseInsensitive'"@, path))
            },
            None => Err(ErrorView::UnexpectedInputType("string"@, path)),
        }
    } else if key == "has"@ || key == "hasEvery"@ || key == "hasSome"@ {
        match ty.spec_element_field() {
            Some(f) => if key == "has"@ {
                decoded_value(graph, f.field_type, f.spec_is_optional(), value, path)
            } else {
                decoded_value_array(graph, f.field_type, f.spec_is_optional(), value, path)
            },
            None => Err(ErrorView::UnexpectedInputKey(key, path)),
        }
    } else if key == "isEmpty"@ {
        decoded_value(graph, FieldType::Bool, false, value, path)
    } else if key == "length"@ {
        decoded_value(graph, FieldType::U64, false, value, path)
    } else {
        Err(ErrorView::UnexpectedInputKey(key, path))
    }
}

/// One member of a request.
pub open spec fn decoded_top(
    model: Model,
    graph: Graph,
    action: ActionType,
    key: Seq<char>,
    value: Json,
    path: Seq<Segment>,
) -> Result<ValueView, ErrorView>
    decreases value, 4nat,
{
    if key == "where"@ {
        if action.spec_requires_where() {
            decoded_where(model, graph, value, path)
        } else {
            decoded_where_unique(model, graph, value, path)
        }
    } else if key == "orderBy"@ {
        decoded_order_by(model, graph, value, path)
    } else if key == "cursor"@ {
        decoded_where_unique(model, graph, value, path)
    } else if key == "distinct"@ {
        decoded_distinct(model, graph, value, path)
    } else if is_paging_key(key) {
        decoded_unsigned(value, path)
    } else if key == "select"@ {
        decoded_select(model, graph, value, path)
    } else if key == "include"@ {
        decoded_include(model, graph, value, path)
    } else if key == "create"@ || key == "update"@ {
        decoded_create_or_update(model, graph, value, path)
    } else {
        Err(ErrorView::UnexpectedInputKey(key, path))
    }
}

/// What a request for an action on a model decodes to: its body must be an
/// object, every key must be one that the action accepts, and each member
/// is decoded by its key.
pub open spec fn decoded_request(
    model: Model,
    graph: Graph,
    action: ActionType,
    json: Json,
    path: Seq<Segment>,
) -> Result<ValueView, ErrorView>
    decreases json, 1nat,
{
    match json {
        Json::Object(members) => match first_refused(keys_of(members@), Allowed::Action(action), 0) {
            Some(k) => Err(ErrorView::UnexpectedInputKey(k, path.push(Segment::Key(k)))),
            None => decoded_object(Rule::Top(&model, action), graph, members@, path),
        },
        _ => Err(ErrorView::UnexpectedInputRootType("object"@)),
    }
}

} // verus!
