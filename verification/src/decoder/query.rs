//! The decoders of the parts of a request.

use crate::action::ActionType;
use crate::collections::put_entry;
use crate::decoder::folds::first_refused;
use crate::decoder::folds::keys_of;
use crate::decoder::folds::Allowed;
use crate::decoder::rules::decoded_array;
use crate::decoder::rules::decoded_bool;
use crate::decoder::rules::decoded_create_object;
use crate::decoder::rules::decoded_create_or_update;
use crate::decoder::rules::decoded_distinct;
use crate::decoder::rules::decoded_distinct_item;
use crate::decoder::rules::decoded_filter;
use crate::decoder::rules::decoded_include;
use crate::decoder::rules::decoded_include_item;
use crate::decoder::rules::decoded_list;
use crate::decoder::rules::decoded_member;
use crate::decoder::rules::decoded_members;
use crate::decoder::rules::decoded_object;
use crate::decoder::rules::decoded_order_by;
use crate::decoder::rules::decoded_order_by_item;
use crate::decoder::rules::decoded_relation_where;
use crate::decoder::rules::decoded_request;
use crate::decoder::rules::decoded_select;
use crate::decoder::rules::decoded_top;
use crate::decoder::rules::decoded_unsigned;
use crate::decoder::rules::decoded_where;
use crate::decoder::rules::decoded_where_for_field;
use crate::decoder::rules::decoded_where_member;
use crate::decoder::rules::decoded_where_unique;
use crate::decoder::rules::has_unique_index;
use crate::decoder::rules::single_member;
use crate::decoder::rules::Rule;
use crate::decoder::Decoder;
use crate::error::outcome;
use crate::error::ActionError;
use crate::error::ErrorView;
use crate::field::FieldType;
use crate::graph::Graph;
use crate::json::Json;
use crate::model::Model;
use crate::model::ModelIndex;
use crate::model::Multiplicity;
use crate::path::path_index;
use crate::path::path_items;
use crate::path::path_key;
use crate::path::root_path;
use crate::path::Segment;
use crate::text::contains_name;
use crate::text::same_text;
use crate::value::entries_view;
use crate::value::items_view;
use crate::value::Value;
use crate::value::ValueView;
use key_path::KeyPath;
use vstd::prelude::*;

verus! {

/// Whether the members stand for the fields of the index, in its order, and
/// the index is unique.
fn index_matches(index: &ModelIndex, members: &Vec<(String, Json)>) -> (r: bool)
    ensures
        r == (index.unique && index.key_names() == keys_of(members@)),
{
    if !index.unique {
        return false;
    }
    if index.items.len() != members.len() {
        assert(index.key_names().len() != keys_of(members@).len());
        return false;
    }
    let mut i: usize = 0;
    while i < members.len()
        invariant
            i <= members.len(),
            index.items.len() == members.len(),
            forall|j: int| 0 <= j < i ==> index.items@[j].field@ == members@[j].0@,
        decreases members.len() - i,
    {
        if !same_text(index.items[i].field.as_str(), members[i].0.as_str()) {
            assert(index.key_names()[i as int] != keys_of(members@)[i as int]);
            return false;
        }
        i += 1;
    }
    assert(index.key_names() =~= keys_of(members@));
    true
}

/// Whether the members stand for the fields of a unique index of the model.
fn addresses_unique_index(model: &Model, members: &Vec<(String, Json)>) -> (r: bool)
    ensures
        r == has_unique_index(model.indices@, keys_of(members@)),
{
    let mut i: usize = 0;
    while i < model.indices.len()
        invariant
            i <= model.indices.len(),
            forall|j: int|
                0 <= j < i ==> !((#[trigger] model.indices@[j]).unique
                    && model.indices@[j].key_names() == keys_of(members@)),
        decreases model.indices.len() - i,
    {
        if index_matches(&model.indices[i], members) {
            return true;
        }
        i += 1;
    }
    false
}

impl Decoder {
    /// Decodes the body of a request for an action on a model.
    ///
    /// The body must be an object and every key one that the action accepts.
    /// Each member is decoded by its key; the first that is refused is
    /// reported with its place.
    pub fn decode(model: &Model, graph: &Graph, action: ActionType, json: &Json) -> (r: Result<
        Value,
        ActionError,
    >)
        ensures
            outcome(r) == decoded_request(*model, *graph, action, *json, Seq::empty()),
    {
        let root = root_path();
        Self::decode_internal(model, graph, action, json, &root)
    }

    /// Decodes the body of a request that stands at a path.
    pub fn decode_internal(
        model: &Model,
        graph: &Graph,
        action: ActionType,
        json: &Json,
        path: &KeyPath,
    ) -> (r: Result<Value, ActionError>)
        ensures
            outcome(r) == decoded_request(*model, *graph, action, *json, path_items(*path)),
        decreases json, 1nat,
    {
        match json.as_object() {
            Some(members) => match Self::check_json_keys(members, Allowed::Action(action), path) {
                Ok(()) => Self::decode_members(Rule::Top(model, action), graph, members, path),
                Err(e) => Err(e),
            },
            None => Err(ActionError::unexpected_input_root_type("object")),
        }
    }

    /// Reports the first key of an object that is not allowed.
    pub fn check_json_keys(members: &Vec<(String, Json)>, allowed: Allowed, path: &KeyPath) -> (r:
        Result<(), ActionError>)
        ensures
            match r {
                Ok(_) => first_refused(keys_of(members@), allowed, 0) is None,
                Err(e) => match first_refused(keys_of(members@), allowed, 0) {
                    Some(k) => e@ == ErrorView::UnexpectedInputKey(
                        k,
                        path_items(*path).push(Segment::Key(k)),
                    ),
                    None => false,
                },
            },
    {
        let mut i: usize = 0;
        while i < members.len()
            invariant
                i <= members.len(),
                first_refused(keys_of(members@), allowed, 0) == first_refused(
                    keys_of(members@),
                    allowed,
                    i as int,
                ),
            decreases members.len() - i,
        {
            let key = members[i].0.as_str();
            if !allowed.allows(key) {
                let here = path_key(path, key);
                return Err(ActionError::unexpected_input_key(key, &here));
            }
            i += 1;
        }
        Ok(())
    }

    /// The one member of an object of one member.
    pub fn check_length_1<'a>(json: &'a Json, path: &KeyPath) -> (r: Result<
        (&'a str, &'a Json),
        ActionError,
    >)
        ensures
            match r {
                Ok(pair) => single_member(*json, path_items(*path)) == Ok::<
                    (Seq<char>, Json),
                    ErrorView,
                >((pair.0@, *pair.1)),
                Err(e) => single_member(*json, path_items(*path)) == Err::<
                    (Seq<char>, Json),
                    ErrorView,
                >(e@),
            },
    {
        match json.as_object() {
            Some(members) => if members.len() != 1 {
                Err(ActionError::unexpected_object_length(1, path))
            } else {
                Ok((members[0].0.as_str(), &members[0].1))
            },
            None => Err(ActionError::unexpected_input_type("object", path)),
        }
    }

    /// Decodes a member or an item by the rule of its place.
    fn decode_member(rule: Rule, graph: &Graph, key: &str, value: &Json, path: &KeyPath) -> (r:
        Result<Value, ActionError>)
        ensures
            outcome(r) == decoded_member(rule, *graph, key@, *value, path_items(*path)),
        decreases value, 5nat,
    {
        match rule {
            Rule::Select(model) => if contains_name(model.local_output_keys(), key) {
                Self::decode_bool(value, path)
            } else {
                Err(ActionError::unexpected_input_key(key, path))
            },
            Rule::Include(model) => if contains_name(model.relation_output_keys(), key) {
                Self::decode_include_item(model, graph, key, value, path)
            } else {
                Err(ActionError::unexpected_input_key(key, path))
            },
            Rule::Create(model) | Rule::Unique(model) => match model.field(key) {
                Some(f) => Self::decode_value_for_field_type(
                    graph,
                    f.field_type(),
                    f.is_optional(),
                    value,
                    path,
                ),
                None => Err(ActionError::unexpected_input_key(key, path)),
            },
            Rule::CreateItem(model) => Self::decode_create_object(model, graph, value, path),
            Rule::Where(model) => Self::decode_where_member(model, graph, key, value, path),
            Rule::WhereItem(model) => Self::decode_where(model, graph, value, path),
            Rule::Related(model, multiplicity) => {
                let allowed = match multiplicity {
                    Multiplicity::One => same_text(key, "is") || same_text(key, "isNot"),
                    Multiplicity::Many => same_text(key, "some") || same_text(key, "every")
                        || same_text(key, "none"),
                };
                if allowed {
                    Self::decode_where(model, graph, value, path)
                } else {
                    Err(ActionError::unexpected_input_key(key, path))
                }
            },
            Rule::Filter(ty, optional) => Self::decode_filter(graph, ty, optional, key, value, path),
            Rule::Distinct(model) => Self::decode_distinct_item(model, value, path),
            Rule::OrderBy(model) => Self::decode_order_by_item(model, value, path),
            Rule::Top(model, action) => Self::decode_top(model, graph, action, key, value, path),
        }
    }

    /// Decodes the members of an object by a rule, into a map.
    fn decode_members(rule: Rule, graph: &Graph, members: &Vec<(String, Json)>, path: &KeyPath) -> (r:
        Result<Value, ActionError>)
        ensures
            outcome(r) == decoded_object(rule, *graph, members@, path_items(*path)),
        decreases members@, members@.len() + 1,
    {
        let ghost whole = decoded_members(
            rule,
            *graph,
            members@,
            path_items(*path),
            0,
            Seq::empty(),
        );
        let mut out: Vec<(String, Value)> = Vec::new();
        let mut i: usize = 0;
        assert(entries_view(out@) =~= Seq::empty());
        while i < members.len()
            invariant
                i <= members.len(),
                whole == decoded_members(rule, *graph, members@, path_items(*path), 0, Seq::empty()),
                whole == decoded_members(
                    rule,
                    *graph,
                    members@,
                    path_items(*path),
                    i as int,
                    entries_view(out@),
                ),
            decreases members.len() - i,
        {
            let key = members[i].0.as_str();
            let here = path_key(path, key);
            match Self::decode_member(rule, graph, key, &members[i].1, &here) {
                Ok(v) => {
                    put_entry(&mut out, key.to_owned(), v);
                },
                Err(e) => {
                    assert(decoded_member(
                        rule,
                        *graph,
                        members@[i as int].0@,
                        members@[i as int].1,
                        path_items(*path).push(Segment::Key(members@[i as int].0@)),
                    ) == Err::<ValueView, ErrorView>(e@));
                    assert(whole == Err::<Seq<(Seq<char>, ValueView)>, ErrorView>(e@));
                    return Err(e);
                },
            }
            i += 1;
        }
        Ok(Value::HashMap(out))
    }

    /// Decodes the items of an array by a rule, into a list.
    fn decode_array(rule: Rule, graph: &Graph, items: &Vec<Json>, path: &KeyPath) -> (r: Result<
        Value,
        ActionError,
    >)
        ensures
            outcome(r) == decoded_array(rule, *graph, items@, path_items(*path)),
        decreases items@, items@.len() + 1,
    {
        let ghost whole = decoded_list(rule, *graph, items@, path_items(*path), 0, Seq::empty());
        let mut out: Vec<Value> = Vec::new();
        let mut i: usize = 0;
        assert(items_view(out@) =~= Seq::empty());
        proof {
            reveal_strlit("");
            assert(""@ =~= Seq::<char>::empty());
        }
        while i < items.len()
            invariant
                i <= items.len(),
                ""@ == Seq::<char>::empty(),
                whole == decoded_list(rule, *graph, items@, path_items(*path), 0, Seq::empty()),
                whole == decoded_list(
                    rule,
                    *graph,
                    items@,
                    path_items(*path),
                    i as int,
                    items_view(out@),
                ),
            decreases items.len() - i,
        {
            let here = path_index(path, i);
            let ghost before = items_view(out@);
            match Self::decode_member(rule, graph, "", &items[i], &here) {
                Ok(v) => {
                    out.push(v);
                    assert(items_view(out@) =~= before.push(v@));
                },
                Err(e) => {
                    assert(decoded_member(
                        rule,
                        *graph,
                        Seq::empty(),
                        items@[i as int],
                        path_items(*path).push(Segment::Index(i as nat)),
                    ) == Err::<ValueView, ErrorView>(e@));
                    assert(whole == Err::<Seq<ValueView>, ErrorView>(e@));
                    return Err(e);
                },
            }
            i += 1;
        }
        Ok(Value::Vec(out))
    }

    pub fn decode_bool(json: &Json, path: &KeyPath) -> (r: Result<Value, ActionError>)
        ensures
            outcome(r) == decoded_bool(*json, path_items(*path)),
    {
        match json.as_bool() {
            Some(b) => Ok(Value::Bool(b)),
            None => Err(ActionError::unexpected_input_type("bool", path)),
        }
    }

    pub fn decode_usize(json: &Json, path: &KeyPath) -> (r: Result<Value, ActionError>)
        ensures
            outcome(r) == decoded_unsigned(*json, path_items(*path)),
    {
        match json.as_u64() {
            Some(u) => Ok(Value::U64(u)),
            None => Err(ActionError::unexpected_input_type("positive integer number", path)),
        }
    }

    /// Decodes `select`: an object that says of fields, by `true` or
    /// `false`, whether to show them.
    pub fn decode_select(model: &Model, graph: &Graph, json: &Json, path: &KeyPath) -> (r: Result<
        Value,
        ActionError,
    >)
        ensures
            outcome(r) == decoded_select(*model, *graph, *json, path_items(*path)),
        decreases json, 1nat,
    {
        match json.as_object() {
            Some(members) => Self::decode_members(Rule::Select(model), graph, members, path),
            None => Err(ActionError::unexpected_input_type("object", path)),
        }
    }

    /// Decodes `include`: an object that says of relations whether and how
    /// to show the related objects.
    pub fn decode_include(model: &Model, graph: &Graph, json: &Json, path: &KeyPath) -> (r: Result<
        Value,
        ActionError,
    >)
        ensures
            outcome(r) == decoded_include(*model, *graph, *json, path_items(*path)),
        decreases json, 1nat,
    {
        match json.as_object() {
            Some(members) => Self::decode_members(Rule::Include(model), graph, members, path),
            None => Err(ActionError::unexpected_input_type("object", path)),
        }
    }

    /// Decodes what is asked of one relation under `include`.
    pub fn decode_include_item(
        model: &Model,
        graph: &Graph,
        name: &str,
        json: &Json,
        path: &KeyPath,
    ) -> (r: Result<Value, ActionError>)
        ensures
            outcome(r) == decoded_include_item(*model, *graph, name@, *json, path_items(*path)),
        decreases json, 3nat,
    {
        match json {
            Json::Bool(b) => Ok(Value::Bool(*b)),
            Json::Object(_) => match model.relation(name) {
                Some(relation) => match graph.model(relation.model.as_str()) {
                    Some(related) => Self::decode_internal(
                        related,
                        graph,
                        ActionType::FindMany,
                        json,
                        path,
                    ),
                    None => Err(
                        ActionError::InternalServerError(
                            "Model of relation is not found.".to_owned(),
                        ),
                    ),
                },
                None => Err(ActionError::InternalServerError("Relation is not found.".to_owned())),
            },
            _ => Err(ActionError::unexpected_input_type("bool or object", path)),
        }
    }

    /// Decodes `distinct`: the name of a scalar field, or an array of such.
    pub fn decode_distinct(model: &Model, graph: &Graph, json: &Json, path: &KeyPath) -> (r: Result<
        Value,
        ActionError,
    >)
        ensures
            outcome(r) == decoded_distinct(*model, *graph, *json, path_items(*path)),
        decreases json, 3nat,
    {
        match json {
            Json::String(_) => Self::decode_distinct_item(model, json, path),
            Json::Array(items) => Self::decode_array(Rule::Distinct(model), graph, items, path),
            _ => Err(ActionError::unexpected_input_type("string or array", path)),
        }
    }

    pub fn decode_distinct_item(model: &Model, json: &Json, path: &KeyPath) -> (r: Result<
        Value,
        ActionError,
    >)
        ensures
            outcome(r) == decoded_distinct_item(*model, *json, path_items(*path)),
    {
        match json.as_str() {
            Some(s) => if contains_name(model.scalar_keys(), s) {
                Ok(Value::String(s.to_owned()))
            } else {
                Err(ActionError::unexpected_input_value("scalar fields enum", path))
            },
            None => Err(ActionError::unexpected_input_type("string", path)),
        }
    }

    /// Decodes `orderBy`: an object of one field and its direction, or an
    /// array of such. The result is a list in both cases.
    pub fn decode_order_by(model: &Model, graph: &Graph, json: &Json, path: &KeyPath) -> (r: Result<
        Value,
        ActionError,
    >)
        ensures
            outcome(r) == decoded_order_by(*model, *graph, *json, path_items(*path)),
        decreases json, 3nat,
    {
        match json {
            Json::Object(_) => match Self::decode_order_by_item(model, json, path) {
                Ok(v) => {
                    let mut out: Vec<Value> = Vec::new();
                    out.push(v);
                    assert(items_view(out@) =~= seq![v@]);
                    Ok(Value::Vec(out))
                },
                Err(e) => Err(e),
            },
            Json::Array(items) => Self::decode_array(Rule::OrderBy(model), graph, items, path),
            _ => Err(ActionError::unexpected_input_type("object or array", path)),
        }
    }

    pub fn decode_order_by_item(model: &Model, json: &Json, path: &KeyPath) -> (r: Result<
        Value,
        ActionError,
    >)
        ensures
            outcome(r) == decoded_order_by_item(*model, *json, path_items(*path)),
    {
        match Self::check_length_1(json, path) {
            Ok(pair) => match pair.1.as_str() {
                Some(s) => if same_text(s, "asc") || same_text(s, "desc") {
                    let mut out: Vec<(String, Value)> = Vec::new();
                    out.push((pair.0.to_owned(), Value::String(s.to_owned())));
                    assert(entries_view(out@) =~= seq![(pair.0@, ValueView::String(s@))]);
                    Ok(Value::HashMap(out))
                } else {
                    Err(ActionError::unexpected_input_type("string", path))
                },
                None => Err(ActionError::unexpected_input_type("string", path)),
            },
            Err(e) => Err(e),
        }
    }

    /// Decodes the values to create or update one object with.
    pub fn decode_create_object(model: &Model, graph: &Graph, json: &Json, path: &KeyPath) -> (r:
        Result<Value, ActionError>)
        ensures
            outcome(r) == decoded_create_object(*model, *graph, *json, path_items(*path)),
        decreases json, 1nat,
    {
        match json.as_object() {
            Some(members) => Self::decode_members(Rule::Create(model), graph, members, path),
            None => Err(ActionError::unexpected_input_type("object", path)),
        }
    }

    /// Decodes `create` or `update`: the values for one object, or an array
    /// of the values for several.
    pub fn decode_create_or_update(model: &Model, graph: &Graph, json: &Json, path: &KeyPath) -> (r:
        Result<Value, ActionError>)
        ensures
            outcome(r) == decoded_create_or_update(*model, *graph, *json, path_items(*path)),
        decreases json, 3nat,
    {
        match json {
            Json::Object(_) => Self::decode_create_object(model, graph, json, path),
            Json::Array(items) => Self::decode_array(Rule::CreateItem(model), graph, items, path),
            _ => Err(ActionError::unexpected_input_type("object or array", path)),
        }
    }

    /// Decodes the key of a unique index.
    pub fn decode_where_unique(model: &Model, graph: &Graph, json: &Json, path: &KeyPath) -> (r:
        Result<Value, ActionError>)
        ensures
            outcome(r) == decoded_where_unique(*model, *graph, *json, path_items(*path)),
        decreases json, 1nat,
    {
        match json.as_object() {
            Some(members) => if members.len() == 0 {
                Err(ActionError::unexpected_input_value("Unique where can't be empty.", path))
            } else if addresses_unique_index(model, members) {
                Self::decode_members(Rule::Unique(model), graph, members, path)
            } else {
                Err(ActionError::unexpected_input_key(members[0].0.as_str(), path))
            },
            None => Err(ActionError::unexpected_input_type("object", path)),
        }
    }

    /// Decodes a filter.
    pub fn decode_where(model: &Model, graph: &Graph, json: &Json, path: &KeyPath) -> (r: Result<
        Value,
        ActionError,
    >)
        ensures
            outcome(r) == decoded_where(*model, *graph, *json, path_items(*path)),
        decreases json, 1nat,
    {
        match json.as_object() {
            Some(members) => Self::decode_members(Rule::Where(model), graph, members, path),
            None => Err(ActionError::unexpected_input_type("object", path)),
        }
    }

    /// Decodes one member of a filter.
    fn decode_where_member(model: &Model, graph: &Graph, key: &str, value: &Json, path: &KeyPath) -> (r:
        Result<Value, ActionError>)
        ensures
            outcome(r) == decoded_where_member(*model, *graph, key@, *value, path_items(*path)),
        decreases value, 4nat,
    {
        if same_text(key, "AND") || same_text(key, "OR") {
            match value {
                Json::Object(_) => Self::decode_where(model, graph, value, path),
                Json::Array(items) => Self::decode_array(Rule::WhereItem(model), graph, items, path),
                _ => Err(ActionError::unexpected_input_type("object or array", path)),
            }
        } else if same_text(key, "NOT") {
            match value {
                Json::Object(_) => Self::decode_where(model, graph, value, path),
                _ => Err(ActionError::unexpected_input_type("object", path)),
            }
        } else {
            let field = if contains_name(model.query_keys(), key) {
                model.field(key)
            } else {
                None
            };
            match field {
                Some(f) => Self::decode_where_for_field(
                    graph,
                    f.field_type(),
                    f.is_optional(),
                    value,
                    path,
                ),
                None => match model.relation(key) {
                    Some(relation) => Self::decode_relation_where(
                        graph,
                        relation.model.as_str(),
                        relation.multiplicity,
                        value,
                        path,
                    ),
                    None => Err(ActionError::unexpected_input_key(key, path)),
                },
            }
        }
    }

    /// Decodes the filter of a relation to a model.
    pub fn decode_relation_where(
        graph: &Graph,
        related: &str,
        multiplicity: Multiplicity,
        json: &Json,
        path: &KeyPath,
    ) -> (r: Result<Value, ActionError>)
        ensures
            outcome(r) == decoded_relation_where(
                *graph,
                related@,
                multiplicity,
                *json,
                path_items(*path),
            ),
        decreases json, 1nat,
    {
        match json.as_object() {
            Some(members) => match graph.model(related) {
                Some(model) => Self::decode_members(
                    Rule::Related(model, multiplicity),
                    graph,
                    members,
                    path,
                ),
                None => Err(
                    ActionError::InternalServerError("Model of relation is not found.".to_owned()),
                ),
            },
            None => Err(ActionError::unexpected_input_type("object", path)),
        }
    }

    /// Decodes the filter of a field: a value, which stands for `equals`, or
    /// an object of the filters of the field's type.
    pub fn decode_where_for_field(
        graph: &Graph,
        ty: &FieldType,
        optional: bool,
        json: &Json,
        path: &KeyPath,
    ) -> (r: Result<Value, ActionError>)
        ensures
            outcome(r) == decoded_where_for_field(*graph, *ty, optional, *json, path_items(*path)),
        decreases json, 1nat,
    {
        match json.as_object() {
            Some(members) => match Self::check_json_keys(
                members,
                Allowed::Filters(ty.filters()),
                path,
            ) {
                Ok(()) => Self::decode_members(Rule::Filter(ty, optional), graph, members, path),
                Err(e) => Err(e),
            },
            None => match Self::decode_value_for_field_type(graph, ty, optional, json, path) {
                Ok(v) => {
                    let mut out: Vec<(String, Value)> = Vec::new();
                    out.push(("equals".to_owned(), v));
                    assert(entries_view(out@) =~= seq![("equals"@, v@)]);
                    Ok(Value::HashMap(out))
                },
                Err(e) => Err(e),
            },
        }
    }

    /// Decodes one filter of a field.
    fn decode_filter(
        graph: &Graph,
        ty: &FieldType,
        optional: bool,
        key: &str,
        value: &Json,
        path: &KeyPath,
    ) -> (r: Result<Value, ActionError>)
        ensures
            outcome(r) == decoded_filter(*graph, *ty, optional, key@, *value, path_items(*path)),
        decreases value, 4nat,
    {
        if same_text(key, "equals") {
            Self::decode_value_for_field_type(graph, ty, optional, value, path)
        } else if same_text(key, "not") {
            Self::decode_where_for_field(graph, ty, optional, value, path)
        } else if same_text(key, "gt") || same_text(key, "gte") || same_text(key, "lt")
            || same_text(key, "lte") || same_text(key, "contains") || same_text(key, "startsWith")
            || same_text(key, "endsWith") || same_text(key, "matches") {
            Self::decode_value_for_field_type(graph, ty, false, value, path)
        } else if same_text(key, "in") || same_text(key, "notIn") {
            Self::decode_value_array_for_field_type(graph, ty, false, value, path)
        } else if same_text(key, "mode") {
            match value.as_str() {
                Some(s) => if same_text(s, "default") || same_text(s, "caseInsensitive") {
                    Ok(Value::String(s.to_owned()))
                } else {
                    Err(ActionError::unexpected_input_type("'default' or 'caseInsensitive'", path))
                },
                None => Err(ActionError::unexpected_input_type("string", path)),
            }
        } else if same_text(key, "has") || same_text(key, "hasEvery") || same_text(key, "hasSome") {
            match ty.element_field() {
                Some(f) => if same_text(key, "has") {
                    Self::decode_value_for_field_type(
                        graph,
                        f.field_type(),
                        f.is_optional(),
                        value,
                        path,
                    )
                } else {
                    Self::decode_value_array_for_field_type(
                        graph,
                        f.field_type(),
                        f.is_optional(),
                        value,
                        path,
                    )
                },
                None => Err(ActionError::unexpected_input_key(key, path)),
            }
        } else if same_text(key, "isEmpty") {
            Self::decode_value_for_field_type(graph, &FieldType::Bool, false, value, path)
        } else if same_text(key, "length") {
            Self::decode_value_for_field_type(graph, &FieldType::U64, false, value, path)
        } else {
            Err(ActionError::unexpected_input_key(key, path))
        }
    }

    /// Decodes one member of a request.
    fn decode_top(
        model: &Model,
        graph: &Graph,
        action: ActionType,
        key: &str,
        value: &Json,
        path: &KeyPath,
    ) -> (r: Result<Value, ActionError>)
        ensures
            outcome(r) == decoded_top(*model, *graph, action, key@, *value, path_items(*path)),
        decreases value, 4nat,
    {
        if same_text(key, "where") {
            if action.requires_where() {
                Self::decode_where(model, graph, value, path)
            } else {
                Self::decode_where_unique(model, graph, value, path)
            }
        } else if same_text(key, "orderBy") {
            Self::decode_order_by(model, graph, value, path)
        } else if same_text(key, "cursor") {
            Self::decode_where_unique(model, graph, value, path)
        } else if same_text(key, "distinct") {
            Self::decode_distinct(model, graph, value, path)
        } else if same_text(key, "skip") || same_text(key, "take") || same_text(key, "pageSize")
            || same_text(key, "pageNumber") {
            Self::decode_usize(value, path)
        } else if same_text(key, "select") {
            Self::decode_select(model, graph, value, path)
        } else if same_text(key, "include") {
            Self::decode_include(model, graph, value, path)
        } else if same_text(key, "create") || same_text(key, "update") {
            Self::decode_create_or_update(model, graph, value, path)
        } else {
            Err(ActionError::unexpected_input_key(key, path))
        }
    }
}

} // verus!
