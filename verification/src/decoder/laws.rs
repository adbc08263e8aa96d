//! What holds of every request.

use crate::action::ActionType;
use crate::decoder::folds::first_refused_is_refused;
use crate::decoder::folds::keys_of;
use crate::decoder::folds::Allowed;
use crate::decoder::rules::decoded_request;
use crate::decoder::rules::decoded_where_unique;
use crate::decoder::rules::has_unique_index;
use crate::decoder::values::decoded_value;
use crate::encoder::encoded;
use crate::error::ErrorView;
use crate::field::FieldType;
use crate::graph::Graph;
use crate::json::Json;
use crate::json::JsonView;
use crate::model::Model;
use crate::parse::hex_digit;
use crate::parse::hex_text;
use crate::parse::hex_value;
use crate::parse::is_object_id_text;
use crate::parse::object_id_bytes;
use crate::path::Segment;
use vstd::prelude::*;

verus! {

/// The keys of a request are closed: an object that holds a top-level key
/// which the action does not accept is refused for an unexpected key, and the
/// key reported is one that the action does not accept.
pub proof fn unknown_key_is_refused(
    model: Model,
    graph: Graph,
    action: ActionType,
    members: Vec<(String, Json)>,
    at: int,
    path: Seq<Segment>,
)
    requires
        0 <= at < members@.len(),
        !action.allows_key(members@[at].0@),
    ensures
        decoded_request(model, graph, action, Json::Object(members), path) matches Err(
            ErrorView::UnexpectedInputKey(key, place),
        ) && !action.allows_key(key) && place == path.push(Segment::Key(key)),
{
    first_refused_is_refused(keys_of(members@), Allowed::Action(action), 0);
    assert(keys_of(members@)[at] == members@[at].0@);
}

/// A request whose body is no object is refused for its root type.
pub proof fn root_must_be_an_object(
    model: Model,
    graph: Graph,
    action: ActionType,
    json: Json,
    path: Seq<Segment>,
)
    requires
        !(json is Object),
    ensures
        decoded_request(model, graph, action, json, path) == Err::<
            crate::value::ValueView,
            ErrorView,
        >(ErrorView::UnexpectedInputRootType("object"@)),
{
}

/// The key of a unique index is accepted only where the keys of the input
/// are, in order, exactly those of a unique index of the model.
pub proof fn where_unique_matches_an_index(
    model: Model,
    graph: Graph,
    json: Json,
    path: Seq<Segment>,
)
    ensures
        decoded_where_unique(model, graph, json, path) is Ok ==> (json matches Json::Object(
            members,
        ) && members@.len() > 0 && has_unique_index(model.indices@, keys_of(members@))),
{
}

/// The types whose values are read and written by the library alone:
/// booleans, integers, floats, strings and enums.
pub open spec fn is_plain_scalar(ty: FieldType) -> bool {
    match ty {
        FieldType::Bool
        | FieldType::I8
        | FieldType::I16
        | FieldType::I32
        | FieldType::I64
        | FieldType::I128
        | FieldType::U8
        | FieldType::U16
        | FieldType::U32
        | FieldType::U64
        | FieldType::U128
        | FieldType::F32
        | FieldType::F64
        | FieldType::String
        | FieldType::Enum(_) => true,
        _ => false,
    }
}

/// Whether a JSON value is as JSON readers hand it out.
pub open spec fn is_admissible(json: Json) -> bool {
    match json {
        Json::Number(n) => n.is_canonical(),
        _ => true,
    }
}

/// A plain scalar that is accepted is written back as it was read. A string
/// that is read as a 128 bit integer is left out: it is written as a number
/// where 64 bits hold it.
pub proof fn plain_scalars_round_trip(
    graph: Graph,
    ty: FieldType,
    optional: bool,
    json: Json,
    path: Seq<Segment>,
)
    requires
        is_plain_scalar(ty),
        is_admissible(json),
        (ty is I128 || ty is U128) ==> !(json is String),
    ensures
        decoded_value(graph, ty, optional, json, path) matches Ok(v) ==> encoded(v) == Some(json@),
{
}

/// Whether a text is 24 lower case hex digits.
pub open spec fn is_lower_hex_id(text: Seq<char>) -> bool {
    text.len() == 24 && forall|i: int|
        0 <= i < 24 ==> (48 <= (#[trigger] text[i]) as int <= 57 || 97 <= text[i] as int <= 102)
}

/// An object id in lower case is written back as it was read.
pub proof fn object_ids_round_trip(graph: Graph, optional: bool, text: String, path: Seq<Segment>)
    requires
        is_lower_hex_id(text@),
    ensures
        decoded_value(graph, FieldType::ObjectId, optional, Json::String(text), path) matches Ok(
            v,
        ) && encoded(v) == Some(JsonView::String(text@)),
{
    let s = text@;
    assert(is_object_id_text(s));
    let bytes = object_id_bytes(s);
    assert forall|i: int| 0 <= i < 24 implies hex_text(bytes)[i] == s[i] by {
        let k = i / 2;
        let hi = hex_value(s[2 * k]).unwrap();
        let lo = hex_value(s[2 * k + 1]).unwrap();
        assert(hi < 16 && lo < 16);
        assert(bytes[k] == (16 * hi + lo) as u8);
        assert((16 * hi + lo) / 16 == hi);
        assert((16 * hi + lo) % 16 == lo);
        let c = s[i];
        assert(hex_digit(hex_value(c).unwrap()) == c);
    }
    assert(hex_text(bytes) =~= s);
}

} // verus!
