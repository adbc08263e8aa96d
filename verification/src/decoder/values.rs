//! The typed value of a JSON value for a field type.

use crate::order::put_entry_in;
use crate::order::put_in;
use crate::order::Gather;
use crate::decimal::decimal_from_number;
use crate::decimal::decimal_of_number;
use crate::decoder::Decoder;
use crate::error::outcome;
use crate::error::ActionError;
use crate::error::ErrorView;
use crate::field::FieldType;
use crate::graph::Graph;
use crate::json::Json;
use crate::parse::date_of_text;
use crate::parse::datetime_of_text;
use crate::parse::decimal_of_text;
use crate::parse::is_object_id_text;
use crate::parse::object_id_bytes;
use crate::parse::parse_date;
use crate::parse::parse_datetime;
use crate::parse::parse_decimal;
use crate::parse::parse_object_id;
use crate::parse::parse_signed;
use crate::parse::parse_unsigned;
use crate::parse::signed_of_text;
use crate::parse::unsigned_of_text;
use crate::path::path_index;
use crate::path::path_items;
use crate::path::path_key;
use crate::path::Segment;
use crate::text::contains_name;
use crate::text::has_name;
use crate::value::entries_view;
use crate::value::items_view;
use crate::value::Value;
use crate::value::ValueView;
use key_path::KeyPath;
use vstd::prelude::*;
use vstd::string::StringExecFns;

verus! {

/// What a parser's result becomes: the value it read, or the refusal of the
/// input at the path.
pub open spec fn read_or_refuse(read: Option<ValueView>, expected: Seq<char>, path: Seq<Segment>) -> Result<
    ValueView,
    ErrorView,
> {
    match read {
        Some(v) => Ok(v),
        None => Err(ErrorView::UnexpectedInputValue(expected, path)),
    }
}

/// The integer that a JSON value holds, where it lies between two bounds.
pub open spec fn integer_between(
    json: Json,
    low: int,
    high: int,
    kind: Seq<char>,
    range: Seq<char>,
    path: Seq<Segment>,
) -> Result<int, ErrorView> {
    match json.spec_as_integer() {
        Some(i) => if low <= i <= high {
            Ok(i)
        } else {
            Err(ErrorView::UnexpectedInputValue(range, path))
        },
        None => Err(ErrorView::UnexpectedInputType(kind, path)),
    }
}

/// What names an enum in a report.
pub open spec fn enum_label(name: Seq<char>) -> Seq<char> {
    "string represents enum "@ + name
}

/// The typed value of a JSON value for a field type.
pub open spec fn decoded_value(
    graph: Graph,
    ty: FieldType,
    optional: bool,
    json: Json,
    path: Seq<Segment>,
) -> Result<ValueView, ErrorView>
    decreases json, 1nat,
{
    if optional && json is Null {
        Ok(ValueView::Null)
    } else {
        match ty {
            FieldType::Undefined => Err(
                ErrorView::InternalServerError("A field cannot have undefined field type."@),
            ),
            FieldType::ObjectId => match json.spec_as_text() {
                Some(s) => if is_object_id_text(s) {
                    Ok(ValueView::ObjectId(object_id_bytes(s)))
                } else {
                    Err(ErrorView::UnexpectedInputValue("object id"@, path))
                },
                None => Err(ErrorView::UnexpectedInputType("object id string"@, path)),
            },
            FieldType::Bool => match json.spec_as_bool() {
                Some(b) => Ok(ValueView::Bool(b)),
                None => Err(ErrorView::UnexpectedInputType("bool"@, path)),
            },
            FieldType::I8 => match integer_between(
                json,
                i8::MIN as int,
                i8::MAX as int,
                "8 bit integer"@,
                "8 bit integer range"@,
                path,
            ) {
                Ok(i) => Ok(ValueView::I8(i as i8)),
                Err(e) => Err(e),
            },
            FieldType::I16 => match integer_between(
                json,
                i16::MIN as int,
                i16::MAX as int,
                "16 bit integer"@,
                "16 bit integer range"@,
                path,
            ) {
                Ok(i) => Ok(ValueView::I16(i as i16)),
                Err(e) => Err(e),
            },
            FieldType::I32 => match integer_between(
                json,
                i32::MIN as int,
                i32::MAX as int,
                "32 bit integer"@,
                "32 bit integer range"@,
                path,
            ) {
                Ok(i) => Ok(ValueView::I32(i as i32)),
                Err(e) => Err(e),
            },
            FieldType::I64 => match integer_between(
                json,
                i64::MIN as int,
                i64::MAX as int,
                "64 bit integer"@,
                "64 bit integer range"@,
                path,
            ) {
                Ok(i) => Ok(ValueView::I64(i as i64)),
                Err(e) => Err(e),
            },
            FieldType::I128 => match json.spec_as_text() {
                Some(s) => match signed_of_text(s) {
                    Some(i) => read_or_refuse(
                        Some(ValueView::I128(i)),
                        "128 bit integer range"@,
                        path,
                    ),
                    None => read_or_refuse(None, "128 bit integer range"@, path),
                },
                None => match integer_between(
                    json,
                    i128::MIN as int,
                    i128::MAX as int,
                    "128 bit integer"@,
                    "128 bit integer range"@,
                    path,
                ) {
                    Ok(i) => Ok(ValueView::I128(i as i128)),
                    Err(e) => Err(e),
                },
            },
            FieldType::U8 => match integer_between(
                json,
                0,
                u8::MAX as int,
                "8 bit unsigned integer"@,
                "8 bit unsigned integer range"@,
                path,
            ) {
                Ok(i) => Ok(ValueView::U8(i as u8)),
                Err(e) => Err(e),
            },
            FieldType::U16 => match integer_between(
                json,
                0,
                u16::MAX as int,
                "16 bit unsigned integer"@,
                "16 bit unsigned integer range"@,
                path,
            ) {
                Ok(i) => Ok(ValueView::U16(i as u16)),
                Err(e) => Err(e),
            },
            FieldType::U32 => match integer_between(
                json,
                0,
                u32::MAX as int,
                "32 bit unsigned integer"@,
                "32 bit unsigned integer range"@,
                path,
            ) {
                Ok(i) => Ok(ValueView::U32(i as u32)),
                Err(e) => Err(e),
            },
            FieldType::U64 => match integer_between(
                json,
                0,
                u64::MAX as int,
                "64 bit unsigned integer"@,
                "64 bit unsigned integer range"@,
                path,
            ) {
                Ok(i) => Ok(ValueView::U64(i as u64)),
                Err(e) => Err(e),
            },
            FieldType::U128 => match json.spec_as_text() {
                Some(s) => match unsigned_of_text(s) {
                    Some(i) => read_or_refuse(
                        Some(ValueView::U128(i)),
                        "128 bit unsigned integer range"@,
                        path,
                    ),
                    None => read_or_refuse(None, "128 bit unsigned integer range"@, path),
                },
                None => match integer_between(
                    json,
                    0,
                    u128::MAX as int,
                    "128 bit unsigned integer"@,
                    "128 bit unsigned integer range"@,
                    path,
                ) {
                    Ok(i) => Ok(ValueView::U128(i as u128)),
                    Err(e) => Err(e),
                },
            },
            FieldType::F32 => match json {
                Json::Number(n) => Ok(ValueView::F32(n)),
                _ => Err(ErrorView::UnexpectedInputType("32 bit float"@, path)),
            },
            FieldType::F64 => match json {
                Json::Number(n) => Ok(ValueView::F64(n)),
                _ => Err(ErrorView::UnexpectedInputType("64 bit float"@, path)),
            },
            FieldType::Decimal => match json {
                Json::String(s) => match decimal_of_text(s@) {
                    Some(d) => read_or_refuse(
                        Some(ValueView::Decimal(d)),
                        "decimal string or float"@,
                        path,
                    ),
                    None => read_or_refuse(None, "decimal string or float"@, path),
                },
                Json::Number(n) => match decimal_of_number(n) {
                    Some(d) => Ok(ValueView::Decimal(d)),
                    None => Err(ErrorView::UnexpectedInputValue("decimal string or float"@, path)),
                },
                _ => Err(ErrorView::UnexpectedInputValue("decimal string or float"@, path)),
            },
            FieldType::String => match json.spec_as_text() {
                Some(s) => Ok(ValueView::String(s)),
                None => Err(ErrorView::UnexpectedInputValue("string"@, path)),
            },
            FieldType::Date => match json.spec_as_text() {
                Some(s) => match date_of_text(s, "%Y-%m-%d"@) {
                    Some(d) => read_or_refuse(Some(ValueView::Date(d)), "date string"@, path),
                    None => read_or_refuse(None, "date string"@, path),
                },
                None => Err(ErrorView::UnexpectedInputType("date string"@, path)),
            },
            FieldType::DateTime => match json.spec_as_text() {
                Some(s) => match datetime_of_text(s) {
                    Some(d) => read_or_refuse(
                        Some(ValueView::DateTime(d)),
                        "datetime string"@,
                        path,
                    ),
                    None => read_or_refuse(None, "datetime string"@, path),
                },
                None => Err(ErrorView::UnexpectedInputType("datetime string"@, path)),
            },
            FieldType::Enum(name) => match json.spec_as_text() {
                Some(s) => match graph.spec_enum_values(name@) {
                    Some(values) => if has_name(values, s) {
                        Ok(ValueView::String(s))
                    } else {
                        Err(ErrorView::UnexpectedInputType(enum_label(name@), path))
                    },
                    None => Err(ErrorView::UnexpectedInputType(enum_label(name@), path)),
                },
                None => Err(ErrorView::UnexpectedInputType(enum_label(name@), path)),
            },
            FieldType::Vec(f) => match json {
                Json::Array(items) => match decoded_items(
                    graph,
                    f.field_type,
                    f.spec_is_optional(),
                    items@,
                    path,
                    0,
                    Seq::empty(),
                    Gather::List,
                ) {
                    Ok(vs) => Ok(ValueView::Vec(vs)),
                    Err(e) => Err(e),
                },
                _ => Err(ErrorView::UnexpectedInputType("array"@, path)),
            },
            FieldType::HashSet(f) => match json {
                Json::Array(items) => match decoded_items(
                    graph,
                    f.field_type,
                    f.spec_is_optional(),
                    items@,
                    path,
                    0,
                    Seq::empty(),
                    Gather::Unique,
                ) {
                    Ok(vs) => Ok(ValueView::HashSet(vs)),
                    Err(e) => Err(e),
                },
                _ => Err(ErrorView::UnexpectedInputType("array"@, path)),
            },
            FieldType::BTreeSet(f) => match json {
                Json::Array(items) => match decoded_items(
                    graph,
                    f.field_type,
                    f.spec_is_optional(),
                    items@,
                    path,
                    0,
                    Seq::empty(),
                    Gather::Sorted,
                ) {
                    Ok(vs) => Ok(ValueView::BTreeSet(vs)),
                    Err(e) => Err(e),
                },
                _ => Err(ErrorView::UnexpectedInputType("array"@, path)),
            },
            FieldType::HashMap(f) => match json {
                Json::Object(members) => match decoded_entries(
                    graph,
                    f.field_type,
                    f.spec_is_optional(),
                    members@,
                    path,
                    0,
                    Seq::empty(),
                    false,
                ) {
                    Ok(es) => Ok(ValueView::HashMap(es)),
                    Err(e) => Err(e),
                },
                _ => Err(ErrorView::UnexpectedInputType("object"@, path)),
            },
            FieldType::BTreeMap(f) => match json {
                Json::Object(members) => match decoded_entries(
                    graph,
                    f.field_type,
                    f.spec_is_optional(),
                    members@,
                    path,
                    0,
                    Seq::empty(),
                    true,
                ) {
                    Ok(es) => Ok(ValueView::BTreeMap(es)),
                    Err(e) => Err(e),
                },
                _ => Err(ErrorView::UnexpectedInputType("object"@, path)),
            },
            FieldType::Object(_) => Err(
                ErrorView::InternalServerError("Object input is not implemented yet."@),
            ),
        }
    }
}

/// The typed values of the items of a JSON array from a position on, added
/// to those decoded before as a list or a set. The first item that is refused
/// ends the decoding.
pub open spec fn decoded_items(
    graph: Graph,
    ty: FieldType,
    optional: bool,
    items: Seq<Json>,
    path: Seq<Segment>,
    from: int,
    done: Seq<ValueView>,
    gather: Gather,
) -> Result<Seq<ValueView>, ErrorView>
    decreases items, items.len() - from,
{
    if from < 0 || from >= items.len() {
        Ok(done)
    } else {
        match decoded_value(graph, ty, optional, items[from], path.push(Segment::Index(from as nat))) {
            Ok(v) => decoded_items(
                graph,
                ty,
                optional,
                items,
                path,
                from + 1,
                gather.with(done, v),
                gather,
            ),
            Err(e) => Err(e),
        }
    }
}

/// The typed values of the members of a JSON object from a position on, set
/// in the map of those decoded before, which is sorted by its keys or not.
/// The first member that is refused ends the decoding.
pub open spec fn decoded_entries(
    graph: Graph,
    ty: FieldType,
    optional: bool,
    members: Seq<(String, Json)>,
    path: Seq<Segment>,
    from: int,
    done: Seq<(Seq<char>, ValueView)>,
    sorted: bool,
) -> Result<Seq<(Seq<char>, ValueView)>, ErrorView>
    decreases members, members.len() - from,
{
    if from < 0 || from >= members.len() {
        Ok(done)
    } else {
        match decoded_value(
            graph,
            ty,
            optional,
            members[from].1,
            path.push(Segment::Key(members[from].0@)),
        ) {
            Ok(v) => decoded_entries(
                graph,
                ty,
                optional,
                members,
                path,
                from + 1,
                put_in(sorted, done, members[from].0@, v),
                sorted,
            ),
            Err(e) => Err(e),
        }
    }
}

/// The list of the typed values of the items of a JSON array.
pub open spec fn decoded_value_array(
    graph: Graph,
    ty: FieldType,
    optional: bool,
    json: Json,
    path: Seq<Segment>,
) -> Result<ValueView, ErrorView> {
    match json {
        Json::Array(items) => match decoded_items(
            graph,
            ty,
            optional,
            items@,
            path,
            0,
            Seq::empty(),
            Gather::List,
        ) {
            Ok(vs) => Ok(ValueView::Vec(vs)),
            Err(e) => Err(e),
        },
        _ => Err(ErrorView::UnexpectedInputType("array"@, path)),
    }
}

/// What a parser read, for contracts.
pub open spec fn read_view(read: Option<Value>) -> Option<ValueView> {
    match read {
        Some(v) => Some(v@),
        None => None,
    }
}

impl Decoder {
    /// The value that a parser read, or the refusal of the input at the path
    /// where it read none.
    pub fn value_or_refusal(read: Option<Value>, expected: &str, path: &KeyPath) -> (r: Result<
        Value,
        ActionError,
    >)
        ensures
            outcome(r) == read_or_refuse(read_view(read), expected@, path_items(*path)),
    {
        match read {
            Some(v) => Ok(v),
            None => Err(ActionError::unexpected_input_value(expected, path)),
        }
    }

    /// The integer that a JSON value holds, where it lies between two bounds.
    fn integer_in(
        json: &Json,
        low: i128,
        high: i128,
        kind: &str,
        range: &str,
        path: &KeyPath,
    ) -> (r: Result<i128, ActionError>)
        ensures
            match r {
                Ok(i) => integer_between(
                    *json,
                    low as int,
                    high as int,
                    kind@,
                    range@,
                    path_items(*path),
                ) == Ok::<int, ErrorView>(i as int),
                Err(e) => integer_between(
                    *json,
                    low as int,
                    high as int,
                    kind@,
                    range@,
                    path_items(*path),
                ) == Err::<int, ErrorView>(e@),
            },
    {
        match json.as_integer() {
            Some(i) => if low <= i && i <= high {
                Ok(i)
            } else {
                Err(ActionError::unexpected_input_value(range, path))
            },
            None => Err(ActionError::unexpected_input_type(kind, path)),
        }
    }

    /// The typed values of the items of a JSON array, gathered as a list or a
    /// set.
    fn decode_list(
        graph: &Graph,
        ty: &FieldType,
        optional: bool,
        items: &Vec<Json>,
        path: &KeyPath,
        gather: Gather,
    ) -> (r: Result<Vec<Value>, ActionError>)
        ensures
            match r {
                Ok(vs) => decoded_items(
                    *graph,
                    *ty,
                    optional,
                    items@,
                    path_items(*path),
                    0,
                    Seq::empty(),
                    gather,
                ) == Ok::<Seq<ValueView>, ErrorView>(items_view(vs@)),
                Err(e) => decoded_items(
                    *graph,
                    *ty,
                    optional,
                    items@,
                    path_items(*path),
                    0,
                    Seq::empty(),
                    gather,
                ) == Err::<Seq<ValueView>, ErrorView>(e@),
            },
        decreases items@, items@.len(),
    {
        let ghost whole = decoded_items(
            *graph,
            *ty,
            optional,
            items@,
            path_items(*path),
            0,
            Seq::empty(),
            gather,
        );
        let mut out: Vec<Value> = Vec::new();
        let mut i: usize = 0;
        assert(items_view(out@) =~= Seq::empty());
        while i < items.len()
            invariant
                i <= items.len(),
                whole == decoded_items(
                    *graph,
                    *ty,
                    optional,
                    items@,
                    path_items(*path),
                    0,
                    Seq::empty(),
                    gather,
                ),
                whole == decoded_items(
                    *graph,
                    *ty,
                    optional,
                    items@,
                    path_items(*path),
                    i as int,
                    items_view(out@),
                    gather,
                ),
            decreases items.len() - i,
        {
            let here = path_index(path, i);
            match Self::decode_value_for_field_type(graph, ty, optional, &items[i], &here) {
                Ok(v) => {
                    gather.gather(&mut out, v);
                },
                Err(e) => {
                    assert(decoded_value(
                        *graph,
                        *ty,
                        optional,
                        items@[i as int],
                        path_items(*path).push(Segment::Index(i as nat)),
                    ) == Err::<ValueView, ErrorView>(e@));
                    assert(whole == Err::<Seq<ValueView>, ErrorView>(e@));
                    return Err(e);
                },
            }
            i += 1;
        }
        Ok(out)
    }

    /// The typed values of the members of a JSON object, as a map that is
    /// sorted by its keys or not.
    fn decode_map(
        graph: &Graph,
        ty: &FieldType,
        optional: bool,
        members: &Vec<(String, Json)>,
        path: &KeyPath,
        sorted: bool,
    ) -> (r: Result<Vec<(String, Value)>, ActionError>)
        ensures
            match r {
                Ok(es) => decoded_entries(
                    *graph,
                    *ty,
                    optional,
                    members@,
                    path_items(*path),
                    0,
                    Seq::empty(),
                    sorted,
                ) == Ok::<Seq<(Seq<char>, ValueView)>, ErrorView>(entries_view(es@)),
                Err(e) => decoded_entries(
                    *graph,
                    *ty,
                    optional,
                    members@,
                    path_items(*path),
                    0,
                    Seq::empty(),
                    sorted,
                ) == Err::<Seq<(Seq<char>, ValueView)>, ErrorView>(e@),
            },
        decreases members@, members@.len(),
    {
        let ghost whole = decoded_entries(
            *graph,
            *ty,
            optional,
            members@,
            path_items(*path),
            0,
            Seq::empty(),
            sorted,
        );
        let mut out: Vec<(String, Value)> = Vec::new();
        let mut i: usize = 0;
        assert(entries_view(out@) =~= Seq::empty());
        while i < members.len()
            invariant
                i <= members.len(),
                whole == decoded_entries(
                    *graph,
                    *ty,
                    optional,
                    members@,
                    path_items(*path),
                    0,
                    Seq::empty(),
                    sorted,
                ),
                whole == decoded_entries(
                    *graph,
                    *ty,
                    optional,
                    members@,
                    path_items(*path),
                    i as int,
                    entries_view(out@),
                    sorted,
                ),
            decreases members.len() - i,
        {
            let key = members[i].0.as_str();
            let here = path_key(path, key);
            match Self::decode_value_for_field_type(graph, ty, optional, &members[i].1, &here) {
                Ok(v) => {
                    put_entry_in(sorted, &mut out, key.to_owned(), v);
                },
                Err(e) => {
                    assert(decoded_value(
                        *graph,
                        *ty,
                        optional,
                        members@[i as int].1,
                        path_items(*path).push(Segment::Key(members@[i as int].0@)),
                    ) == Err::<ValueView, ErrorView>(e@));
                    assert(whole == Err::<Seq<(Seq<char>, ValueView)>, ErrorView>(e@));
                    return Err(e);
                },
            }
            i += 1;
        }
        Ok(out)
    }

    /// Decodes a JSON array into the list of its typed items.
    pub fn decode_value_array_for_field_type(
        graph: &Graph,
        ty: &FieldType,
        optional: bool,
        json: &Json,
        path: &KeyPath,
    ) -> (r: Result<Value, ActionError>)
        ensures
            outcome(r) == decoded_value_array(*graph, *ty, optional, *json, path_items(*path)),
    {
        match json.as_array() {
            Some(items) => match Self::decode_list(graph, ty, optional, items, path, Gather::List) {
                Ok(vs) => Ok(Value::Vec(vs)),
                Err(e) => Err(e),
            },
            None => Err(ActionError::unexpected_input_type("array", path)),
        }
    }

    /// Decodes a JSON value into the typed value of a field type.
    ///
    /// `Null` is accepted for an optional field. A number must fit the
    /// integer type; the 128 bit types also read a string. A decimal comes
    /// from a string or from a number that is one exactly. A date is written
    /// `YYYY-MM-DD`, an instant as RFC 3339 asks. A string for an enum must
    /// be one of its values. The first refused item of a collection ends the
    /// decoding.
    pub fn decode_value_for_field_type(
        graph: &Graph,
        ty: &FieldType,
        optional: bool,
        json: &Json,
        path: &KeyPath,
    ) -> (r: Result<Value, ActionError>)
        ensures
            outcome(r) == decoded_value(*graph, *ty, optional, *json, path_items(*path)),
        decreases json, 1nat,
    {
        if optional && json.is_null() {
            return Ok(Value::Null);
        }
        match ty {
            FieldType::Undefined => Err(
                ActionError::InternalServerError(
                    "A field cannot have undefined field type.".to_owned(),
                ),
            ),
            FieldType::ObjectId => match json.as_str() {
                Some(s) => match parse_object_id(s) {
                    Some(b) => Ok(Value::ObjectId(b)),
                    None => Err(ActionError::unexpected_input_value("object id", path)),
                },
                None => Err(ActionError::unexpected_input_type("object id string", path)),
            },
            FieldType::Bool => match json.as_bool() {
                Some(b) => Ok(Value::Bool(b)),
                None => Err(ActionError::unexpected_input_type("bool", path)),
            },
            FieldType::I8 => match Self::integer_in(
                json,
                -0x80,
                0x7f,
                "8 bit integer",
                "8 bit integer range",
                path,
            ) {
                Ok(i) => Ok(Value::I8(i as i8)),
                Err(e) => Err(e),
            },
            FieldType::I16 => match Self::integer_in(
                json,
                -0x8000,
                0x7fff,
                "16 bit integer",
                "16 bit integer range",
                path,
            ) {
                Ok(i) => Ok(Value::I16(i as i16)),
                Err(e) => Err(e),
            },
            FieldType::I32 => match Self::integer_in(
                json,
                -0x8000_0000,
                0x7fff_ffff,
                "32 bit integer",
                "32 bit integer range",
                path,
            ) {
                Ok(i) => Ok(Value::I32(i as i32)),
                Err(e) => Err(e),
            },
            FieldType::I64 => match Self::integer_in(
                json,
                -0x8000_0000_0000_0000,
                0x7fff_ffff_ffff_ffff,
                "64 bit integer",
                "64 bit integer range",
                path,
            ) {
                Ok(i) => Ok(Value::I64(i as i64)),
                Err(e) => Err(e),
            },
            FieldType::I128 => match json.as_str() {
                Some(s) => match parse_signed(s) {
                    Some(i) => Self::value_or_refusal(
                        Some(Value::I128(i)),
                        "128 bit integer range",
                        path,
                    ),
                    None => Self::value_or_refusal(None, "128 bit integer range", path),
                },
                None => match json.as_integer() {
                    Some(i) => Ok(Value::I128(i)),
                    None => Err(ActionError::unexpected_input_type("128 bit integer", path)),
                },
            },
            FieldType::U8 => match Self::integer_in(
                json,
                0,
                0xff,
                "8 bit unsigned integer",
                "8 bit unsigned integer range",
                path,
            ) {
                Ok(i) => Ok(Value::U8(i as u8)),
                Err(e) => Err(e),
            },
            FieldType::U16 => match Self::integer_in(
                json,
                0,
                0xffff,
                "16 bit unsigned integer",
                "16 bit unsigned integer range",
                path,
            ) {
                Ok(i) => Ok(Value::U16(i as u16)),
                Err(e) => Err(e),
            },
            FieldType::U32 => match Self::integer_in(
                json,
                0,
                0xffff_ffff,
                "32 bit unsigned integer",
                "32 bit unsigned integer range",
                path,
            ) {
                Ok(i) => Ok(Value::U32(i as u32)),
                Err(e) => Err(e),
            },
            FieldType::U64 => match Self::integer_in(
                json,
                0,
                0xffff_ffff_ffff_ffff,
                "64 bit unsigned integer",
                "64 bit unsigned integer range",
                path,
            ) {
                Ok(i) => Ok(Value::U64(i as u64)),
                Err(e) => Err(e),
            },
            FieldType::U128 => match json.as_str() {
                Some(s) => match parse_unsigned(s) {
                    Some(i) => Self::value_or_refusal(
                        Some(Value::U128(i)),
                        "128 bit unsigned integer range",
                        path,
                    ),
                    None => Self::value_or_refusal(None, "128 bit unsigned integer range", path),
                },
                None => match json.as_integer() {
                    Some(i) => if i >= 0 {
                        Ok(Value::U128(i as u128))
                    } else {
                        Err(
                            ActionError::unexpected_input_value(
                                "128 bit unsigned integer range",
                                path,
                            ),
                        )
                    },
                    None => Err(
                        ActionError::unexpected_input_type("128 bit unsigned integer", path),
                    ),
                },
            },
            FieldType::F32 => match json.as_number() {
                Some(n) => Ok(Value::F32(n)),
                None => Err(ActionError::unexpected_input_type("32 bit float", path)),
            },
            FieldType::F64 => match json.as_number() {
                Some(n) => Ok(Value::F64(n)),
                None => Err(ActionError::unexpected_input_type("64 bit float", path)),
            },
            FieldType::Decimal => match json {
                Json::String(s) => match parse_decimal(s.as_str()) {
                    Some(d) => Self::value_or_refusal(
                        Some(Value::Decimal(d)),
                        "decimal string or float",
                        path,
                    ),
                    None => Self::value_or_refusal(None, "decimal string or float", path),
                },
                Json::Number(n) => match decimal_from_number(*n) {
                    Some(d) => Ok(Value::Decimal(d)),
                    None => Err(
                        ActionError::unexpected_input_value("decimal string or float", path),
                    ),
                },
                _ => Err(ActionError::unexpected_input_value("decimal string or float", path)),
            },
            FieldType::String => match json.as_str() {
                Some(s) => Ok(Value::String(s.to_owned())),
                None => Err(ActionError::unexpected_input_value("string", path)),
            },
            FieldType::Date => match json.as_str() {
                Some(s) => match parse_date(s, "%Y-%m-%d") {
                    Some(d) => Self::value_or_refusal(Some(Value::Date(d)), "date string", path),
                    None => Self::value_or_refusal(None, "date string", path),
                },
                None => Err(ActionError::unexpected_input_type("date string", path)),
            },
            FieldType::DateTime => match json.as_str() {
                Some(s) => match parse_datetime(s) {
                    Some(d) => Self::value_or_refusal(
                        Some(Value::DateTime(d)),
                        "datetime string",
                        path,
                    ),
                    None => Self::value_or_refusal(None, "datetime string", path),
                },
                None => Err(ActionError::unexpected_input_type("datetime string", path)),
            },
            FieldType::Enum(name) => {
                let label = String::from_str("string represents enum ").concat(name);
                match json.as_str() {
                    Some(s) => match graph.enum_values(name) {
                        Some(values) => if contains_name(values, s) {
                            Ok(Value::String(s.to_owned()))
                        } else {
                            Err(ActionError::unexpected_input_type(label.as_str(), path))
                        },
                        None => Err(ActionError::unexpected_input_type(label.as_str(), path)),
                    },
                    None => Err(ActionError::unexpected_input_type(label.as_str(), path)),
                }
            },
            FieldType::Vec(f) => match json.as_array() {
                Some(items) => match Self::decode_list(
                    graph,
                    f.field_type(),
                    f.is_optional(),
                    items,
                    path,
                    Gather::List,
                ) {
                    Ok(vs) => Ok(Value::Vec(vs)),
                    Err(e) => Err(e),
                },
                None => Err(ActionError::unexpected_input_type("array", path)),
            },
            FieldType::HashSet(f) => match json.as_array() {
                Some(items) => match Self::decode_list(
                    graph,
                    f.field_type(),
                    f.is_optional(),
                    items,
                    path,
                    Gather::Unique,
                ) {
                    Ok(vs) => Ok(Value::HashSet(vs)),
                    Err(e) => Err(e),
                },
                None => Err(ActionError::unexpected_input_type("array", path)),
            },
            FieldType::BTreeSet(f) => match json.as_array() {
                Some(items) => match Self::decode_list(
                    graph,
                    f.field_type(),
                    f.is_optional(),
                    items,
                    path,
                    Gather::Sorted,
                ) {
                    Ok(vs) => Ok(Value::BTreeSet(vs)),
                    Err(e) => Err(e),
                },
                None => Err(ActionError::unexpected_input_type("array", path)),
            },
            FieldType::HashMap(f) => match json.as_object() {
                Some(members) => match Self::decode_map(
                    graph,
                    f.field_type(),
                    f.is_optional(),
                    members,
                    path,
                    false,
                ) {
                    Ok(es) => Ok(Value::HashMap(es)),
                    Err(e) => Err(e),
                },
                None => Err(ActionError::unexpected_input_type("object", path)),
            },
            FieldType::BTreeMap(f) => match json.as_object() {
                Some(members) => match Self::decode_map(
                    graph,
                    f.field_type(),
                    f.is_optional(),
                    members,
                    path,
                    true,
                ) {
                    Ok(es) => Ok(Value::BTreeMap(es)),
                    Err(e) => Err(e),
                },
                None => Err(ActionError::unexpected_input_type("object", path)),
            },
            FieldType::Object(_) => Err(
                ActionError::InternalServerError("Object input is not implemented yet.".to_owned()),
            ),
        }
    }
}

} // verus!
