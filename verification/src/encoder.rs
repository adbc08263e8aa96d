//! Typed values written as JSON.

use crate::error::ActionError;
use crate::json::json_items;
use crate::json::json_members;
use crate::json::Json;
use crate::json::JsonView;
use crate::json::Number;
use crate::parse::hex_text;
use crate::parse::integer_text;
use crate::parse::text_of_date;
use crate::parse::text_of_datetime;
use crate::parse::text_of_decimal;
use crate::parse::write_date;
use crate::parse::write_datetime;
use crate::parse::write_decimal;
use crate::parse::write_object_id;
use crate::parse::write_signed;
use crate::parse::write_unsigned;
use crate::value::entries_view;
use crate::value::items_view;
use crate::value::Value;
use crate::value::ValueView;
use vstd::prelude::*;

verus! {

/// An integer as JSON: a number where 64 bits hold it, else its digits.
pub open spec fn encoded_integer(i: int) -> JsonView {
    if 0 <= i <= u64::MAX {
        JsonView::Number(Number::PosInt(i as u64))
    } else if i64::MIN <= i < 0 {
        JsonView::Number(Number::NegInt(i as i64))
    } else {
        JsonView::String(integer_text(i))
    }
}

/// A text as JSON, where there is one.
pub open spec fn encoded_text(text: Option<Seq<char>>) -> Option<JsonView> {
    match text {
        Some(s) => Some(JsonView::String(s)),
        None => None,
    }
}

/// A value as JSON. A date, an instant or a decimal that is none has no
/// JSON, and neither has a collection that holds one.
pub open spec fn encoded(value: ValueView) -> Option<JsonView>
    decreases value,
{
    match value {
        ValueView::Null => Some(JsonView::Null),
        ValueView::ObjectId(b) => Some(JsonView::String(hex_text(b))),
        ValueView::Bool(b) => Some(JsonView::Bool(b)),
        ValueView::I8(n) => Some(encoded_integer(n as int)),
        ValueView::I16(n) => Some(encoded_integer(n as int)),
        ValueView::I32(n) => Some(encoded_integer(n as int)),
        ValueView::I64(n) => Some(encoded_integer(n as int)),
        ValueView::I128(n) => Some(encoded_integer(n as int)),
        ValueView::U8(n) => Some(encoded_integer(n as int)),
        ValueView::U16(n) => Some(encoded_integer(n as int)),
        ValueView::U32(n) => Some(encoded_integer(n as int)),
        ValueView::U64(n) => Some(encoded_integer(n as int)),
        ValueView::U128(n) => Some(encoded_integer(n as int)),
        ValueView::F32(n) => Some(JsonView::Number(n)),
        ValueView::F64(n) => Some(JsonView::Number(n)),
        ValueView::Decimal(d) => encoded_text(text_of_decimal(d)),
        ValueView::String(s) => Some(JsonView::String(s)),
        ValueView::Date(d) => encoded_text(text_of_date(d)),
        ValueView::DateTime(d) => encoded_text(text_of_datetime(d)),
        ValueView::Vec(items) | ValueView::HashSet(items) | ValueView::BTreeSet(items) => {
            match encoded_items(items, 0, Seq::empty()) {
                Some(js) => Some(JsonView::Array(js)),
                None => None,
            }
        },
        ValueView::HashMap(entries) | ValueView::BTreeMap(entries) => match encoded_entries(
            entries,
            0,
            Seq::empty(),
        ) {
            Some(ms) => Some(JsonView::Object(ms)),
            None => None,
        },
        ValueView::Object(o) => match encoded_entries(o.values, 0, Seq::empty()) {
            Some(ms) => Some(JsonView::Object(ms)),
            None => None,
        },
    }
}

/// The items from a position on as JSON, after those written before.
pub open spec fn encoded_items(items: Seq<ValueView>, from: int, done: Seq<JsonView>) -> Option<
    Seq<JsonView>,
>
    decreases items, items.len() - from,
{
    if from < 0 || from >= items.len() {
        Some(done)
    } else {
        match encoded(items[from]) {
            Some(j) => encoded_items(items, from + 1, done.push(j)),
            None => None,
        }
    }
}

/// The entries from a position on as members, after those written before.
pub open spec fn encoded_entries(
    entries: Seq<(Seq<char>, ValueView)>,
    from: int,
    done: Seq<(Seq<char>, JsonView)>,
) -> Option<Seq<(Seq<char>, JsonView)>>
    decreases entries, entries.len() - from,
{
    if from < 0 || from >= entries.len() {
        Some(done)
    } else {
        match encoded(entries[from].1) {
            Some(j) => encoded_entries(entries, from + 1, done.push((entries[from].0, j))),
            None => None,
        }
    }
}

/// What was written, for contracts.
pub open spec fn written(r: Result<Json, ActionError>) -> Option<JsonView> {
    match r {
        Ok(j) => Some(j@),
        Err(_) => None,
    }
}

/// A text as JSON, or the failure to write a value.
fn text_json(text: Option<String>) -> (r: Result<Json, ActionError>)
    ensures
        written(r) == encoded_text(
            match text {
                Some(s) => Some(s@),
                None => None,
            },
        ),
        r matches Err(e) ==> e@ == crate::error::ErrorView::InternalServerError(
            "Value cannot be written as JSON."@,
        ),
{
    match text {
        Some(s) => Ok(Json::String(s)),
        None => Err(ActionError::InternalServerError("Value cannot be written as JSON.".to_owned())),
    }
}

/// An integer as JSON.
fn integer_json(i: i128) -> (r: Json)
    ensures
        r@ == encoded_integer(i as int),
{
    if 0 <= i && i <= 0xffff_ffff_ffff_ffff {
        Json::Number(Number::PosInt(i as u64))
    } else if -0x8000_0000_0000_0000 <= i && i < 0 {
        Json::Number(Number::NegInt(i as i64))
    } else {
        Json::String(write_signed(i))
    }
}

/// A list of values as JSON.
fn items_json(items: &Vec<Value>) -> (r: Result<Vec<Json>, ActionError>)
    ensures
        match r {
            Ok(js) => encoded_items(items_view(items@), 0, Seq::empty()) == Some(json_items(js@)),
            Err(e) => encoded_items(items_view(items@), 0, Seq::empty()) is None && e@
                == crate::error::ErrorView::InternalServerError(
                "Value cannot be written as JSON."@,
            ),
        },
    decreases items@, items@.len(),
{
    let ghost whole = encoded_items(items_view(items@), 0, Seq::empty());
    let mut out: Vec<Json> = Vec::new();
    let mut i: usize = 0;
    assert(json_items(out@) =~= Seq::empty());
    while i < items.len()
        invariant
            i <= items.len(),
            whole == encoded_items(items_view(items@), 0, Seq::empty()),
            whole == encoded_items(items_view(items@), i as int, json_items(out@)),
        decreases items.len() - i,
    {
        let ghost before = json_items(out@);
        match items[i].to_json() {
            Ok(j) => {
                out.push(j);
                assert(json_items(out@) =~= before.push(j@));
            },
            Err(e) => {
                assert(encoded(items_view(items@)[i as int]) is None);
                return Err(e);
            },
        }
        i += 1;
    }
    Ok(out)
}

/// A map of values as the members of a JSON object.
pub fn entries_json(entries: &Vec<(String, Value)>) -> (r: Result<Vec<(String, Json)>, ActionError>)
    ensures
        match r {
            Ok(ms) => encoded_entries(entries_view(entries@), 0, Seq::empty()) == Some(
                json_members(ms@),
            ),
            Err(e) => encoded_entries(entries_view(entries@), 0, Seq::empty()) is None && e@
                == crate::error::ErrorView::InternalServerError(
                "Value cannot be written as JSON."@,
            ),
        },
    decreases entries@, entries@.len(),
{
    let ghost whole = encoded_entries(entries_view(entries@), 0, Seq::empty());
    let mut out: Vec<(String, Json)> = Vec::new();
    let mut i: usize = 0;
    assert(json_members(out@) =~= Seq::empty());
    while i < entries.len()
        invariant
            i <= entries.len(),
            whole == encoded_entries(entries_view(entries@), 0, Seq::empty()),
            whole == encoded_entries(entries_view(entries@), i as int, json_members(out@)),
        decreases entries.len() - i,
    {
        let ghost before = json_members(out@);
        match entries[i].1.to_json() {
            Ok(j) => {
                out.push((entries[i].0.clone(), j));
                assert(json_members(out@) =~= before.push((entries@[i as int].0@, j@)));
            },
            Err(e) => {
                assert(encoded(entries_view(entries@)[i as int].1) is None);
                return Err(e);
            },
        }
        i += 1;
    }
    Ok(out)
}

impl Value {
    /// Writes the value as JSON.
    ///
    /// An integer is a number where 64 bits hold it, else a string of its
    /// digits. A float is the number it was read from. An object id is hex, a
    /// date `YYYY-MM-DD`, an instant RFC 3339 in UTC, a decimal its digits.
    /// Lists and sets are arrays, maps and objects are objects. A date, an
    /// instant or a decimal that is none cannot be written.
    pub fn to_json(&self) -> (r: Result<Json, ActionError>)
        ensures
            written(r) == encoded(self@),
            r matches Err(e) ==> e@ == crate::error::ErrorView::InternalServerError(
                "Value cannot be written as JSON."@,
            ),
        decreases self,
    {
        match self {
            Value::Null => Ok(Json::Null),
            Value::ObjectId(b) => Ok(Json::String(write_object_id(b))),
            Value::Bool(b) => Ok(Json::Bool(*b)),
            Value::I8(n) => Ok(integer_json(*n as i128)),
            Value::I16(n) => Ok(integer_json(*n as i128)),
            Value::I32(n) => Ok(integer_json(*n as i128)),
            Value::I64(n) => Ok(integer_json(*n as i128)),
            Value::I128(n) => Ok(integer_json(*n)),
            Value::U8(n) => Ok(integer_json(*n as i128)),
            Value::U16(n) => Ok(integer_json(*n as i128)),
            Value::U32(n) => Ok(integer_json(*n as i128)),
            Value::U64(n) => Ok(integer_json(*n as i128)),
            Value::U128(n) => if *n <= 0xffff_ffff_ffff_ffff {
                Ok(Json::Number(Number::PosInt(*n as u64)))
            } else {
                Ok(Json::String(write_unsigned(*n)))
            },
            Value::F32(n) => Ok(Json::Number(*n)),
            Value::F64(n) => Ok(Json::Number(*n)),
            Value::Decimal(d) => text_json(write_decimal(*d)),
            Value::String(s) => Ok(Json::String(s.clone())),
            Value::Date(d) => text_json(write_date(*d)),
            Value::DateTime(d) => text_json(write_datetime(*d)),
            Value::Vec(items) | Value::HashSet(items) | Value::BTreeSet(items) => {
                match items_json(items) {
                    Ok(js) => Ok(Json::Array(js)),
                    Err(e) => Err(e),
                }
            },
            Value::HashMap(entries) | Value::BTreeMap(entries) => match entries_json(entries) {
                Ok(ms) => Ok(Json::Object(ms)),
                Err(e) => Err(e),
            },
            Value::Object(o) => match entries_json(&o.values) {
                Ok(ms) => Ok(Json::Object(ms)),
                Err(e) => Err(e),
            },
        }
    }
}

} // verus!
