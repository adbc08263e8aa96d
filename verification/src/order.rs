//! The order in which sorted sets and maps hold their items.
//!
//! Values of different kinds stand in the order of the kinds. Values of one
//! kind stand in their natural order where the kind has one: numbers by size,
//! text and bytes as a dictionary has them, dates and instants by time.
//! Collections and objects have no order among themselves: in a sorted set
//! they stay in the order in which they came.

use crate::collections::put;
use crate::collections::put_entry;
use crate::collections::with_item;
use crate::collections::add_item;
use crate::json::Number;
use crate::value::entries_view;
use crate::value::items_view;
use crate::value::Value;
use crate::value::ValueView;
use vstd::prelude::*;

verus! {

/// Whether one text stands before another as a dictionary has them, each
/// character by its code.
pub open spec fn text_less(a: Seq<char>, b: Seq<char>) -> bool
    decreases a.len(),
{
    if b.len() == 0 {
        false
    } else if a.len() == 0 {
        true
    } else if a[0] != b[0] {
        (a[0] as int) < (b[0] as int)
    } else {
        text_less(a.drop_first(), b.drop_first())
    }
}

/// Whether one sequence of bytes stands before another of the same length,
/// from a position on.
pub open spec fn bytes_less(a: Seq<u8>, b: Seq<u8>, from: int) -> bool
    decreases a.len() - from,
{
    if from < 0 || from >= a.len() || from >= b.len() {
        false
    } else if a[from] != b[from] {
        a[from] < b[from]
    } else {
        bytes_less(a, b, from + 1)
    }
}

/// The place of a kind of number among the kinds.
pub open spec fn number_rank(n: Number) -> int {
    match n {
        Number::NegInt(_) => 0,
        Number::PosInt(_) => 1,
        Number::Float(_) => 2,
    }
}

/// Whether one number, as read, stands before another: whole numbers below
/// zero first, then the others, then the floats by their bits.
pub open spec fn number_less(a: Number, b: Number) -> bool {
    match (a, b) {
        (Number::NegInt(x), Number::NegInt(y)) => x < y,
        (Number::PosInt(x), Number::PosInt(y)) => x < y,
        (Number::Float(x), Number::Float(y)) => x < y,
        _ => number_rank(a) < number_rank(b),
    }
}

/// The place of the kind of a value among the kinds.
pub open spec fn rank(v: ValueView) -> int {
    match v {
        ValueView::Null => 0,
        ValueView::ObjectId(_) => 1,
        ValueView::Bool(_) => 2,
        ValueView::I8(_) => 3,
        ValueView::I16(_) => 4,
        ValueView::I32(_) => 5,
        ValueView::I64(_) => 6,
        ValueView::I128(_) => 7,
        ValueView::U8(_) => 8,
        ValueView::U16(_) => 9,
        ValueView::U32(_) => 10,
        ValueView::U64(_) => 11,
        ValueView::U128(_) => 12,
        ValueView::F32(_) => 13,
        ValueView::F64(_) => 14,
        ValueView::Decimal(_) => 15,
        ValueView::String(_) => 16,
        ValueView::Date(_) => 17,
        ValueView::DateTime(_) => 18,
        ValueView::Vec(_) => 19,
        ValueView::HashSet(_) => 20,
        ValueView::BTreeSet(_) => 21,
        ValueView::HashMap(_) => 22,
        ValueView::BTreeMap(_) => 23,
        ValueView::Object(_) => 24,
    }
}

/// Whether one value stands before another.
pub open spec fn less(a: ValueView, b: ValueView) -> bool {
    match (a, b) {
        (ValueView::ObjectId(x), ValueView::ObjectId(y)) => bytes_less(x, y, 0),
        (ValueView::Bool(x), ValueView::Bool(y)) => !x && y,
        (ValueView::I8(x), ValueView::I8(y)) => x < y,
        (ValueView::I16(x), ValueView::I16(y)) => x < y,
        (ValueView::I32(x), ValueView::I32(y)) => x < y,
        (ValueView::I64(x), ValueView::I64(y)) => x < y,
        (ValueView::I128(x), ValueView::I128(y)) => x < y,
        (ValueView::U8(x), ValueView::U8(y)) => x < y,
        (ValueView::U16(x), ValueView::U16(y)) => x < y,
        (ValueView::U32(x), ValueView::U32(y)) => x < y,
        (ValueView::U64(x), ValueView::U64(y)) => x < y,
        (ValueView::U128(x), ValueView::U128(y)) => x < y,
        (ValueView::F32(x), ValueView::F32(y)) => number_less(x, y),
        (ValueView::F64(x), ValueView::F64(y)) => number_less(x, y),
        (ValueView::Decimal(x), ValueView::Decimal(y)) => x.scale < y.scale || (x.scale == y.scale
            && x.mantissa < y.mantissa),
        (ValueView::String(x), ValueView::String(y)) => text_less(x, y),
        (ValueView::Date(x), ValueView::Date(y)) => x.year < y.year || (x.year == y.year && (x.month
            < y.month || (x.month == y.month && x.day < y.day))),
        (ValueView::DateTime(x), ValueView::DateTime(y)) => x.seconds < y.seconds || (x.seconds
            == y.seconds && x.nanos < y.nanos),
        _ => rank(a) < rank(b),
    }
}

/// The first position at or after `from` of a value before which the given
/// one stands; the length where there is none.
pub open spec fn place_of(items: Seq<ValueView>, value: ValueView, from: int) -> int
    decreases items.len() - from,
{
    if from < 0 || from >= items.len() {
        items.len() as int
    } else if less(value, items[from]) {
        from
    } else {
        place_of(items, value, from + 1)
    }
}

/// The sorted set after the value was added: a value that the set holds is
/// dropped; another one goes before the first value that it stands before.
pub open spec fn with_sorted_item(items: Seq<ValueView>, value: ValueView) -> Seq<ValueView> {
    if items.contains(value) {
        items
    } else {
        items.insert(place_of(items, value, 0), value)
    }
}

/// The first position at or after `from` of a key before which the given
/// one stands; the length where there is none.
pub open spec fn place_of_key(entries: Seq<(Seq<char>, ValueView)>, key: Seq<char>, from: int) -> int
    decreases entries.len() - from,
{
    if from < 0 || from >= entries.len() {
        entries.len() as int
    } else if text_less(key, entries[from].0) {
        from
    } else {
        place_of_key(entries, key, from + 1)
    }
}

/// The sorted map after the key was set to the value: the value takes the
/// place of the one that the key had; a new key goes before the first key
/// that it stands before.
pub open spec fn sorted_put(
    entries: Seq<(Seq<char>, ValueView)>,
    key: Seq<char>,
    value: ValueView,
) -> Seq<(Seq<char>, ValueView)> {
    match crate::collections::key_index(entries, key, 0) {
        Some(i) => entries.update(i, (key, value)),
        None => entries.insert(place_of_key(entries, key, 0), (key, value)),
    }
}

/// Whether one text stands before another.
///
/// Trusted: `str` is ordered as a dictionary has it by the bytes of its
/// UTF-8 form, which is the order of the codes of its characters.
#[verifier::external_body]
pub(crate) fn text_before(a: &str, b: &str) -> (r: bool)
    ensures
        r == text_less(a@, b@),
{
    a < b
}

/// Whether one object id stands before another.
fn bytes_before(a: &[u8; 12], b: &[u8; 12]) -> (r: bool)
    ensures
        r == bytes_less(a@, b@, 0),
{
    let mut i: usize = 0;
    while i < 12
        invariant
            i <= 12,
            bytes_less(a@, b@, 0) == bytes_less(a@, b@, i as int),
        decreases 12 - i,
    {
        if a[i] != b[i] {
            return a[i] < b[i];
        }
        i += 1;
    }
    false
}

/// Whether one number stands before another.
fn number_before(a: Number, b: Number) -> (r: bool)
    ensures
        r == number_less(a, b),
{
    match (a, b) {
        (Number::NegInt(x), Number::NegInt(y)) => x < y,
        (Number::PosInt(x), Number::PosInt(y)) => x < y,
        (Number::Float(x), Number::Float(y)) => x < y,
        (Number::NegInt(_), _) => true,
        (Number::PosInt(_), Number::Float(_)) => true,
        _ => false,
    }
}

/// The place of the kind of a value among the kinds.
fn rank_of(v: &Value) -> (r: u8)
    ensures
        r == rank(v@),
{
    match v {
        Value::Null => 0,
        Value::ObjectId(_) => 1,
        Value::Bool(_) => 2,
        Value::I8(_) => 3,
        Value::I16(_) => 4,
        Value::I32(_) => 5,
        Value::I64(_) => 6,
        Value::I128(_) => 7,
        Value::U8(_) => 8,
        Value::U16(_) => 9,
        Value::U32(_) => 10,
        Value::U64(_) => 11,
        Value::U128(_) => 12,
        Value::F32(_) => 13,
        Value::F64(_) => 14,
        Value::Decimal(_) => 15,
        Value::String(_) => 16,
        Value::Date(_) => 17,
        Value::DateTime(_) => 18,
        Value::Vec(_) => 19,
        Value::HashSet(_) => 20,
        Value::BTreeSet(_) => 21,
        Value::HashMap(_) => 22,
        Value::BTreeMap(_) => 23,
        Value::Object(_) => 24,
    }
}

/// Whether one value stands before another.
pub fn before(a: &Value, b: &Value) -> (r: bool)
    ensures
        r == less(a@, b@),
{
    match (a, b) {
        (Value::ObjectId(x), Value::ObjectId(y)) => bytes_before(x, y),
        (Value::Bool(x), Value::Bool(y)) => !*x && *y,
        (Value::I8(x), Value::I8(y)) => *x < *y,
        (Value::I16(x), Value::I16(y)) => *x < *y,
        (Value::I32(x), Value::I32(y)) => *x < *y,
        (Value::I64(x), Value::I64(y)) => *x < *y,
        (Value::I128(x), Value::I128(y)) => *x < *y,
        (Value::U8(x), Value::U8(y)) => *x < *y,
        (Value::U16(x), Value::U16(y)) => *x < *y,
        (Value::U32(x), Value::U32(y)) => *x < *y,
        (Value::U64(x), Value::U64(y)) => *x < *y,
        (Value::U128(x), Value::U128(y)) => *x < *y,
        (Value::F32(x), Value::F32(y)) => number_before(*x, *y),
        (Value::F64(x), Value::F64(y)) => number_before(*x, *y),
        (Value::Decimal(x), Value::Decimal(y)) => x.scale < y.scale || (x.scale == y.scale
            && x.mantissa < y.mantissa),
        (Value::String(x), Value::String(y)) => text_before(x.as_str(), y.as_str()),
        (Value::Date(x), Value::Date(y)) => x.year < y.year || (x.year == y.year && (x.month
            < y.month || (x.month == y.month && x.day < y.day))),
        (Value::DateTime(x), Value::DateTime(y)) => x.seconds < y.seconds || (x.seconds
            == y.seconds && x.nanos < y.nanos),
        _ => rank_of(a) < rank_of(b),
    }
}

/// Adds a value to a sorted set.
pub fn add_sorted_item(items: &mut Vec<Value>, value: Value)
    ensures
        items_view(final(items)@) == with_sorted_item(items_view(old(items)@), value@),
{
    let ghost start = items_view(items@);
    let mut i: usize = 0;
    while i < items.len()
        invariant
            i <= items.len(),
            start == items_view(items@),
            start == items_view(old(items)@),
            forall|j: int| 0 <= j < i ==> start[j] != value@,
        decreases items.len() - i,
    {
        if items[i].same(&value) {
            assert(start[i as int] == value@);
            return ;
        }
        i += 1;
    }
    let mut p: usize = 0;
    while p < items.len() && !before(&value, &items[p])
        invariant
            p <= items.len(),
            start == items_view(items@),
            place_of(start, value@, 0) == place_of(start, value@, p as int),
        decreases items.len() - p,
    {
        p += 1;
    }
    items.insert(p, value);
    assert(items_view(items@) =~= start.insert(p as int, value@));
}

/// Sets a key of a sorted map to a value.
pub fn put_sorted_entry(entries: &mut Vec<(String, Value)>, key: String, value: Value)
    ensures
        entries_view(final(entries)@) == sorted_put(entries_view(old(entries)@), key@, value@),
{
    let ghost start = entries_view(entries@);
    match crate::collections::find_entry(entries, key.as_str()) {
        Some(i) => {
            entries.set(i, (key, value));
            assert(entries_view(entries@) =~= start.update(i as int, (key@, value@)));
        },
        None => {
            let mut p: usize = 0;
            while p < entries.len() && !text_before(key.as_str(), entries[p].0.as_str())
                invariant
                    p <= entries.len(),
                    start == entries_view(entries@),
                    place_of_key(start, key@, 0) == place_of_key(start, key@, p as int),
                decreases entries.len() - p,
            {
                p += 1;
            }
            entries.insert(p, (key, value));
            assert(entries_view(entries@) =~= start.insert(p as int, (key@, value@)));
        },
    }
}

/// How the items of an array are gathered: all in order, as a set in the
/// order in which they first came, or as a sorted set.
#[derive(Clone, Copy, Debug, PartialEq, Eq, Structural)]
pub enum Gather {
    List,
    Unique,
    Sorted,
}

impl Gather {
    /// What was gathered, with one value more.
    pub open spec fn with(self, done: Seq<ValueView>, value: ValueView) -> Seq<ValueView> {
        match self {
            Gather::List => done.push(value),
            Gather::Unique => with_item(done, value),
            Gather::Sorted => with_sorted_item(done, value),
        }
    }

    /// Gathers one value more.
    pub fn gather(&self, done: &mut Vec<Value>, value: Value)
        ensures
            items_view(final(done)@) == self.with(items_view(old(done)@), value@),
    {
        match self {
            Gather::List => {
                let ghost before = items_view(done@);
                done.push(value);
                assert(items_view(done@) =~= before.push(value@));
            },
            Gather::Unique => add_item(done, value),
            Gather::Sorted => add_sorted_item(done, value),
        }
    }
}

/// The map after a key was set, sorted by its keys or not.
pub open spec fn put_in(
    sorted: bool,
    entries: Seq<(Seq<char>, ValueView)>,
    key: Seq<char>,
    value: ValueView,
) -> Seq<(Seq<char>, ValueView)> {
    if sorted {
        sorted_put(entries, key, value)
    } else {
        put(entries, key, value)
    }
}

/// Sets a key of a map, sorted by its keys or not.
pub fn put_entry_in(sorted: bool, entries: &mut Vec<(String, Value)>, key: String, value: Value)
    ensures
        entries_view(final(entries)@) == put_in(sorted, entries_view(old(entries)@), key@, value@),
{
    if sorted {
        put_sorted_entry(entries, key, value);
    } else {
        put_entry(entries, key, value);
    }
}

/// Of two texts at most one stands before the other, and two texts of which
/// neither stands before the other are the same.
pub proof fn text_order_is_strict_and_total(a: Seq<char>, b: Seq<char>)
    ensures
        !(text_less(a, b) && text_less(b, a)),
        !text_less(a, b) && !text_less(b, a) ==> a == b,
    decreases a.len(),
{
    if a.len() > 0 && b.len() > 0 && a[0] == b[0] {
        text_order_is_strict_and_total(a.drop_first(), b.drop_first());
        if a.drop_first() == b.drop_first() {
            assert(a =~= seq![a[0]] + a.drop_first());
            assert(b =~= seq![b[0]] + b.drop_first());
        }
    } else if a.len() == 0 && b.len() == 0 {
        assert(a =~= b);
    }
}

/// Of two sequences of bytes at most one stands before the other.
pub proof fn bytes_order_is_strict(a: Seq<u8>, b: Seq<u8>, from: int)
    ensures
        !(bytes_less(a, b, from) && bytes_less(b, a, from)),
    decreases a.len() - from,
{
    if 0 <= from < a.len() && from < b.len() && a[from] == b[from] {
        bytes_order_is_strict(a, b, from + 1);
    }
}

/// Of two values at most one stands before the other.
pub proof fn order_is_strict(a: ValueView, b: ValueView)
    ensures
        !(less(a, b) && less(b, a)),
{
    match (a, b) {
        (ValueView::ObjectId(x), ValueView::ObjectId(y)) => {
            bytes_order_is_strict(x, y, 0);
        },
        (ValueView::String(x), ValueView::String(y)) => {
            text_order_is_strict_and_total(x, y);
        },
        _ => {},
    }
}

/// No value of a list stands before the one that comes before it.
pub open spec fn in_order(items: Seq<ValueView>) -> bool {
    forall|i: int| 0 <= i < items.len() - 1 ==> !less(#[trigger] items[i + 1], items[i])
}

/// The keys of a map go up from each entry to the next.
pub open spec fn keys_go_up(entries: Seq<(Seq<char>, ValueView)>) -> bool {
    forall|i: int| 0 <= i < entries.len() - 1 ==> text_less(entries[i].0, #[trigger] entries[i + 1].0)
}

/// Where `place_of` puts a value: after the values that it does not stand
/// before, and before one that it stands before.
proof fn place_is_first(items: Seq<ValueView>, value: ValueView, from: int)
    requires
        0 <= from <= items.len(),
    ensures
        from <= place_of(items, value, from) <= items.len(),
        forall|j: int| from <= j < place_of(items, value, from) ==> !less(value, items[j]),
        place_of(items, value, from) < items.len() ==> less(
            value,
            items[place_of(items, value, from)],
        ),
    decreases items.len() - from,
{
    if from < items.len() && !less(value, items[from]) {
        place_is_first(items, value, from + 1);
    }
}

/// Where `place_of_key` puts a key.
proof fn key_place_is_first(entries: Seq<(Seq<char>, ValueView)>, key: Seq<char>, from: int)
    requires
        0 <= from <= entries.len(),
    ensures
        from <= place_of_key(entries, key, from) <= entries.len(),
        forall|j: int| from <= j < place_of_key(entries, key, from) ==> !text_less(key, entries[j].0),
        place_of_key(entries, key, from) < entries.len() ==> text_less(
            key,
            entries[place_of_key(entries, key, from)].0,
        ),
    decreases entries.len() - from,
{
    if from < entries.len() && !text_less(key, entries[from].0) {
        key_place_is_first(entries, key, from + 1);
    }
}

/// A sorted set stays in order when a value is added.
pub proof fn sorted_set_stays_in_order(items: Seq<ValueView>, value: ValueView)
    requires
        in_order(items),
    ensures
        in_order(with_sorted_item(items, value)),
{
    if !items.contains(value) {
        let p = place_of(items, value, 0);
        place_is_first(items, value, 0);
        let after = items.insert(p, value);
        assert forall|i: int| 0 <= i < after.len() - 1 implies !less(
            #[trigger] after[i + 1],
            after[i],
        ) by {
            if i + 1 < p {
                assert(after[i + 1] == items[i + 1] && after[i] == items[i]);
            } else if i + 1 == p {
                assert(after[i + 1] == value && after[i] == items[i]);
            } else if i == p {
                assert(after[i] == value && after[i + 1] == items[p]);
                order_is_strict(value, items[p]);
            } else {
                assert(after[i + 1] == items[i] && after[i] == items[i - 1]);
                assert(!less(items[(i - 1) + 1], items[i - 1]));
            }
        }
    }
}

/// The keys of a sorted map keep going up when a key is set.
pub proof fn sorted_map_stays_in_order(
    entries: Seq<(Seq<char>, ValueView)>,
    key: Seq<char>,
    value: ValueView,
)
    requires
        keys_go_up(entries),
    ensures
        keys_go_up(sorted_put(entries, key, value)),
{
    crate::collections::key_index_is_first(entries, key, 0);
    match crate::collections::key_index(entries, key, 0) {
        Some(at) => {
            let after = entries.update(at, (key, value));
            assert forall|i: int| 0 <= i < after.len() - 1 implies text_less(
                after[i].0,
                #[trigger] after[i + 1].0,
            ) by {
                assert(after[i].0 == entries[i].0 && after[i + 1].0 == entries[i + 1].0);
            }
        },
        None => {
            let p = place_of_key(entries, key, 0);
            key_place_is_first(entries, key, 0);
            let after = entries.insert(p, (key, value));
            assert forall|i: int| 0 <= i < after.len() - 1 implies text_less(
                after[i].0,
                #[trigger] after[i + 1].0,
            ) by {
                if i + 1 < p {
                    assert(after[i + 1] == entries[i + 1] && after[i] == entries[i]);
                } else if i + 1 == p {
                    assert(after[i + 1].0 == key && after[i] == entries[i]);
                    text_order_is_strict_and_total(key, entries[i].0);
                } else if i == p {
                    assert(after[i].0 == key && after[i + 1] == entries[p]);
                } else {
                    assert(after[i + 1] == entries[i] && after[i] == entries[i - 1]);
                    assert(text_less(entries[i - 1].0, entries[(i - 1) + 1].0));
                }
            }
        },
    }
}

} // verus!
