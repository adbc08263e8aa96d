//! Maps and sets of values, held in lists.
//!
//! A map is a list of entries in which no key stands twice: a key that comes
//! again takes the place of the entry it had. A set is a list of values in
//! which no value stands twice: a value that comes again is dropped.

use crate::text::same_text;
use crate::value::entries_view;
use crate::value::items_view;
use crate::value::Value;
use crate::value::ValueView;
use vstd::prelude::*;

verus! {

/// The first position at or after `from` at which the key stands.
pub open spec fn key_index(
    entries: Seq<(Seq<char>, ValueView)>,
    key: Seq<char>,
    from: int,
) -> Option<int>
    decreases entries.len() - from,
{
    if from < 0 || from >= entries.len() {
        None
    } else if entries[from].0 == key {
        Some(from)
    } else {
        key_index(entries, key, from + 1)
    }
}

/// The value that the map holds under the key.
pub open spec fn lookup(entries: Seq<(Seq<char>, ValueView)>, key: Seq<char>) -> Option<ValueView> {
    match key_index(entries, key, 0) {
        Some(i) => Some(entries[i].1),
        None => None,
    }
}

/// The map after the key was set to the value.
pub open spec fn put(
    entries: Seq<(Seq<char>, ValueView)>,
    key: Seq<char>,
    value: ValueView,
) -> Seq<(Seq<char>, ValueView)> {
    match key_index(entries, key, 0) {
        Some(i) => entries.update(i, (key, value)),
        None => entries.push((key, value)),
    }
}

/// No key stands twice.
pub open spec fn unique_keys(entries: Seq<(Seq<char>, ValueView)>) -> bool {
    forall|i: int, j: int| 0 <= i < j < entries.len() ==> entries[i].0 != entries[j].0
}

/// The set after the value was added.
pub open spec fn with_item(items: Seq<ValueView>, value: ValueView) -> Seq<ValueView> {
    if items.contains(value) {
        items
    } else {
        items.push(value)
    }
}

/// No value stands twice.
pub open spec fn unique_items(items: Seq<ValueView>) -> bool {
    forall|i: int, j: int| 0 <= i < j < items.len() ==> items[i] != items[j]
}

/// What `key_index` finds is the first entry of the key.
pub proof fn key_index_is_first(entries: Seq<(Seq<char>, ValueView)>, key: Seq<char>, from: int)
    requires
        0 <= from,
    ensures
        match key_index(entries, key, from) {
            Some(i) => from <= i < entries.len() && entries[i].0 == key && forall|j: int|
                from <= j < i ==> entries[j].0 != key,
            None => forall|j: int| from <= j < entries.len() ==> entries[j].0 != key,
        },
    decreases entries.len() - from,
{
    if from < entries.len() && entries[from].0 != key {
        key_index_is_first(entries, key, from + 1);
    }
}

/// Setting a key keeps the keys of a map apart, and the map then holds the
/// value under the key.
pub proof fn put_keeps_unique(entries: Seq<(Seq<char>, ValueView)>, key: Seq<char>, value: ValueView)
    requires
        unique_keys(entries),
    ensures
        unique_keys(put(entries, key, value)),
        lookup(put(entries, key, value), key) == Some(value),
{
    let after = put(entries, key, value);
    key_index_is_first(entries, key, 0);
    key_index_is_first(after, key, 0);
    let at = match key_index(entries, key, 0) {
        Some(i) => i,
        None => entries.len() as int,
    };
    assert(after[at] == (key, value));
    assert(forall|j: int| 0 <= j < at ==> after[j] == entries[j]);
    assert(key_index(after, key, 0) == Some(at));
}

/// Adding a value keeps the values of a set apart, and the set then holds it.
pub proof fn with_item_keeps_unique(items: Seq<ValueView>, value: ValueView)
    requires
        unique_items(items),
    ensures
        unique_items(with_item(items, value)),
        with_item(items, value).contains(value),
{
    if !items.contains(value) {
        assert(items.push(value)[items.len() as int] == value);
    }
}

/// The position of the entry of a key.
pub fn find_entry(entries: &Vec<(String, Value)>, key: &str) -> (r: Option<usize>)
    ensures
        match r {
            Some(i) => key_index(entries_view(entries@), key@, 0) == Some(i as int) && i
                < entries.len(),
            None => key_index(entries_view(entries@), key@, 0) is None,
        },
{
    let mut i: usize = 0;
    while i < entries.len()
        invariant
            i <= entries.len(),
            key_index(entries_view(entries@), key@, 0) == key_index(
                entries_view(entries@),
                key@,
                i as int,
            ),
        decreases entries.len() - i,
    {
        if same_text(entries[i].0.as_str(), key) {
            return Some(i);
        }
        i += 1;
    }
    None
}

/// The value that a map holds under a key.
pub fn get_entry<'a>(entries: &'a Vec<(String, Value)>, key: &str) -> (r: Option<&'a Value>)
    ensures
        match r {
            Some(v) => lookup(entries_view(entries@), key@) == Some(v@),
            None => lookup(entries_view(entries@), key@) is None,
        },
{
    match find_entry(entries, key) {
        Some(i) => Some(&entries[i].1),
        None => None,
    }
}

/// Sets a key of a map to a value.
pub fn put_entry(entries: &mut Vec<(String, Value)>, key: String, value: Value)
    ensures
        entries_view(final(entries)@) == put(entries_view(old(entries)@), key@, value@),
{
    let ghost before = entries_view(entries@);
    match find_entry(entries, key.as_str()) {
        Some(i) => {
            entries.set(i, (key, value));
            assert(entries_view(entries@) =~= before.update(i as int, (key@, value@)));
        },
        None => {
            entries.push((key, value));
            assert(entries_view(entries@) =~= before.push((key@, value@)));
        },
    }
}

/// Adds a value to a set.
pub fn add_item(items: &mut Vec<Value>, value: Value)
    ensures
        items_view(final(items)@) == with_item(items_view(old(items)@), value@),
{
    let ghost before = items_view(items@);
    let mut i: usize = 0;
    while i < items.len()
        invariant
            i <= items.len(),
            before == items_view(items@),
            forall|j: int| 0 <= j < i ==> before[j] != value@,
        decreases items.len() - i,
    {
        if items[i].same(&value) {
            assert(before[i as int] == value@);
            return ;
        }
        i += 1;
    }
    items.push(value);
    assert(items_view(items@) =~= before.push(value@));
}

} // verus!
