//! Decoding the members of an object and the items of an array in order:
//! the first one that is refused ends the decoding.

use crate::action::ActionType;
use crate::error::ErrorView;
use crate::field::FilterClass;
use crate::json::Json;
use crate::value::ValueView;
use vstd::prelude::*;

verus! {

/// The keys of the members of an object, in order.
pub open spec fn keys_of(members: Seq<(String, Json)>) -> Seq<Seq<char>> {
    Seq::new(members.len(), |i: int| members[i].0@)
}

/// The value that a decoded map is.
pub open spec fn as_map(r: Result<Seq<(Seq<char>, ValueView)>, ErrorView>) -> Result<
    ValueView,
    ErrorView,
> {
    match r {
        Ok(es) => Ok(ValueView::HashMap(es)),
        Err(e) => Err(e),
    }
}

/// The value that a decoded list is.
pub open spec fn as_list(r: Result<Seq<ValueView>, ErrorView>) -> Result<ValueView, ErrorView> {
    match r {
        Ok(vs) => Ok(ValueView::Vec(vs)),
        Err(e) => Err(e),
    }
}

/// A closed set of keys: those of an action, or those of the filters of a
/// field type.
#[derive(Clone, Copy, Debug, PartialEq, Eq, Structural)]
pub enum Allowed {
    Action(ActionType),
    Filters(FilterClass),
}

impl Allowed {
    pub open spec fn allows_key(self, key: Seq<char>) -> bool {
        match self {
            Allowed::Action(a) => a.allows_key(key),
            Allowed::Filters(f) => f.allows_key(key),
        }
    }

    pub fn allows(&self, key: &str) -> (r: bool)
        ensures
            r == self.allows_key(key@),
    {
        match self {
            Allowed::Action(a) => a.allows(key),
            Allowed::Filters(f) => f.allows(key),
        }
    }
}

/// The first key from `from` on that is not allowed.
pub open spec fn first_refused(keys: Seq<Seq<char>>, allowed: Allowed, from: int) -> Option<
    Seq<char>,
>
    decreases keys.len() - from,
{
    if from < 0 || from >= keys.len() {
        None
    } else if !allowed.allows_key(keys[from]) {
        Some(keys[from])
    } else {
        first_refused(keys, allowed, from + 1)
    }
}

/// What `first_refused` finds is a key that is not allowed, and it finds
/// none only where every key is allowed.
pub proof fn first_refused_is_refused(keys: Seq<Seq<char>>, allowed: Allowed, from: int)
    requires
        0 <= from,
    ensures
        match first_refused(keys, allowed, from) {
            Some(k) => !allowed.allows_key(k) && exists|i: int|
                from <= i < keys.len() && keys[i] == k,
            None => forall|i: int| from <= i < keys.len() ==> allowed.allows_key(#[trigger] keys[i]),
        },
    decreases keys.len() - from,
{
    if from < keys.len() {
        if allowed.allows_key(keys[from]) {
            first_refused_is_refused(keys, allowed, from + 1);
        }
    }
}

} // verus!
