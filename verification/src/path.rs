//! Key paths: the place of a value inside the request it came with.
//!
//! The path itself is a `key_path::KeyPath`. Verus cannot look inside one, so
//! the contracts speak of the sequence of segments it holds, `path_items`.

use key_path::Item;
use key_path::KeyPath;
use vstd::prelude::*;

verus! {

/// One step of a path, as contracts see it.
pub ghost enum Segment {
    /// The name of a member of an object.
    Key(Seq<char>),
    /// The position of an element of an array.
    Index(nat),
}

#[verifier::external_type_specification]
#[verifier::external_body]
pub struct ExKeyPath(KeyPath);

#[verifier::external_type_specification]
#[verifier::external_body]
pub struct ExItem(Item);

/// The segments that a path holds, from the root down.
pub uninterp spec fn path_items(p: KeyPath) -> Seq<Segment>;

/// The empty path, which names the root of a request.
///
/// Trusted: `KeyPath::default` builds a path over an empty vector.
#[verifier::external_body]
pub(crate) fn root_path() -> (p: KeyPath)
    ensures
        path_items(p) == Seq::<Segment>::empty(),
{
    KeyPath::default()
}

/// The path one key further down.
///
/// Trusted: `&KeyPath + &str` clones the segments and pushes `Item::Key` of
/// the string.
#[verifier::external_body]
pub(crate) fn path_key(p: &KeyPath, key: &str) -> (r: KeyPath)
    ensures
        path_items(r) == path_items(*p).push(Segment::Key(key@)),
{
    p + key
}

/// The path one array position further down.
///
/// Trusted: `&KeyPath + usize` clones the segments and pushes `Item::Index`
/// of the number.
#[verifier::external_body]
pub(crate) fn path_index(p: &KeyPath, index: usize) -> (r: KeyPath)
    ensures
        path_items(r) == path_items(*p).push(Segment::Index(index as nat)),
{
    p + index
}

/// A second path with the same segments.
///
/// Trusted: the derived `Clone` of `KeyPath` clones its vector of segments.
#[verifier::external_body]
pub(crate) fn path_copy(p: &KeyPath) -> (r: KeyPath)
    ensures
        path_items(r) == path_items(*p),
{
    p.clone()
}

/// Whether two paths hold the same segments.
///
/// Trusted: the derived `PartialEq` of `KeyPath` compares the two vectors of
/// segments, which are equal when they hold equal keys and indices in order.
#[verifier::external_body]
pub(crate) fn path_same(p: &KeyPath, q: &KeyPath) -> (r: bool)
    ensures
        r == (path_items(*p) == path_items(*q)),
{
    p == q
}

} // verus!
