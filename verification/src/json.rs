//! Untyped request bodies, as the decoder reads them.

use vstd::prelude::*;

verus! {

/// A JSON number, kept as it was read.
///
/// A number without fraction or exponent is an integer: `NegInt` where it is
/// below zero, `PosInt` otherwise. Every other number is a double, held by its
/// IEEE 754 bit pattern.
#[derive(Clone, Copy, Debug, PartialEq, Eq, Structural)]
pub enum Number {
    PosInt(u64),
    NegInt(i64),
    Float(u64),
}

/// A JSON value. The members of an object stand in the order in which the
/// request's map yields them.
#[derive(Debug, PartialEq)]
pub enum Json {
    Null,
    Bool(bool),
    Number(Number),
    String(String),
    Array(Vec<Json>),
    Object(Vec<(String, Json)>),
}

/// What a `Json` is, for contracts: the same tree over sequences.
pub ghost enum JsonView {
    Null,
    Bool(bool),
    Number(Number),
    String(Seq<char>),
    Array(Seq<JsonView>),
    Object(Seq<(Seq<char>, JsonView)>),
}

/// The views of a sequence of JSON values, item by item.
pub open spec fn json_items(s: Seq<Json>) -> Seq<JsonView>
    decreases s,
{
    Seq::new(
        s.len(),
        |i: int|
            if 0 <= i < s.len() {
                s[i].view()
            } else {
                JsonView::Null
            },
    )
}

/// The views of a sequence of members, member by member.
pub open spec fn json_members(s: Seq<(String, Json)>) -> Seq<(Seq<char>, JsonView)>
    decreases s,
{
    Seq::new(
        s.len(),
        |i: int|
            if 0 <= i < s.len() {
                (s[i].0@, s[i].1.view())
            } else {
                (Seq::empty(), JsonView::Null)
            },
    )
}

impl View for Json {
    type V = JsonView;

    open spec fn view(&self) -> JsonView
        decreases self,
    {
        match self {
            Json::Null => JsonView::Null,
            Json::Bool(b) => JsonView::Bool(*b),
            Json::Number(n) => JsonView::Number(*n),
            Json::String(s) => JsonView::String(s@),
            Json::Array(a) => JsonView::Array(json_items(a@)),
            Json::Object(m) => JsonView::Object(json_members(m@)),
        }
    }
}

impl Number {
    /// Whether the number is written as JSON readers hand it out: a whole
    /// number is `NegInt` only below zero.
    pub open spec fn is_canonical(self) -> bool {
        match self {
            Number::NegInt(n) => n < 0,
            _ => true,
        }
    }

    /// The number as a signed 64 bit integer, where it is one.
    pub open spec fn spec_as_i64(self) -> Option<i64> {
        match self {
            Number::PosInt(n) => if n <= i64::MAX {
                Some(n as i64)
            } else {
                None
            },
            Number::NegInt(n) => Some(n),
            Number::Float(_) => None,
        }
    }

    /// The number as an unsigned 64 bit integer, where it is one.
    pub open spec fn spec_as_u64(self) -> Option<u64> {
        match self {
            Number::PosInt(n) => Some(n),
            _ => None,
        }
    }

    /// The number as an integer, where it is one.
    pub open spec fn spec_as_integer(self) -> Option<int> {
        match self {
            Number::PosInt(n) => Some(n as int),
            Number::NegInt(n) => Some(n as int),
            Number::Float(_) => None,
        }
    }

    pub fn as_integer(&self) -> (r: Option<i128>)
        ensures
            match r {
                Some(i) => self.spec_as_integer() == Some(i as int),
                None => self.spec_as_integer() is None,
            },
    {
        match self {
            Number::PosInt(n) => Some(*n as i128),
            Number::NegInt(n) => Some(*n as i128),
            Number::Float(_) => None,
        }
    }

    pub fn as_i64(&self) -> (r: Option<i64>)
        ensures
            r == self.spec_as_i64(),
    {
        match self {
            Number::PosInt(n) => if *n <= 0x7fff_ffff_ffff_ffffu64 {
                Some(*n as i64)
            } else {
                None
            },
            Number::NegInt(n) => Some(*n),
            Number::Float(_) => None,
        }
    }

    pub fn as_u64(&self) -> (r: Option<u64>)
        ensures
            r == self.spec_as_u64(),
    {
        match self {
            Number::PosInt(n) => Some(*n),
            _ => None,
        }
    }
}

impl Json {
    pub open spec fn spec_as_bool(&self) -> Option<bool> {
        match self {
            Json::Bool(b) => Some(*b),
            _ => None,
        }
    }

    pub open spec fn spec_as_text(&self) -> Option<Seq<char>> {
        match self {
            Json::String(s) => Some(s@),
            _ => None,
        }
    }

    pub open spec fn spec_as_i64(&self) -> Option<i64> {
        match self {
            Json::Number(n) => n.spec_as_i64(),
            _ => None,
        }
    }

    pub open spec fn spec_as_u64(&self) -> Option<u64> {
        match self {
            Json::Number(n) => n.spec_as_u64(),
            _ => None,
        }
    }

    /// The value as an integer, where it is a number without fraction or
    /// exponent.
    pub open spec fn spec_as_integer(&self) -> Option<int> {
        match self {
            Json::Number(n) => n.spec_as_integer(),
            _ => None,
        }
    }

    pub fn as_integer(&self) -> (r: Option<i128>)
        ensures
            match r {
                Some(i) => self.spec_as_integer() == Some(i as int),
                None => self.spec_as_integer() is None,
            },
    {
        match self {
            Json::Number(n) => n.as_integer(),
            _ => None,
        }
    }

    pub fn is_null(&self) -> (r: bool)
        ensures
            r == (self is Null),
    {
        match self {
            Json::Null => true,
            _ => false,
        }
    }

    pub fn is_object(&self) -> (r: bool)
        ensures
            r == (self is Object),
    {
        match self {
            Json::Object(_) => true,
            _ => false,
        }
    }

    pub fn as_bool(&self) -> (r: Option<bool>)
        ensures
            r == self.spec_as_bool(),
    {
        match self {
            Json::Bool(b) => Some(*b),
            _ => None,
        }
    }

    pub fn as_str(&self) -> (r: Option<&str>)
        ensures
            match r {
                Some(s) => self.spec_as_text() == Some(s@),
                None => self.spec_as_text() is None,
            },
    {
        match self {
            Json::String(s) => Some(s.as_str()),
            _ => None,
        }
    }

    pub fn as_i64(&self) -> (r: Option<i64>)
        ensures
            r == self.spec_as_i64(),
    {
        match self {
            Json::Number(n) => n.as_i64(),
            _ => None,
        }
    }

    pub fn as_u64(&self) -> (r: Option<u64>)
        ensures
            r == self.spec_as_u64(),
    {
        match self {
            Json::Number(n) => n.as_u64(),
            _ => None,
        }
    }

    pub fn as_number(&self) -> (r: Option<Number>)
        ensures
            r == (match self {
                Json::Number(n) => Some(*n),
                _ => None,
            }),
    {
        match self {
            Json::Number(n) => Some(*n),
            _ => None,
        }
    }

    pub fn as_array(&self) -> (r: Option<&Vec<Json>>)
        ensures
            r == (match self {
                Json::Array(a) => Some(a),
                _ => None,
            }),
    {
        match self {
            Json::Array(a) => Some(a),
            _ => None,
        }
    }

    pub fn as_object(&self) -> (r: Option<&Vec<(String, Json)>>)
        ensures
            r == (match self {
                Json::Object(m) => Some(m),
                _ => None,
            }),
    {
        match self {
            Json::Object(m) => Some(m),
            _ => None,
        }
    }
}

} // verus!
