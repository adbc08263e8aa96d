//! The column types that a relational connector can be asked for, and their
//! builders. A type left `Undefined` is chosen by the connector from the
//! type of the field.

use vstd::prelude::*;
use vstd::std_specs::convert::FromSpecImpl;

verus! {

/// A column type. An integer type says whether it is unsigned; a character
/// type may say its length, its character set and its collation; a time type
/// says the digits of its fractional seconds and whether it holds a time zone.
#[derive(Debug, PartialEq)]
pub enum DatabaseType {
    Undefined,
    TinyInt(bool),
    SmallInt(bool),
    MediumInt(bool),
    Int(bool),
    BigInt(bool),
    Real,
    Double,
    Float(u8),
    Date,
    Timestamp(u8, bool),
    Time(u8, bool),
    Char(u8, Option<String>, Option<String>),
    VarChar(u16, Option<String>, Option<String>),
    TinyText(Option<String>, Option<String>),
    MediumText(Option<String>, Option<String>),
    LongText(Option<String>, Option<String>),
    Text(Option<u16>, Option<String>, Option<String>),
}

/// What a `DatabaseType` is, for contracts.
pub ghost enum DatabaseTypeView {
    Undefined,
    TinyInt(bool),
    SmallInt(bool),
    MediumInt(bool),
    Int(bool),
    BigInt(bool),
    Real,
    Double,
    Float(u8),
    Date,
    Timestamp(u8, bool),
    Time(u8, bool),
    Char(u8, Option<Seq<char>>, Option<Seq<char>>),
    VarChar(u16, Option<Seq<char>>, Option<Seq<char>>),
    TinyText(Option<Seq<char>>, Option<Seq<char>>),
    MediumText(Option<Seq<char>>, Option<Seq<char>>),
    LongText(Option<Seq<char>>, Option<Seq<char>>),
    Text(Option<u16>, Option<Seq<char>>, Option<Seq<char>>),
}

/// The characters of a name that may be missing.
pub open spec fn name_view(name: Option<String>) -> Option<Seq<char>> {
    match name {
        Some(s) => Some(s@),
        None => None,
    }
}

impl View for DatabaseType {
    type V = DatabaseTypeView;

    open spec fn view(&self) -> DatabaseTypeView {
        match self {
            DatabaseType::Undefined => DatabaseTypeView::Undefined,
            DatabaseType::TinyInt(u) => DatabaseTypeView::TinyInt(*u),
            DatabaseType::SmallInt(u) => DatabaseTypeView::SmallInt(*u),
            DatabaseType::MediumInt(u) => DatabaseTypeView::MediumInt(*u),
            DatabaseType::Int(u) => DatabaseTypeView::Int(*u),
            DatabaseType::BigInt(u) => DatabaseTypeView::BigInt(*u),
            DatabaseType::Real => DatabaseTypeView::Real,
            DatabaseType::Double => DatabaseTypeView::Double,
            DatabaseType::Float(p) => DatabaseTypeView::Float(*p),
            DatabaseType::Date => DatabaseTypeView::Date,
            DatabaseType::Timestamp(f, z) => DatabaseTypeView::Timestamp(*f, *z),
            DatabaseType::Time(f, z) => DatabaseTypeView::Time(*f, *z),
            DatabaseType::Char(l, s, c) => DatabaseTypeView::Char(*l, name_view(*s), name_view(*c)),
            DatabaseType::VarChar(l, s, c) => DatabaseTypeView::VarChar(
                *l,
                name_view(*s),
                name_view(*c),
            ),
            DatabaseType::TinyText(s, c) => DatabaseTypeView::TinyText(name_view(*s), name_view(*c)),
            DatabaseType::MediumText(s, c) => DatabaseTypeView::MediumText(
                name_view(*s),
                name_view(*c),
            ),
            DatabaseType::LongText(s, c) => DatabaseTypeView::LongText(name_view(*s), name_view(*c)),
            DatabaseType::Text(l, s, c) => DatabaseTypeView::Text(*l, name_view(*s), name_view(*c)),
        }
    }
}

impl DatabaseTypeView {
    /// The type with the character set, where it is a character type.
    pub open spec fn with_charset(self, charset: Seq<char>) -> DatabaseTypeView {
        match self {
            DatabaseTypeView::Char(l, _, c) => DatabaseTypeView::Char(l, Some(charset), c),
            DatabaseTypeView::VarChar(l, _, c) => DatabaseTypeView::VarChar(l, Some(charset), c),
            DatabaseTypeView::TinyText(_, c) => DatabaseTypeView::TinyText(Some(charset), c),
            DatabaseTypeView::MediumText(_, c) => DatabaseTypeView::MediumText(Some(charset), c),
            DatabaseTypeView::LongText(_, c) => DatabaseTypeView::LongText(Some(charset), c),
            DatabaseTypeView::Text(l, _, c) => DatabaseTypeView::Text(l, Some(charset), c),
            _ => self,
        }
    }

    /// The type with the collation, where it is a character type.
    pub open spec fn with_collation(self, collation: Seq<char>) -> DatabaseTypeView {
        match self {
            DatabaseTypeView::Char(l, s, _) => DatabaseTypeView::Char(l, s, Some(collation)),
            DatabaseTypeView::VarChar(l, s, _) => DatabaseTypeView::VarChar(l, s, Some(collation)),
            DatabaseTypeView::TinyText(s, _) => DatabaseTypeView::TinyText(s, Some(collation)),
            DatabaseTypeView::MediumText(s, _) => DatabaseTypeView::MediumText(s, Some(collation)),
            DatabaseTypeView::LongText(s, _) => DatabaseTypeView::LongText(s, Some(collation)),
            DatabaseTypeView::Text(l, s, _) => DatabaseTypeView::Text(l, s, Some(collation)),
            _ => self,
        }
    }

    /// The unsigned form of the type, where it is an integer type.
    pub open spec fn as_unsigned(self) -> DatabaseTypeView {
        match self {
            DatabaseTypeView::BigInt(_) => DatabaseTypeView::BigInt(true),
            DatabaseTypeView::Int(_) => DatabaseTypeView::Int(true),
            DatabaseTypeView::TinyInt(_) => DatabaseTypeView::TinyInt(true),
            DatabaseTypeView::SmallInt(_) => DatabaseTypeView::SmallInt(true),
            DatabaseTypeView::MediumInt(_) => DatabaseTypeView::MediumInt(true),
            _ => self,
        }
    }

    /// The type with a time zone, where it is a time type.
    pub open spec fn zoned(self) -> DatabaseTypeView {
        match self {
            DatabaseTypeView::Timestamp(f, _) => DatabaseTypeView::Timestamp(f, true),
            DatabaseTypeView::Time(f, _) => DatabaseTypeView::Time(f, true),
            _ => self,
        }
    }
}

/// A second name that is the same, where there is one.
fn name_copy(name: &Option<String>) -> (r: Option<String>)
    ensures
        r == *name,
{
    match name {
        Some(s) => Some(s.clone()),
        None => None,
    }
}

impl DatabaseType {
    /// A second type that is the same.
    pub fn duplicate(&self) -> (r: DatabaseType)
        ensures
            r == *self,
    {
        match self {
            DatabaseType::Undefined => DatabaseType::Undefined,
            DatabaseType::TinyInt(u) => DatabaseType::TinyInt(*u),
            DatabaseType::SmallInt(u) => DatabaseType::SmallInt(*u),
            DatabaseType::MediumInt(u) => DatabaseType::MediumInt(*u),
            DatabaseType::Int(u) => DatabaseType::Int(*u),
            DatabaseType::BigInt(u) => DatabaseType::BigInt(*u),
            DatabaseType::Real => DatabaseType::Real,
            DatabaseType::Double => DatabaseType::Double,
            DatabaseType::Float(p) => DatabaseType::Float(*p),
            DatabaseType::Date => DatabaseType::Date,
            DatabaseType::Timestamp(f, z) => DatabaseType::Timestamp(*f, *z),
            DatabaseType::Time(f, z) => DatabaseType::Time(*f, *z),
            DatabaseType::Char(l, s, c) => DatabaseType::Char(*l, name_copy(s), name_copy(c)),
            DatabaseType::VarChar(l, s, c) => DatabaseType::VarChar(*l, name_copy(s), name_copy(c)),
            DatabaseType::TinyText(s, c) => DatabaseType::TinyText(name_copy(s), name_copy(c)),
            DatabaseType::MediumText(s, c) => DatabaseType::MediumText(name_copy(s), name_copy(c)),
            DatabaseType::LongText(s, c) => DatabaseType::LongText(name_copy(s), name_copy(c)),
            DatabaseType::Text(l, s, c) => DatabaseType::Text(*l, name_copy(s), name_copy(c)),
        }
    }
}

/// A finished column type.
pub struct DatabaseTypeTerminationBuilder {
    pub value: DatabaseType,
}

/// A character type, which may yet get a character set and a collation.
pub struct StringTypeBuilder {
    pub value: DatabaseType,
}

/// An integer type, which may yet become unsigned.
pub struct SignedIntegerTypeBuilder {
    pub value: DatabaseType,
}

/// A time type, which may yet get a time zone.
pub struct DateTimeTypeBuilder {
    pub value: DatabaseType,
}

/// The start of every column type.
pub struct DatabaseTypeBuilder {
    pub value: DatabaseType,
}

impl DatabaseTypeTerminationBuilder {
    pub fn new(value: DatabaseType) -> (b: Self)
        ensures
            b.value == value,
    {
        Self { value }
    }
}

impl StringTypeBuilder {
    pub fn new(value: DatabaseType) -> (b: Self)
        ensures
            b.value == value,
    {
        Self { value }
    }

    pub fn charset(&self, charset: &str) -> (b: Self)
        ensures
            b.value@ == self.value@.with_charset(charset@),
    {
        let value = match &self.value {
            DatabaseType::Char(len, _, collation) => DatabaseType::Char(
                *len,
                Some(charset.to_owned()),
                name_copy(collation),
            ),
            DatabaseType::VarChar(len, _, collation) => DatabaseType::VarChar(
                *len,
                Some(charset.to_owned()),
                name_copy(collation),
            ),
            DatabaseType::TinyText(_, collation) => DatabaseType::TinyText(
                Some(charset.to_owned()),
                name_copy(collation),
            ),
            DatabaseType::MediumText(_, collation) => DatabaseType::MediumText(
                Some(charset.to_owned()),
                name_copy(collation),
            ),
            DatabaseType::LongText(_, collation) => DatabaseType::LongText(
                Some(charset.to_owned()),
                name_copy(collation),
            ),
            DatabaseType::Text(len, _, collation) => DatabaseType::Text(
                *len,
                Some(charset.to_owned()),
                name_copy(collation),
            ),
            _ => self.value.duplicate(),
        };
        Self { value }
    }

    pub fn collation(&self, collation: &str) -> (b: DatabaseTypeTerminationBuilder)
        ensures
            b.value@ == self.value@.with_collation(collation@),
    {
        let value = match &self.value {
            DatabaseType::Char(len, charset, _) => DatabaseType::Char(
                *len,
                name_copy(charset),
                Some(collation.to_owned()),
            ),
            DatabaseType::VarChar(len, charset, _) => DatabaseType::VarChar(
                *len,
                name_copy(charset),
                Some(collation.to_owned()),
            ),
            DatabaseType::TinyText(charset, _) => DatabaseType::TinyText(
                name_copy(charset),
                Some(collation.to_owned()),
            ),
            DatabaseType::MediumText(charset, _) => DatabaseType::MediumText(
                name_copy(charset),
                Some(collation.to_owned()),
            ),
            DatabaseType::LongText(charset, _) => DatabaseType::LongText(
                name_copy(charset),
                Some(collation.to_owned()),
            ),
            DatabaseType::Text(len, charset, _) => DatabaseType::Text(
                *len,
                name_copy(charset),
                Some(collation.to_owned()),
            ),
            _ => self.value.duplicate(),
        };
        DatabaseTypeTerminationBuilder { value }
    }
}

impl SignedIntegerTypeBuilder {
    pub fn new(value: DatabaseType) -> (b: Self)
        ensures
            b.value == value,
    {
        Self { value }
    }

    pub fn unsigned(&mut self) -> (b: DatabaseTypeTerminationBuilder)
        ensures
            b.value@ == old(self).value@.as_unsigned(),
            *final(self) == *old(self),
    {
        let value = match &self.value {
            DatabaseType::BigInt(_) => DatabaseType::BigInt(true),
            DatabaseType::Int(_) => DatabaseType::Int(true),
            DatabaseType::TinyInt(_) => DatabaseType::TinyInt(true),
            DatabaseType::SmallInt(_) => DatabaseType::SmallInt(true),
            DatabaseType::MediumInt(_) => DatabaseType::MediumInt(true),
            _ => self.value.duplicate(),
        };
        DatabaseTypeTerminationBuilder { value }
    }
}

impl DateTimeTypeBuilder {
    pub fn new(value: DatabaseType) -> (b: Self)
        ensures
            b.value == value,
    {
        Self { value }
    }

    pub fn with_timezone(&self) -> (b: DatabaseTypeTerminationBuilder)
        ensures
            b.value@ == self.value@.zoned(),
    {
        let value = match &self.value {
            DatabaseType::Timestamp(fsp, _) => DatabaseType::Timestamp(*fsp, true),
            DatabaseType::Time(fsp, _) => DatabaseType::Time(*fsp, true),
            _ => self.value.duplicate(),
        };
        DatabaseTypeTerminationBuilder { value }
    }
}

impl DatabaseTypeBuilder {
    pub fn new() -> (b: Self)
        ensures
            b.value == DatabaseType::Undefined,
    {
        Self { value: DatabaseType::Undefined }
    }

    pub fn tiny_int(&mut self) -> (b: SignedIntegerTypeBuilder)
        ensures
            b.value == DatabaseType::TinyInt(false),
            *final(self) == *old(self),
    {
        SignedIntegerTypeBuilder { value: DatabaseType::TinyInt(false) }
    }

    pub fn small_int(&mut self) -> (b: SignedIntegerTypeBuilder)
        ensures
            b.value == DatabaseType::SmallInt(false),
            *final(self) == *old(self),
    {
        SignedIntegerTypeBuilder { value: DatabaseType::SmallInt(false) }
    }

    pub fn medium_int(&mut self) -> (b: SignedIntegerTypeBuilder)
        ensures
            b.value == DatabaseType::MediumInt(false),
            *final(self) == *old(self),
    {
        SignedIntegerTypeBuilder { value: DatabaseType::MediumInt(false) }
    }

    /// A column of 32 bit integers.
    pub fn integer(&mut self) -> (b: SignedIntegerTypeBuilder)
        ensures
            b.value == DatabaseType::Int(false),
            *final(self) == *old(self),
    {
        SignedIntegerTypeBuilder { value: DatabaseType::Int(false) }
    }

    pub fn big_int(&mut self) -> (b: SignedIntegerTypeBuilder)
        ensures
            b.value == DatabaseType::BigInt(false),
            *final(self) == *old(self),
    {
        SignedIntegerTypeBuilder { value: DatabaseType::BigInt(false) }
    }

    /// A column of the type `REAL`.
    pub fn real_number(&mut self) -> (b: DatabaseTypeTerminationBuilder)
        ensures
            b.value == DatabaseType::Real,
            *final(self) == *old(self),
    {
        DatabaseTypeTerminationBuilder { value: DatabaseType::Real }
    }

    pub fn double(&mut self) -> (b: DatabaseTypeTerminationBuilder)
        ensures
            b.value == DatabaseType::Double,
            *final(self) == *old(self),
    {
        DatabaseTypeTerminationBuilder { value: DatabaseType::Double }
    }

    pub fn float(&mut self, precision: u8) -> (b: DatabaseTypeTerminationBuilder)
        ensures
            b.value == DatabaseType::Float(precision),
            *final(self) == *old(self),
    {
        DatabaseTypeTerminationBuilder { value: DatabaseType::Float(precision) }
    }

    pub fn date(&mut self) -> (b: DatabaseTypeTerminationBuilder)
        ensures
            b.value == DatabaseType::Date,
            *final(self) == *old(self),
    {
        DatabaseTypeTerminationBuilder { value: DatabaseType::Date }
    }

    pub fn timestamp(&mut self, fsp: u8) -> (b: DateTimeTypeBuilder)
        ensures
            b.value == DatabaseType::Timestamp(fsp, false),
            *final(self) == *old(self),
    {
        DateTimeTypeBuilder { value: DatabaseType::Timestamp(fsp, false) }
    }

    pub fn char(&mut self, len: u8) -> (b: StringTypeBuilder)
        ensures
            b.value == DatabaseType::Char(len, None, None),
            *final(self) == *old(self),
    {
        StringTypeBuilder { value: DatabaseType::Char(len, None, None) }
    }

    pub fn var_char(&mut self, len: u16) -> (b: StringTypeBuilder)
        ensures
            b.value == DatabaseType::VarChar(len, None, None),
            *final(self) == *old(self),
    {
        StringTypeBuilder { value: DatabaseType::VarChar(len, None, None) }
    }

    pub fn tiny_text(&mut self) -> (b: StringTypeBuilder)
        ensures
            b.value == DatabaseType::TinyText(None, None),
            *final(self) == *old(self),
    {
        StringTypeBuilder { value: DatabaseType::TinyText(None, None) }
    }

    pub fn medium_text(&mut self) -> (b: StringTypeBuilder)
        ensures
            b.value == DatabaseType::MediumText(None, None),
            *final(self) == *old(self),
    {
        StringTypeBuilder { value: DatabaseType::MediumText(None, None) }
    }

    pub fn long_text(&mut self) -> (b: StringTypeBuilder)
        ensures
            b.value == DatabaseType::LongText(None, None),
            *final(self) == *old(self),
    {
        StringTypeBuilder { value: DatabaseType::LongText(None, None) }
    }

    pub fn text(&mut self) -> (b: StringTypeBuilder)
        ensures
            b.value == DatabaseType::Text(None, None, None),
            *final(self) == *old(self),
    {
        StringTypeBuilder { value: DatabaseType::Text(None, None, None) }
    }
}

impl From<DatabaseTypeTerminationBuilder> for DatabaseType {
    fn from(builder: DatabaseTypeTerminationBuilder) -> (r: DatabaseType) {
        builder.value
    }
}

impl FromSpecImpl<DatabaseTypeTerminationBuilder> for DatabaseType {
    open spec fn obeys_from_spec() -> bool {
        true
    }

    open spec fn from_spec(builder: DatabaseTypeTerminationBuilder) -> DatabaseType {
        builder.value
    }
}

impl From<StringTypeBuilder> for DatabaseType {
    fn from(builder: StringTypeBuilder) -> (r: DatabaseType) {
        builder.value
    }
}

impl FromSpecImpl<StringTypeBuilder> for DatabaseType {
    open spec fn obeys_from_spec() -> bool {
        true
    }

    open spec fn from_spec(builder: StringTypeBuilder) -> DatabaseType {
        builder.value
    }
}

impl From<SignedIntegerTypeBuilder> for DatabaseType {
    fn from(builder: SignedIntegerTypeBuilder) -> (r: DatabaseType) {
        builder.value
    }
}

impl FromSpecImpl<SignedIntegerTypeBuilder> for DatabaseType {
    open spec fn obeys_from_spec() -> bool {
        true
    }

    open spec fn from_spec(builder: SignedIntegerTypeBuilder) -> DatabaseType {
        builder.value
    }
}

impl From<DateTimeTypeBuilder> for DatabaseType {
    fn from(builder: DateTimeTypeBuilder) -> (r: DatabaseType) {
        builder.value
    }
}

impl FromSpecImpl<DateTimeTypeBuilder> for DatabaseType {
    open spec fn obeys_from_spec() -> bool {
        true
    }

    open spec fn from_spec(builder: DateTimeTypeBuilder) -> DatabaseType {
        builder.value
    }
}

impl From<DatabaseTypeBuilder> for DatabaseType {
    fn from(builder: DatabaseTypeBuilder) -> (r: DatabaseType) {
        builder.value
    }
}

impl FromSpecImpl<DatabaseTypeBuilder> for DatabaseType {
    open spec fn obeys_from_spec() -> bool {
        true
    }

    open spec fn from_spec(builder: DatabaseTypeBuilder) -> DatabaseType {
        builder.value
    }
}

} // verus!
