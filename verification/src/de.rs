//! The errors of converting values into Rust types, and their messages.
use vstd::prelude::*;
use crate::model::{decimal, signed_decimal};

verus! {

/// What a conversion met where it expected something else.
#[derive(Debug, Clone, PartialEq)]
pub enum Unexpected {
    Bool(bool),
    Unsigned(u64),
    Signed(i64),
    /// A float, by its bit pattern.
    Float(u64),
    Char(char),
    Str(String),
    Bytes(Vec<u8>),
    Unit,
    OptionValue,
    NewtypeStruct,
    Sequence,
    Mapping,
    Enum,
    UnitVariant,
    NewtypeVariant,
    TupleVariant,
    StructVariant,
    Other(String),
}

/// The model of [`Unexpected`].
pub enum UnexpectedModel {
    Bool(bool),
    Unsigned(u64),
    Signed(i64),
    Float(u64),
    Char(char),
    Str(Seq<char>),
    Bytes(Seq<u8>),
    Unit,
    OptionValue,
    NewtypeStruct,
    Sequence,
    Mapping,
    Enum,
    UnitVariant,
    NewtypeVariant,
    TupleVariant,
    StructVariant,
    Other(Seq<char>),
}

impl View for Unexpected {
    type V = UnexpectedModel;

    open spec fn view(&self) -> UnexpectedModel {
        match self {
            Unexpected::Bool(b) => UnexpectedModel::Bool(*b),
            Unexpected::Unsigned(u) => UnexpectedModel::Unsigned(*u),
            Unexpected::Signed(i) => UnexpectedModel::Signed(*i),
            Unexpected::Float(f) => UnexpectedModel::Float(*f),
            Unexpected::Char(c) => UnexpectedModel::Char(*c),
            Unexpected::Str(s) => UnexpectedModel::Str(s@),
            Unexpected::Bytes(b) => UnexpectedModel::Bytes(b@),
            Unexpected::Unit => UnexpectedModel::Unit,
            Unexpected::OptionValue => UnexpectedModel::OptionValue,
            Unexpected::NewtypeStruct => UnexpectedModel::NewtypeStruct,
            Unexpected::Sequence => UnexpectedModel::Sequence,
            Unexpected::Mapping => UnexpectedModel::Mapping,
            Unexpected::Enum => UnexpectedModel::Enum,
            Unexpected::UnitVariant => UnexpectedModel::UnitVariant,
            Unexpected::NewtypeVariant => UnexpectedModel::NewtypeVariant,
            Unexpected::TupleVariant => UnexpectedModel::TupleVariant,
            Unexpected::StructVariant => UnexpectedModel::StructVariant,
            Unexpected::Other(s) => UnexpectedModel::Other(s@),
        }
    }
}

/// An error of converting a value into a Rust type.
#[derive(Debug)]
pub enum DeError {
    /// A value of another type than the target expects.
    InvalidType { received: Unexpected, expected: String },
    /// A value of the right type that the target refuses.
    InvalidValue { received: Unexpected, expected: String },
    /// A sequence or map with too many or too few elements.
    InvalidLength { received: usize, expected: String },
    /// An enum variant of an unknown name.
    UnknownVariant { variant: String, expected: &'static [&'static str] },
    /// A field of an unknown name.
    UnknownField { field: String, expected: &'static [&'static str] },
    /// A required field that is missing.
    MissingField { field: &'static str },
    /// A field that occurs twice.
    DuplicateField { field: &'static str },
    NoSuchProperty,
    PropertyMissingButRequired,
    Other(String),
    /// An integer outside the range of the target type.
    IntegerOutOfBounds(i64, &'static str),
    DateTimeOutOfBounds(&'static str),
}

/// The model of [`DeError`].
pub enum DeErrorModel {
    InvalidType { received: UnexpectedModel, expected: Seq<char> },
    InvalidValue { received: UnexpectedModel, expected: Seq<char> },
    InvalidLength { received: usize, expected: Seq<char> },
    UnknownVariant { variant: Seq<char>, expected: Seq<Seq<char>> },
    UnknownField { field: Seq<char>, expected: Seq<Seq<char>> },
    MissingField { field: Seq<char> },
    DuplicateField { field: Seq<char> },
    NoSuchProperty,
    PropertyMissingButRequired,
    Other(Seq<char>),
    IntegerOutOfBounds(i64, Seq<char>),
    DateTimeOutOfBounds(Seq<char>),
}

/// The names of a list of names.
pub open spec fn names(s: &'static [&'static str]) -> Seq<Seq<char>> {
    Seq::new(s@.len(), |i: int| s@[i]@)
}

impl View for DeError {
    type V = DeErrorModel;

    open spec fn view(&self) -> DeErrorModel {
        match self {
            DeError::InvalidType { received, expected } => DeErrorModel::InvalidType {
                received: received@,
                expected: expected@,
            },
            DeError::InvalidValue { received, expected } => DeErrorModel::InvalidValue {
                received: received@,
                expected: expected@,
            },
            DeError::InvalidLength { received, expected } => DeErrorModel::InvalidLength {
                received: *received,
                expected: expected@,
            },
            DeError::UnknownVariant { variant, expected } => DeErrorModel::UnknownVariant {
                variant: variant@,
                expected: names(*expected),
            },
            DeError::UnknownField { field, expected } => DeErrorModel::UnknownField {
                field: field@,
                expected: names(*expected),
            },
            DeError::MissingField { field } => DeErrorModel::MissingField { field: field@ },
            DeError::DuplicateField { field } => DeErrorModel::DuplicateField { field: field@ },
            DeError::NoSuchProperty => DeErrorModel::NoSuchProperty,
            DeError::PropertyMissingButRequired => DeErrorModel::PropertyMissingButRequired,
            DeError::Other(m) => DeErrorModel::Other(m@),
            DeError::IntegerOutOfBounds(v, t) => DeErrorModel::IntegerOutOfBounds(*v, t@),
            DeError::DateTimeOutOfBounds(t) => DeErrorModel::DateTimeOutOfBounds(t@),
        }
    }
}

// ---------------------------------------------------------------- messages

/// `Debug` of a string: quoted, with the characters that need it escaped.
pub uninterp spec fn debug_text(s: Seq<char>) -> Seq<char>;

/// `Debug` of a list of names: each name as `Debug` writes it, in brackets.
pub uninterp spec fn debug_names(s: Seq<Seq<char>>) -> Seq<char>;

/// How an error message names what was met.
pub open spec fn unexpected_text(u: UnexpectedModel) -> Seq<char> {
    match u {
        UnexpectedModel::Bool(b) => "boolean `"@ + (if b { "true"@ } else { "false"@ }) + "`"@,
        UnexpectedModel::Unsigned(i) => "integer `"@ + decimal(i as nat) + "`"@,
        UnexpectedModel::Signed(i) => "integer `"@ + signed_decimal(i as int) + "`"@,
        UnexpectedModel::Float(_) => "floating point"@,  // the value itself is written by app code
        UnexpectedModel::Char(c) => "character `"@ + seq![c] + "`"@,
        UnexpectedModel::Str(s) => "string "@ + debug_text(s),
        UnexpectedModel::Bytes(_) => "byte array"@,
        UnexpectedModel::Unit => "unit value"@,
        UnexpectedModel::OptionValue => "Option value"@,
        UnexpectedModel::NewtypeStruct => "newtype struct"@,
        UnexpectedModel::Sequence => "sequence"@,
        UnexpectedModel::Mapping => "map"@,
        UnexpectedModel::Enum => "enum"@,
        UnexpectedModel::UnitVariant => "unit variant"@,
        UnexpectedModel::NewtypeVariant => "newtype variant"@,
        UnexpectedModel::TupleVariant => "tuple variant"@,
        UnexpectedModel::StructVariant => "struct variant"@,
        UnexpectedModel::Other(s) => s,
    }
}

/// The message of an error.
pub open spec fn message(e: DeErrorModel) -> Seq<char> {
    match e {
        DeErrorModel::InvalidType { received, expected } => "Invalid type: "@ + unexpected_text(received)
            + ", expected "@ + expected,
        DeErrorModel::InvalidValue { received, expected } => "Invalid value: "@ + unexpected_text(received)
            + ", expected "@ + expected,
        DeErrorModel::InvalidLength { received, expected } => "Invalid length "@ + decimal(received as nat)
            + ", expected "@ + expected,
        DeErrorModel::UnknownVariant { variant, expected } => "Unknown variant `"@ + variant + "`, expected "@
            + debug_names(expected),
        DeErrorModel::UnknownField { field, expected } => "Unknown field `"@ + field + "`, expected "@
            + debug_names(expected),
        DeErrorModel::MissingField { field } => "Missing field `"@ + field + "`"@,
        DeErrorModel::DuplicateField { field } => "Duplicate field `"@ + field + "`"@,
        DeErrorModel::NoSuchProperty => "The property does not exist"@,
        DeErrorModel::PropertyMissingButRequired => missing_but_required_text(),
        DeErrorModel::Other(m) => m,
        DeErrorModel::IntegerOutOfBounds(v, t) => "Could not convert the integer `"@ + signed_decimal(v as int)
            + "` to the target type "@ + t,
        DeErrorModel::DateTimeOutOfBounds(t) => "Could not convert the DateTime to the target type "@ + t,
    }
}

/// The message of a property that is missing though a value is expected.
pub open spec fn missing_but_required_text() -> Seq<char> {
    "The property is missing but the deserializer still expects a value. If you have an optional property with a default value, you need to use an Option<T> instead (the default attribute does not work in this particular instance). If you meant to extract additional data other than properties, you need to use the appropriate struct wrapper."@
}

/// `String::push_str`: appends the text.
#[verifier::external_body]
pub(crate) fn push_text(s: &mut String, t: &str)
    ensures
        final(s)@ == old(s)@ + t@,
{
    s.push_str(t)
}

/// `to_string` of an `i64`: its decimal text.
#[verifier::external_body]
fn signed_text(v: i64) -> (r: String)
    ensures
        r@ == signed_decimal(v as int),
{
    v.to_string()
}

/// `to_string` of a `u64`: its decimal text.
#[verifier::external_body]
pub(crate) fn unsigned_text(v: u64) -> (r: String)
    ensures
        r@ == decimal(v as nat),
{
    v.to_string()
}

/// `to_string` of a `char`: the char alone.
#[verifier::external_body]
fn char_text(c: char) -> (r: String)
    ensures
        r@ == seq![c],
{
    c.to_string()
}

/// `format!("{:?}", s)` of a string.
#[verifier::external_body]
fn string_debug(s: &str) -> (r: String)
    ensures
        r@ == debug_text(s@),
{
    format!("{:?}", s)
}

/// `format!("{:?}", names)` of a list of names.
#[verifier::external_body]
fn names_debug(s: &'static [&'static str]) -> (r: String)
    ensures
        r@ == debug_names(names(s)),
{
    format!("{:?}", s)
}

impl Unexpected {
    /// How an error message names what was met; a float is written in
    /// app code, which can format it.
    pub fn text(&self) -> (r: String)
        requires
            !(self is Float),
        ensures
            r@ == unexpected_text(self@),
    {
        let mut r = String::new();
        match self {
            Unexpected::Bool(b) => {
                push_text(&mut r, "boolean `");
                if *b {
                    push_text(&mut r, "true");
                } else {
                    push_text(&mut r, "false");
                }
                push_text(&mut r, "`");
            },
            Unexpected::Unsigned(i) => {
                push_text(&mut r, "integer `");
                push_text(&mut r, unsigned_text(*i).as_str());
                push_text(&mut r, "`");
            },
            Unexpected::Signed(i) => {
                push_text(&mut r, "integer `");
                push_text(&mut r, signed_text(*i).as_str());
                push_text(&mut r, "`");
            },
            Unexpected::Float(_) => vstd::pervasive::unreached(),
            Unexpected::Char(c) => {
                push_text(&mut r, "character `");
                push_text(&mut r, char_text(*c).as_str());
                push_text(&mut r, "`");
            },
            Unexpected::Str(s) => {
                push_text(&mut r, "string ");
                push_text(&mut r, string_debug(s.as_str()).as_str());
            },
            Unexpected::Bytes(_) => push_text(&mut r, "byte array"),
            Unexpected::Unit => push_text(&mut r, "unit value"),
            Unexpected::OptionValue => push_text(&mut r, "Option value"),
            Unexpected::NewtypeStruct => push_text(&mut r, "newtype struct"),
            Unexpected::Sequence => push_text(&mut r, "sequence"),
            Unexpected::Mapping => push_text(&mut r, "map"),
            Unexpected::Enum => push_text(&mut r, "enum"),
            Unexpected::UnitVariant => push_text(&mut r, "unit variant"),
            Unexpected::NewtypeVariant => push_text(&mut r, "newtype variant"),
            Unexpected::TupleVariant => push_text(&mut r, "tuple variant"),
            Unexpected::StructVariant => push_text(&mut r, "struct variant"),
            Unexpected::Other(s) => push_text(&mut r, s.as_str()),
        }
        r
    }
}

/// `to_string` of a `usize`: its decimal text.
#[verifier::external_body]
fn size_text(v: usize) -> (r: String)
    ensures
        r@ == decimal(v as nat),
{
    v.to_string()
}

impl DeError {
    /// The error has a message that the library writes: a float that was
    /// met is written by app code.
    pub open spec fn writable(&self) -> bool {
        match self {
            DeError::InvalidType { received, .. } => !(received is Float),
            DeError::InvalidValue { received, .. } => !(received is Float),
            _ => true,
        }
    }

    /// The message of the error.
    pub fn to_string(&self) -> (r: String)
        requires
            self.writable(),
        ensures
            r@ == message(self@),
    {
        let mut r = String::new();
        match self {
            DeError::InvalidType { received, expected } => {
                push_text(&mut r, "Invalid type: ");
                push_text(&mut r, received.text().as_str());
                push_text(&mut r, ", expected ");
                push_text(&mut r, expected.as_str());
            },
            DeError::InvalidValue { received, expected } => {
                push_text(&mut r, "Invalid value: ");
                push_text(&mut r, received.text().as_str());
                push_text(&mut r, ", expected ");
                push_text(&mut r, expected.as_str());
            },
            DeError::InvalidLength { received, expected } => {
                push_text(&mut r, "Invalid length ");
                push_text(&mut r, size_text(*received).as_str());
                push_text(&mut r, ", expected ");
                push_text(&mut r, expected.as_str());
            },
            DeError::UnknownVariant { variant, expected } => {
                push_text(&mut r, "Unknown variant `");
                push_text(&mut r, variant.as_str());
                push_text(&mut r, "`, expected ");
                push_text(&mut r, names_debug(expected).as_str());
            },
            DeError::UnknownField { field, expected } => {
                push_text(&mut r, "Unknown field `");
                push_text(&mut r, field.as_str());
                push_text(&mut r, "`, expected ");
                push_text(&mut r, names_debug(expected).as_str());
            },
            DeError::MissingField { field } => {
                push_text(&mut r, "Missing field `");
                push_text(&mut r, field);
                push_text(&mut r, "`");
            },
            DeError::DuplicateField { field } => {
                push_text(&mut r, "Duplicate field `");
                push_text(&mut r, field);
                push_text(&mut r, "`");
            },
            DeError::NoSuchProperty => push_text(&mut r, "The property does not exist"),
            DeError::PropertyMissingButRequired => {
                push_text(&mut r, "The property is missing but the deserializer still expects a value. If you have an optional property with a default value, you need to use an Option<T> instead (the default attribute does not work in this particular instance). If you meant to extract additional data other than properties, you need to use the appropriate struct wrapper.");
            },
            DeError::Other(m) => push_text(&mut r, m.as_str()),
            DeError::IntegerOutOfBounds(v, t) => {
                push_text(&mut r, "Could not convert the integer `");
                push_text(&mut r, signed_text(*v).as_str());
                push_text(&mut r, "` to the target type ");
                push_text(&mut r, t);
            },
            DeError::DateTimeOutOfBounds(t) => {
                push_text(&mut r, "Could not convert the DateTime to the target type ");
                push_text(&mut r, t);
            },
        }
        r
    }
}

} // verus!
