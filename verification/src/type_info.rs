//! The type classifier: from the text of a field's type to a semantic tag
//! and the number of bytes a value of that type takes.
//!
//! One rule decides for every host, and it reads the text of the whole
//! type expression. Simple type names are matched exactly, and first. A
//! container is known by the text it begins with: `Array<` or `Span<`,
//! whatever its parameters. Everything else is [`TypeTag::Unknown`] and
//! keeps its text: a name behind a path (`core::array::Array<u8>`), a
//! container without its parameter list (`Array`), white space inside the
//! name. A host that has tokens instead of text prints them and takes the
//! blanks out with [`crate::text::without_blanks`] before it asks.
//!
//! An unknown type is no error and gives no warning; it has the width 0.

use vstd::prelude::*;
use crate::text::{same_text, starts_with};

verus! {

/// What a field's type means for the layout of a record.
#[derive(Debug, PartialEq, Eq)]
pub enum TypeTag {
    ContractAddress,
    Felt252,
    UInt8,
    UInt16,
    UInt32,
    UInt64,
    UInt128,
    UInt256,
    Bool,
    ByteArray,
    Array,
    Span,
    /// A type that the classifier does not know, with its text as written.
    Unknown(String),
}

/// The mathematical model of a [`TypeTag`].
pub ghost enum TypeTagView {
    ContractAddress,
    Felt252,
    UInt8,
    UInt16,
    UInt32,
    UInt64,
    UInt128,
    UInt256,
    Bool,
    ByteArray,
    Array,
    Span,
    Unknown(Seq<char>),
}

impl View for TypeTag {
    type V = TypeTagView;

    open spec fn view(&self) -> TypeTagView {
        match self {
            TypeTag::ContractAddress => TypeTagView::ContractAddress,
            TypeTag::Felt252 => TypeTagView::Felt252,
            TypeTag::UInt8 => TypeTagView::UInt8,
            TypeTag::UInt16 => TypeTagView::UInt16,
            TypeTag::UInt32 => TypeTagView::UInt32,
            TypeTag::UInt64 => TypeTagView::UInt64,
            TypeTag::UInt128 => TypeTagView::UInt128,
            TypeTag::UInt256 => TypeTagView::UInt256,
            TypeTag::Bool => TypeTagView::Bool,
            TypeTag::ByteArray => TypeTagView::ByteArray,
            TypeTag::Array => TypeTagView::Array,
            TypeTag::Span => TypeTagView::Span,
            TypeTag::Unknown(raw) => TypeTagView::Unknown(raw@),
        }
    }
}

impl TypeTagView {
    /// The fixed number of bytes of a value, or 0 where the length varies
    /// or the type is not known.
    pub open spec fn byte_width(self) -> nat {
        match self {
            TypeTagView::ContractAddress => 32,
            TypeTagView::Felt252 => 32,
            TypeTagView::UInt8 => 1,
            TypeTagView::UInt16 => 2,
            TypeTagView::UInt32 => 4,
            TypeTagView::UInt64 => 8,
            TypeTagView::UInt128 => 16,
            TypeTagView::UInt256 => 32,
            TypeTagView::Bool => 1,
            TypeTagView::ByteArray => 0,
            TypeTagView::Array => 0,
            TypeTagView::Span => 0,
            TypeTagView::Unknown(_) => 0,
        }
    }

    /// The tags whose values have no fixed length: `ByteArray`, `Array`,
    /// `Span` and every unknown type.
    pub open spec fn is_variable_length(self) -> bool {
        self is ByteArray || self is Array || self is Span || self is Unknown
    }

    /// The name under which the tag is written into generated code. An
    /// unknown type is written as its own text.
    pub open spec fn name(self) -> Seq<char> {
        match self {
            TypeTagView::ContractAddress => "ContractAddress"@,
            TypeTagView::Felt252 => "felt252"@,
            TypeTagView::UInt8 => "u8"@,
            TypeTagView::UInt16 => "u16"@,
            TypeTagView::UInt32 => "u32"@,
            TypeTagView::UInt64 => "u64"@,
            TypeTagView::UInt128 => "u128"@,
            TypeTagView::UInt256 => "u256"@,
            TypeTagView::Bool => "bool"@,
            TypeTagView::ByteArray => "ByteArray"@,
            TypeTagView::Array => "Array"@,
            TypeTagView::Span => "Span"@,
            TypeTagView::Unknown(raw) => raw,
        }
    }
}

/// The tag of a type expression, given as its text.
pub open spec fn classification(expression: Seq<char>) -> TypeTagView {
    if expression == "ContractAddress"@ {
        TypeTagView::ContractAddress
    } else if expression == "felt252"@ {
        TypeTagView::Felt252
    } else if expression == "u8"@ {
        TypeTagView::UInt8
    } else if expression == "u16"@ {
        TypeTagView::UInt16
    } else if expression == "u32"@ {
        TypeTagView::UInt32
    } else if expression == "u64"@ {
        TypeTagView::UInt64
    } else if expression == "u128"@ {
        TypeTagView::UInt128
    } else if expression == "u256"@ {
        TypeTagView::UInt256
    } else if expression == "bool"@ {
        TypeTagView::Bool
    } else if expression == "ByteArray"@ {
        TypeTagView::ByteArray
    } else if "Array<"@.is_prefix_of(expression) {
        TypeTagView::Array
    } else if "Span<"@.is_prefix_of(expression) {
        TypeTagView::Span
    } else {
        TypeTagView::Unknown(expression)
    }
}

impl TypeTag {
    /// The fixed number of bytes of a value, or 0 where the length varies
    /// or the type is not known.
    pub fn byte_width(&self) -> (width: u32)
        ensures
            width == self@.byte_width(),
    {
        match self {
            TypeTag::ContractAddress => 32,
            TypeTag::Felt252 => 32,
            TypeTag::UInt8 => 1,
            TypeTag::UInt16 => 2,
            TypeTag::UInt32 => 4,
            TypeTag::UInt64 => 8,
            TypeTag::UInt128 => 16,
            TypeTag::UInt256 => 32,
            TypeTag::Bool => 1,
            TypeTag::ByteArray => 0,
            TypeTag::Array => 0,
            TypeTag::Span => 0,
            TypeTag::Unknown(_) => 0,
        }
    }

    /// The name under which the tag is written into generated code.
    pub fn name(&self) -> (text: &str)
        ensures
            text@ == self@.name(),
    {
        match self {
            TypeTag::ContractAddress => "ContractAddress",
            TypeTag::Felt252 => "felt252",
            TypeTag::UInt8 => "u8",
            TypeTag::UInt16 => "u16",
            TypeTag::UInt32 => "u32",
            TypeTag::UInt64 => "u64",
            TypeTag::UInt128 => "u128",
            TypeTag::UInt256 => "u256",
            TypeTag::Bool => "bool",
            TypeTag::ByteArray => "ByteArray",
            TypeTag::Array => "Array",
            TypeTag::Span => "Span",
            TypeTag::Unknown(raw) => raw.as_str(),
        }
    }
}

/// Classifies a type expression. Classification is total: a type that the
/// table does not hold is `Unknown`, with its text and the width 0.
pub fn classify(type_expression: &str) -> (result: (TypeTag, u32))
    ensures
        result.0@ == classification(type_expression@),
        result.1 == classification(type_expression@).byte_width(),
{
    let tag = if same_text(type_expression, "ContractAddress") {
        TypeTag::ContractAddress
    } else if same_text(type_expression, "felt252") {
        TypeTag::Felt252
    } else if same_text(type_expression, "u8") {
        TypeTag::UInt8
    } else if same_text(type_expression, "u16") {
        TypeTag::UInt16
    } else if same_text(type_expression, "u32") {
        TypeTag::UInt32
    } else if same_text(type_expression, "u64") {
        TypeTag::UInt64
    } else if same_text(type_expression, "u128") {
        TypeTag::UInt128
    } else if same_text(type_expression, "u256") {
        TypeTag::UInt256
    } else if same_text(type_expression, "bool") {
        TypeTag::Bool
    } else if same_text(type_expression, "ByteArray") {
        TypeTag::ByteArray
    } else if starts_with(type_expression, "Array<") {
        TypeTag::Array
    } else if starts_with(type_expression, "Span<") {
        TypeTag::Span
    } else {
        TypeTag::Unknown(type_expression.to_owned())
    };
    let width = tag.byte_width();
    (tag, width)
}

/// The name and the byte width under which a type expression is written
/// into generated code.
pub fn get_type_info(type_expression: &str) -> (result: (String, u32))
    ensures
        result.0@ == classification(type_expression@).name(),
        result.1 == classification(type_expression@).byte_width(),
{
    let (tag, width) = classify(type_expression);
    (tag.name().to_owned(), width)
}

} // verus!
