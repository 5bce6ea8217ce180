//! Storage declarations: a Solidity type and the name of the accessor.

use vstd::prelude::*;

verus! {

/// A Solidity type, as far as storage accessors look into it.
pub enum Type {
    /// `mapping(key => value)`
    Mapping(TypeMapping),
    /// `ty[]`, with or without a size
    Array(TypeArray),
    /// A user-defined type, by its name.
    Custom(String),
    /// Any other type, as it is written.
    Other(String),
}

/// A mapping type: the key type as it is written, the name of the key if it
/// has one, and the value type.
pub struct TypeMapping {
    pub key: String,
    pub key_name: Option<String>,
    pub value: Box<Type>,
}

/// An array type, with the type of its elements.
pub struct TypeArray {
    pub ty: Box<Type>,
}

/// A mapping declared under a name.
pub struct ExtendedTypeMapping {
    pub type_mapping: TypeMapping,
    pub ident: String,
}

/// An array declared under a name.
pub struct ExtendedTypeArray {
    pub type_array: TypeArray,
    pub ident: String,
}

/// One storage declaration.
pub enum StorageItem {
    Mapping(ExtendedTypeMapping),
    Array(ExtendedTypeArray),
}

/// The declarations of a contract's storage, in the order of their slots.
pub struct StorageInput {
    pub items: Vec<StorageItem>,
}

/// Why a declaration is refused.
#[derive(Clone, Copy, Debug, PartialEq, Eq)]
pub enum ParseError {
    /// An array was asked for and the type is none.
    ExpectedArray,
    /// The type is neither a mapping nor an array.
    NeitherMappingNorArray,
}

impl ParseError {
    /// The words that the error is reported with.
    pub fn message(&self) -> (message: &'static str)
        ensures
            message@ == match *self {
                ParseError::ExpectedArray => "Expected an array type"@,
                ParseError::NeitherMappingNorArray =>
                    "Failed to parse input as ExtendedTypeMapping or ExtendedTypeArray"@,
            },
    {
        match self {
            ParseError::ExpectedArray => "Expected an array type",
            ParseError::NeitherMappingNorArray =>
                "Failed to parse input as ExtendedTypeMapping or ExtendedTypeArray",
        }
    }
}

impl ExtendedTypeMapping {
    /// The mapping `type_mapping` declared as `ident`.
    pub fn new(type_mapping: TypeMapping, ident: String) -> (mapping: Self)
        ensures
            mapping == (ExtendedTypeMapping { type_mapping, ident }),
    {
        ExtendedTypeMapping { type_mapping, ident }
    }
}

impl ExtendedTypeArray {
    /// The array `ty` declared as `ident`; an error where `ty` is no array.
    pub fn new(ty: Type, ident: String) -> (array: Result<Self, ParseError>)
        ensures
            match ty {
                Type::Array(type_array) => array matches Ok(declared) && declared == (
                ExtendedTypeArray { type_array, ident }),
                _ => array matches Err(err) && err == ParseError::ExpectedArray,
            },
    {
        let type_array = match ty {
            Type::Array(array) => array,
            _ => {
                return Err(ParseError::ExpectedArray);
            },
        };
        Ok(ExtendedTypeArray { type_array, ident })
    }
}

impl StorageItem {
    /// The declaration of the type `ty` under the name `ident`: an array
    /// where the type is an array, a mapping where it is a mapping, and an
    /// error for any other type.
    pub fn new(ty: Type, ident: String) -> (item: Result<Self, ParseError>)
        ensures
            match ty {
                Type::Array(type_array) => item matches Ok(StorageItem::Array(declared))
                    && declared == (ExtendedTypeArray { type_array, ident }),
                Type::Mapping(type_mapping) => item matches Ok(StorageItem::Mapping(declared))
                    && declared == (ExtendedTypeMapping { type_mapping, ident }),
                _ => item matches Err(err) && err == ParseError::NeitherMappingNorArray,
            },
    {
        match ty {
            Type::Array(type_array) => Ok(
                StorageItem::Array(ExtendedTypeArray { type_array, ident }),
            ),
            Type::Mapping(type_mapping) => Ok(
                StorageItem::Mapping(ExtendedTypeMapping::new(type_mapping, ident)),
            ),
            _ => Err(ParseError::NeitherMappingNorArray),
        }
    }
}

} // verus!
