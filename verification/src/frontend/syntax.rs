//! The property types of a JSON schema, as far as they are told apart by
//! the word in the `type` field, and the keys that tell the kinds of
//! property apart.

use vstd::prelude::*;
use crate::text::str_eq;

verus! {

/// A type that is not `null`.
#[derive(Debug, Clone, Copy, PartialEq, Eq, Structural)]
pub enum NonNullPropertyType {
    Boolean,
    Integer,
    Object,
    Array,
    Number,
    String,
}

/// The type of a property: `null`, a type, or a type that admits `null`.
#[derive(Debug, Clone, Copy, PartialEq, Eq, Structural)]
pub enum PropertyType {
    Null,
    NonNull(NonNullPropertyType),
    Nullable(NonNullPropertyType),
}

/// What one word of a `type` field stands for.
#[derive(Debug, Clone, Copy, PartialEq, Eq, Structural)]
pub enum PropertyTypeConversion {
    Null,
    NonNull(NonNullPropertyType),
}

#[derive(Debug, Clone, Copy, PartialEq, Eq, Structural)]
pub enum PropertyTypeConversionError {
    UnsupportedType,
}

/// What a word of a `type` field stands for, if it is one of the seven
/// words of the schema language.
pub open spec fn spec_try_from_str(s: Seq<char>) -> Result<
    PropertyTypeConversion,
    PropertyTypeConversionError,
> {
    if s == "null"@ {
        Ok(PropertyTypeConversion::Null)
    } else if s == "boolean"@ {
        Ok(PropertyTypeConversion::NonNull(NonNullPropertyType::Boolean))
    } else if s == "integer"@ {
        Ok(PropertyTypeConversion::NonNull(NonNullPropertyType::Integer))
    } else if s == "object"@ {
        Ok(PropertyTypeConversion::NonNull(NonNullPropertyType::Object))
    } else if s == "array"@ {
        Ok(PropertyTypeConversion::NonNull(NonNullPropertyType::Array))
    } else if s == "number"@ {
        Ok(PropertyTypeConversion::NonNull(NonNullPropertyType::Number))
    } else if s == "string"@ {
        Ok(PropertyTypeConversion::NonNull(NonNullPropertyType::String))
    } else {
        Err(PropertyTypeConversionError::UnsupportedType)
    }
}

impl NonNullPropertyType {
    /// The TypeScript word for the type.
    pub open spec fn spec_ts_type_str(self) -> Seq<char> {
        match self {
            NonNullPropertyType::Boolean => "boolean"@,
            NonNullPropertyType::Integer => "number"@,
            NonNullPropertyType::Object => "object"@,
            NonNullPropertyType::Array => "array"@,
            NonNullPropertyType::Number => "number"@,
            NonNullPropertyType::String => "string"@,
        }
    }

    pub fn ts_type_str(&self) -> (r: &'static str)
        ensures
            r@ == self.spec_ts_type_str(),
    {
        match self {
            NonNullPropertyType::Boolean => "boolean",
            NonNullPropertyType::Integer => "number",
            NonNullPropertyType::Object => "object",
            NonNullPropertyType::Array => "array",
            NonNullPropertyType::Number => "number",
            NonNullPropertyType::String => "string",
        }
    }

    pub fn try_from_str(s: &str) -> (r: Result<PropertyTypeConversion, PropertyTypeConversionError>)
        ensures
            r == spec_try_from_str(s@),
    {
        if str_eq(s, "null") {
            Ok(PropertyTypeConversion::Null)
        } else if str_eq(s, "boolean") {
            Ok(PropertyTypeConversion::NonNull(NonNullPropertyType::Boolean))
        } else if str_eq(s, "integer") {
            Ok(PropertyTypeConversion::NonNull(NonNullPropertyType::Integer))
        } else if str_eq(s, "object") {
            Ok(PropertyTypeConversion::NonNull(NonNullPropertyType::Object))
        } else if str_eq(s, "array") {
            Ok(PropertyTypeConversion::NonNull(NonNullPropertyType::Array))
        } else if str_eq(s, "number") {
            Ok(PropertyTypeConversion::NonNull(NonNullPropertyType::Number))
        } else if str_eq(s, "string") {
            Ok(PropertyTypeConversion::NonNull(NonNullPropertyType::String))
        } else {
            Err(PropertyTypeConversionError::UnsupportedType)
        }
    }
}

/// The key of a property that tells its kind.
#[derive(Debug, Clone, Copy, PartialEq, Eq, Structural)]
pub enum TagKind {
    Ref,
    OneOf,
    AllOf,
    Type,
    Enum,
}

impl TagKind {
    /// The key as it is written in a schema.
    pub open spec fn spec_as_str(self) -> Seq<char> {
        match self {
            TagKind::Ref => "$ref"@,
            TagKind::OneOf => "oneOf"@,
            TagKind::AllOf => "allOf"@,
            TagKind::Type => "type"@,
            TagKind::Enum => "enum"@,
        }
    }

    pub fn as_str(&self) -> (r: &'static str)
        ensures
            r@ == self.spec_as_str(),
    {
        match self {
            TagKind::Ref => "$ref",
            TagKind::OneOf => "oneOf",
            TagKind::AllOf => "allOf",
            TagKind::Type => "type",
            TagKind::Enum => "enum",
        }
    }
}

impl PropertyType {
    /// The property type that a converted word stands for.
    pub fn from_conversion(value: PropertyTypeConversion) -> (r: Self)
        ensures
            r == match value {
                PropertyTypeConversion::Null => PropertyType::Null,
                PropertyTypeConversion::NonNull(ty) => PropertyType::NonNull(ty),
            },
    {
        match value {
            PropertyTypeConversion::Null => PropertyType::Null,
            PropertyTypeConversion::NonNull(ty) => PropertyType::NonNull(ty),
        }
    }
}

} // verus!
