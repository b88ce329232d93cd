//! The kinds of key the tool can create and show.

use vstd::prelude::*;
use vstd::string::StringExecFns;
use crate::text::{lowercase_of, to_lowercase};

verus! {

/// The kind of a key, as far as the tool handles it.
#[derive(Clone, Copy, Debug, PartialEq, Eq, Structural)]
pub enum RedisKeyType {
    String,
    Hash,
    Unknown,
}

/// The kind that a type name in lower case stands for.
pub open spec fn key_type_named(lowered: Seq<char>) -> RedisKeyType {
    if lowered == "hash"@ {
        RedisKeyType::Hash
    } else if lowered == "string"@ {
        RedisKeyType::String
    } else {
        RedisKeyType::Unknown
    }
}

impl RedisKeyType {
    /// The kind that a type name in lower case stands for: `hash`, `string`,
    /// and `Unknown` for every other text.
    pub fn from_lowercase(lowered: &str) -> (kind: Self)
        ensures
            kind == key_type_named(lowered@),
    {
        let lowered = String::from_str(lowered);
        if lowered == String::from_str("hash") {
            RedisKeyType::Hash
        } else if lowered == String::from_str("string") {
            RedisKeyType::String
        } else {
            RedisKeyType::Unknown
        }
    }

    /// The kind that a type name stands for, whatever its case.
    pub fn from(value: &str) -> (kind: Self)
        ensures
            kind == key_type_named(lowercase_of(value@)),
    {
        let lowered = to_lowercase(value);
        Self::from_lowercase(lowered.as_str())
    }

    /// Whether the tool can handle keys of this kind.
    pub fn is_valid(&self) -> (valid: bool)
        ensures
            valid == (*self != RedisKeyType::Unknown),
    {
        match self {
            RedisKeyType::Unknown => false,
            _ => true,
        }
    }
}

} // verus!
