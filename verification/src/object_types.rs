//! Kinds and types of nodes.

use vstd::prelude::*;

verus! {

/// Limits on the length of a string-like value.
#[derive(Clone, Copy, Debug, PartialEq, Eq)]
pub struct StringBounds {
    pub min_length: Option<u64>,
    pub max_length: Option<u64>,
}

/// The closed set of kinds that a node can have. The string-like kinds may
/// carry limits on their length.
#[derive(Clone, Copy, Debug, PartialEq, Eq)]
pub enum RawObjectType {
    Object,
    Array,
    Boolean,
    Integer,
    Number,
    String(Option<StringBounds>),
    Text(Option<StringBounds>),
    Password(Option<StringBounds>),
}

/// A kind together with the mark that says whether a value must be given.
#[derive(Clone, Copy, Debug, PartialEq, Eq)]
pub enum ObjectType {
    Required(RawObjectType),
    Optional(RawObjectType),
}

impl RawObjectType {
    /// The limits that the kind carries, if it is string-like and has any.
    pub open spec fn spec_bounds(self) -> Option<StringBounds> {
        match self {
            RawObjectType::String(b) => b,
            RawObjectType::Text(b) => b,
            RawObjectType::Password(b) => b,
            _ => None,
        }
    }

    /// The limits that the kind carries, if it is string-like and has any.
    #[verifier::when_used_as_spec(spec_bounds)]
    pub fn bounds(self) -> (r: Option<StringBounds>)
        ensures
            r == self.spec_bounds(),
    {
        match self {
            RawObjectType::String(b) => b,
            RawObjectType::Text(b) => b,
            RawObjectType::Password(b) => b,
            _ => None,
        }
    }

    /// Whether the kind is one of the string-like ones.
    pub open spec fn spec_is_string_like(self) -> bool {
        self is String || self is Text || self is Password
    }

    /// Whether the kind is one of the string-like ones.
    #[verifier::when_used_as_spec(spec_is_string_like)]
    pub fn is_string_like(self) -> (r: bool)
        ensures
            r == self.spec_is_string_like(),
    {
        match self {
            RawObjectType::String(_) => true,
            RawObjectType::Text(_) => true,
            RawObjectType::Password(_) => true,
            _ => false,
        }
    }

    /// The same kind with other limits; a kind that is not string-like is
    /// returned as it is.
    pub open spec fn spec_with_bounds(self, bounds: Option<StringBounds>) -> RawObjectType {
        match self {
            RawObjectType::String(_) => RawObjectType::String(bounds),
            RawObjectType::Text(_) => RawObjectType::Text(bounds),
            RawObjectType::Password(_) => RawObjectType::Password(bounds),
            other => other,
        }
    }

    /// The same kind with other limits; a kind that is not string-like is
    /// returned as it is.
    #[verifier::when_used_as_spec(spec_with_bounds)]
    pub fn with_bounds(self, bounds: Option<StringBounds>) -> (r: RawObjectType)
        ensures
            r == self.spec_with_bounds(bounds),
    {
        match self {
            RawObjectType::String(_) => RawObjectType::String(bounds),
            RawObjectType::Text(_) => RawObjectType::Text(bounds),
            RawObjectType::Password(_) => RawObjectType::Password(bounds),
            other => other,
        }
    }
}

impl ObjectType {
    /// The kind, without the mark.
    pub open spec fn spec_inner_raw(&self) -> RawObjectType {
        match *self {
            ObjectType::Required(raw) => raw,
            ObjectType::Optional(raw) => raw,
        }
    }

    /// The kind, without the mark.
    #[verifier::when_used_as_spec(spec_inner_raw)]
    pub fn inner_raw(&self) -> (r: RawObjectType)
        ensures
            r == self.spec_inner_raw(),
    {
        match self {
            ObjectType::Required(raw) => *raw,
            ObjectType::Optional(raw) => *raw,
        }
    }

    /// Whether a value must be given.
    pub open spec fn spec_is_required(&self) -> bool {
        self is Required
    }

    /// Whether a value must be given.
    #[verifier::when_used_as_spec(spec_is_required)]
    pub fn is_required(&self) -> (r: bool)
        ensures
            r == self.spec_is_required(),
    {
        match self {
            ObjectType::Required(_) => true,
            ObjectType::Optional(_) => false,
        }
    }

    /// The type with the same mark and another kind.
    pub open spec fn spec_with_raw(&self, raw: RawObjectType) -> ObjectType {
        match self {
            ObjectType::Required(_) => ObjectType::Required(raw),
            ObjectType::Optional(_) => ObjectType::Optional(raw),
        }
    }

    /// The type with the same mark and another kind.
    #[verifier::when_used_as_spec(spec_with_raw)]
    pub fn with_raw(&self, raw: RawObjectType) -> (r: ObjectType)
        ensures
            r == self.spec_with_raw(raw),
    {
        match self {
            ObjectType::Required(_) => ObjectType::Required(raw),
            ObjectType::Optional(_) => ObjectType::Optional(raw),
        }
    }
}

} // verus!
