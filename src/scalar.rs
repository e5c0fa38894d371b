//! Boolean, integer, float and string specifications.

use vstd::prelude::*;
use vstd::string::StringExecFns;

use crate::base::{base_configured, base_empty, base_marked, base_named};
use crate::session::{
    Error, FloatConstraints, IntegerConstraints, Node, Session, StringConstraints, TypeBase,
};
use crate::t::{allocated, handle_ids, to_handle, TypeDef};

verus! {

/// Pending specification of a boolean node.
#[derive(Debug, Clone)]
pub struct BooleanBuilder {
    pub base: TypeBase,
}

impl BooleanBuilder {
    /// Sets the display name.
    pub fn named(self, name: &str) -> (r: Self)
        ensures
            base_named(self.base, r.base, name@),
    {
        BooleanBuilder { base: self.base.named(name) }
    }

    /// Marks the node as usable as an entity identity.
    pub fn id(self) -> (r: Self)
        ensures
            base_marked(self.base, r.base),
    {
        BooleanBuilder { base: self.base.marked_id() }
    }

    /// Appends a runtime configuration pair.
    pub fn config(self, key: &str, value: &serde_json::Value) -> (r: Self)
        ensures
            base_configured(self.base, r.base, key@),
    {
        BooleanBuilder { base: self.base.config(key, value) }
    }
}

/// Pending specification of an integer node.
#[derive(Debug, Clone)]
pub struct IntegerBuilder {
    pub data: IntegerConstraints,
    pub base: TypeBase,
}

impl IntegerBuilder {
    /// Sets the display name.
    pub fn named(self, name: &str) -> (r: Self)
        ensures
            r.data == self.data,
            base_named(self.base, r.base, name@),
    {
        IntegerBuilder { data: self.data, base: self.base.named(name) }
    }

    /// Marks the node as usable as an entity identity.
    pub fn id(self) -> (r: Self)
        ensures
            r.data == self.data,
            base_marked(self.base, r.base),
    {
        IntegerBuilder { data: self.data, base: self.base.marked_id() }
    }

    /// Appends a runtime configuration pair.
    pub fn config(self, key: &str, value: &serde_json::Value) -> (r: Self)
        ensures
            r.data == self.data,
            base_configured(self.base, r.base, key@),
    {
        IntegerBuilder { data: self.data, base: self.base.config(key, value) }
    }
}

/// Pending specification of a float node.
#[derive(Debug, Clone)]
pub struct FloatBuilder {
    pub data: FloatConstraints,
    pub base: TypeBase,
}

impl FloatBuilder {
    /// Sets the display name.
    pub fn named(self, name: &str) -> (r: Self)
        ensures
            r.data == self.data,
            base_named(self.base, r.base, name@),
    {
        FloatBuilder { data: self.data, base: self.base.named(name) }
    }

    /// Marks the node as usable as an entity identity.
    pub fn id(self) -> (r: Self)
        ensures
            r.data == self.data,
            base_marked(self.base, r.base),
    {
        FloatBuilder { data: self.data, base: self.base.marked_id() }
    }

    /// Appends a runtime configuration pair.
    pub fn config(self, key: &str, value: &serde_json::Value) -> (r: Self)
        ensures
            r.data == self.data,
            base_configured(self.base, r.base, key@),
    {
        FloatBuilder { data: self.data, base: self.base.config(key, value) }
    }
}

/// Pending specification of a string node.
#[derive(Debug, Clone)]
pub struct StringBuilder {
    pub data: StringConstraints,
    pub base: TypeBase,
}

impl StringBuilder {
    /// Sets the display name.
    pub fn named(self, name: &str) -> (r: Self)
        ensures
            r.data == self.data,
            base_named(self.base, r.base, name@),
    {
        StringBuilder { data: self.data, base: self.base.named(name) }
    }

    /// Marks the node as usable as an entity identity.
    pub fn id(self) -> (r: Self)
        ensures
            r.data == self.data,
            base_marked(self.base, r.base),
    {
        StringBuilder { data: self.data, base: self.base.marked_id() }
    }

    /// Appends a runtime configuration pair.
    pub fn config(self, key: &str, value: &serde_json::Value) -> (r: Self)
        ensures
            r.data == self.data,
            base_configured(self.base, r.base, key@),
    {
        StringBuilder { data: self.data, base: self.base.config(key, value) }
    }
}

pub open spec fn no_integer_constraints() -> IntegerConstraints {
    IntegerConstraints {
        min: None,
        max: None,
        exclusive_minimum: None,
        exclusive_maximum: None,
        multiple_of: None,
        enumeration: None,
    }
}

pub open spec fn no_float_constraints() -> FloatConstraints {
    FloatConstraints {
        min: None,
        max: None,
        exclusive_minimum: None,
        exclusive_maximum: None,
        multiple_of: None,
        enumeration: None,
    }
}

/// A string builder with no constraint but the format tag `format`.
pub open spec fn formatted(b: StringBuilder, format: Seq<char>) -> bool {
    &&& b.data.min is None
    &&& b.data.max is None
    &&& b.data.format matches Some(f) && f@ == format
    &&& b.data.pattern is None
    &&& b.data.enumeration is None
}
impl IntegerBuilder {
    /// Inclusive minimum; no check against the other bounds.
    pub fn min(self, v: i32) -> (r: Self)
        ensures
            r.base == self.base,
            r.data == (IntegerConstraints { min: Some(v), max: self.data.max, exclusive_minimum: self.data.exclusive_minimum, exclusive_maximum: self.data.exclusive_maximum, multiple_of: self.data.multiple_of, enumeration: self.data.enumeration }),
    {
        IntegerBuilder {
            data: IntegerConstraints {
                min: Some(v),
                max: self.data.max,
                exclusive_minimum: self.data.exclusive_minimum,
                exclusive_maximum: self.data.exclusive_maximum,
                multiple_of: self.data.multiple_of,
                enumeration: self.data.enumeration,
            },
            base: self.base,
        }
    }

    /// Inclusive maximum; no check against the other bounds.
    pub fn max(self, v: i32) -> (r: Self)
        ensures
            r.base == self.base,
            r.data == (IntegerConstraints { min: self.data.min, max: Some(v), exclusive_minimum: self.data.exclusive_minimum, exclusive_maximum: self.data.exclusive_maximum, multiple_of: self.data.multiple_of, enumeration: self.data.enumeration }),
    {
        IntegerBuilder {
            data: IntegerConstraints {
                min: self.data.min,
                max: Some(v),
                exclusive_minimum: self.data.exclusive_minimum,
                exclusive_maximum: self.data.exclusive_maximum,
                multiple_of: self.data.multiple_of,
                enumeration: self.data.enumeration,
            },
            base: self.base,
        }
    }

    /// Exclusive minimum; no check against the other bounds.
    pub fn x_min(self, v: i32) -> (r: Self)
        ensures
            r.base == self.base,
            r.data == (IntegerConstraints { min: self.data.min, max: self.data.max, exclusive_minimum: Some(v), exclusive_maximum: self.data.exclusive_maximum, multiple_of: self.data.multiple_of, enumeration: self.data.enumeration }),
    {
        IntegerBuilder {
            data: IntegerConstraints {
                min: self.data.min,
                max: self.data.max,
                exclusive_minimum: Some(v),
                exclusive_maximum: self.data.exclusive_maximum,
                multiple_of: self.data.multiple_of,
                enumeration: self.data.enumeration,
            },
            base: self.base,
        }
    }

    /// Exclusive maximum; no check against the other bounds.
    pub fn x_max(self, v: i32) -> (r: Self)
        ensures
            r.base == self.base,
            r.data == (IntegerConstraints { min: self.data.min, max: self.data.max, exclusive_minimum: self.data.exclusive_minimum, exclusive_maximum: Some(v), multiple_of: self.data.multiple_of, enumeration: self.data.enumeration }),
    {
        IntegerBuilder {
            data: IntegerConstraints {
                min: self.data.min,
                max: self.data.max,
                exclusive_minimum: self.data.exclusive_minimum,
                exclusive_maximum: Some(v),
                multiple_of: self.data.multiple_of,
                enumeration: self.data.enumeration,
            },
            base: self.base,
        }
    }

    /// The value must be a multiple of `n`; no check against the other bounds.
    pub fn multiple(self, n: i32) -> (r: Self)
        ensures
            r.base == self.base,
            r.data == (IntegerConstraints { min: self.data.min, max: self.data.max, exclusive_minimum: self.data.exclusive_minimum, exclusive_maximum: self.data.exclusive_maximum, multiple_of: Some(n), enumeration: self.data.enumeration }),
    {
        IntegerBuilder {
            data: IntegerConstraints {
                min: self.data.min,
                max: self.data.max,
                exclusive_minimum: self.data.exclusive_minimum,
                exclusive_maximum: self.data.exclusive_maximum,
                multiple_of: Some(n),
                enumeration: self.data.enumeration,
            },
            base: self.base,
        }
    }

    /// The allowed values.
    pub fn enumerate(self, values: Vec<i32>) -> (r: Self)
        ensures
            r.base == self.base,
            r.data == (IntegerConstraints { min: self.data.min, max: self.data.max, exclusive_minimum: self.data.exclusive_minimum, exclusive_maximum: self.data.exclusive_maximum, multiple_of: self.data.multiple_of, enumeration: Some(values) }),
    {
        IntegerBuilder {
            data: IntegerConstraints {
                min: self.data.min,
                max: self.data.max,
                exclusive_minimum: self.data.exclusive_minimum,
                exclusive_maximum: self.data.exclusive_maximum,
                multiple_of: self.data.multiple_of,
                enumeration: Some(values),
            },
            base: self.base,
        }
    }
}

impl FloatBuilder {
    /// Inclusive minimum (as a bit pattern); no check against the other bounds.
    pub fn min(self, v: u64) -> (r: Self)
        ensures
            r.base == self.base,
            r.data == (FloatConstraints { min: Some(v), max: self.data.max, exclusive_minimum: self.data.exclusive_minimum, exclusive_maximum: self.data.exclusive_maximum, multiple_of: self.data.multiple_of, enumeration: self.data.enumeration }),
    {
        FloatBuilder {
            data: FloatConstraints {
                min: Some(v),
                max: self.data.max,
                exclusive_minimum: self.data.exclusive_minimum,
                exclusive_maximum: self.data.exclusive_maximum,
                multiple_of: self.data.multiple_of,
                enumeration: self.data.enumeration,
            },
            base: self.base,
        }
    }

    /// Inclusive maximum (as a bit pattern); no check against the other bounds.
    pub fn max(self, v: u64) -> (r: Self)
        ensures
            r.base == self.base,
            r.data == (FloatConstraints { min: self.data.min, max: Some(v), exclusive_minimum: self.data.exclusive_minimum, exclusive_maximum: self.data.exclusive_maximum, multiple_of: self.data.multiple_of, enumeration: self.data.enumeration }),
    {
        FloatBuilder {
            data: FloatConstraints {
                min: self.data.min,
                max: Some(v),
                exclusive_minimum: self.data.exclusive_minimum,
                exclusive_maximum: self.data.exclusive_maximum,
                multiple_of: self.data.multiple_of,
                enumeration: self.data.enumeration,
            },
            base: self.base,
        }
    }

    /// Exclusive minimum (as a bit pattern); no check against the other bounds.
    pub fn x_min(self, v: u64) -> (r: Self)
        ensures
            r.base == self.base,
            r.data == (FloatConstraints { min: self.data.min, max: self.data.max, exclusive_minimum: Some(v), exclusive_maximum: self.data.exclusive_maximum, multiple_of: self.data.multiple_of, enumeration: self.data.enumeration }),
    {
        FloatBuilder {
            data: FloatConstraints {
                min: self.data.min,
                max: self.data.max,
                exclusive_minimum: Some(v),
                exclusive_maximum: self.data.exclusive_maximum,
                multiple_of: self.data.multiple_of,
                enumeration: self.data.enumeration,
            },
            base: self.base,
        }
    }

    /// Exclusive maximum (as a bit pattern); no check against the other bounds.
    pub fn x_max(self, v: u64) -> (r: Self)
        ensures
            r.base == self.base,
            r.data == (FloatConstraints { min: self.data.min, max: self.data.max, exclusive_minimum: self.data.exclusive_minimum, exclusive_maximum: Some(v), multiple_of: self.data.multiple_of, enumeration: self.data.enumeration }),
    {
        FloatBuilder {
            data: FloatConstraints {
                min: self.data.min,
                max: self.data.max,
                exclusive_minimum: self.data.exclusive_minimum,
                exclusive_maximum: Some(v),
                multiple_of: self.data.multiple_of,
                enumeration: self.data.enumeration,
            },
            base: self.base,
        }
    }

    /// The value must be a multiple of `n` (as a bit pattern); no check against the other bounds.
    pub fn multiple(self, n: u64) -> (r: Self)
        ensures
            r.base == self.base,
            r.data == (FloatConstraints { min: self.data.min, max: self.data.max, exclusive_minimum: self.data.exclusive_minimum, exclusive_maximum: self.data.exclusive_maximum, multiple_of: Some(n), enumeration: self.data.enumeration }),
    {
        FloatBuilder {
            data: FloatConstraints {
                min: self.data.min,
                max: self.data.max,
                exclusive_minimum: self.data.exclusive_minimum,
                exclusive_maximum: self.data.exclusive_maximum,
                multiple_of: Some(n),
                enumeration: self.data.enumeration,
            },
            base: self.base,
        }
    }

    /// The allowed values (as a bit pattern).
    pub fn enumerate(self, values: Vec<u64>) -> (r: Self)
        ensures
            r.base == self.base,
            r.data == (FloatConstraints { min: self.data.min, max: self.data.max, exclusive_minimum: self.data.exclusive_minimum, exclusive_maximum: self.data.exclusive_maximum, multiple_of: self.data.multiple_of, enumeration: Some(values) }),
    {
        FloatBuilder {
            data: FloatConstraints {
                min: self.data.min,
                max: self.data.max,
                exclusive_minimum: self.data.exclusive_minimum,
                exclusive_maximum: self.data.exclusive_maximum,
                multiple_of: self.data.multiple_of,
                enumeration: Some(values),
            },
            base: self.base,
        }
    }
}

impl StringBuilder {
    /// Minimum length.
    pub fn min(self, min: u32) -> (r: Self)
        ensures
            r.base == self.base,
            r.data.min == Some(min),
            r.data.max == self.data.max,
            r.data.format == self.data.format,
            r.data.pattern == self.data.pattern,
            r.data.enumeration == self.data.enumeration,
    {
        let mut data = self.data;
        data.min = Some(min);
        StringBuilder { data, base: self.base }
    }

    /// Maximum length.
    pub fn max(self, max: u32) -> (r: Self)
        ensures
            r.base == self.base,
            r.data.min == self.data.min,
            r.data.max == Some(max),
            r.data.format == self.data.format,
            r.data.pattern == self.data.pattern,
            r.data.enumeration == self.data.enumeration,
    {
        let mut data = self.data;
        data.max = Some(max);
        StringBuilder { data, base: self.base }
    }

    /// Free-form format tag ("uuid", "email", "date", ...).
    pub fn format(self, format: &str) -> (r: Self)
        ensures
            r.base == self.base,
            r.data.min == self.data.min,
            r.data.max == self.data.max,
            r.data.format matches Some(f) && f@ == format@,
            r.data.pattern == self.data.pattern,
            r.data.enumeration == self.data.enumeration,
    {
        let mut data = self.data;
        data.format = Some(String::from_str(format));
        StringBuilder { data, base: self.base }
    }

    /// Regular expression the value must match.
    pub fn pattern(self, pattern: &str) -> (r: Self)
        ensures
            r.base == self.base,
            r.data.min == self.data.min,
            r.data.max == self.data.max,
            r.data.format == self.data.format,
            r.data.pattern matches Some(p) && p@ == pattern@,
            r.data.enumeration == self.data.enumeration,
    {
        let mut data = self.data;
        data.pattern = Some(String::from_str(pattern));
        StringBuilder { data, base: self.base }
    }

    /// The allowed values.
    pub fn enumerate(self, values: Vec<String>) -> (r: Self)
        ensures
            r.base == self.base,
            r.data.min == self.data.min,
            r.data.max == self.data.max,
            r.data.format == self.data.format,
            r.data.pattern == self.data.pattern,
            r.data.enumeration == Some(values),
    {
        let mut data = self.data;
        data.enumeration = Some(values);
        StringBuilder { data, base: self.base }
    }
}

pub fn boolean() -> (r: BooleanBuilder)
    ensures
        base_empty(r.base),
{
    BooleanBuilder { base: TypeBase::new() }
}

pub fn integer() -> (r: IntegerBuilder)
    ensures
        base_empty(r.base),
        r.data == no_integer_constraints(),
{
    IntegerBuilder {
        data: IntegerConstraints {
            min: None,
            max: None,
            exclusive_minimum: None,
            exclusive_maximum: None,
            multiple_of: None,
            enumeration: None,
        },
        base: TypeBase::new(),
    }
}

pub fn float() -> (r: FloatBuilder)
    ensures
        base_empty(r.base),
        r.data == no_float_constraints(),
{
    FloatBuilder {
        data: FloatConstraints {
            min: None,
            max: None,
            exclusive_minimum: None,
            exclusive_maximum: None,
            multiple_of: None,
            enumeration: None,
        },
        base: TypeBase::new(),
    }
}

pub fn string() -> (r: StringBuilder)
    ensures
        base_empty(r.base),
        r.data.min is None,
        r.data.max is None,
        r.data.format is None,
        r.data.pattern is None,
        r.data.enumeration is None,
{
    StringBuilder {
        data: StringConstraints {
            min: None,
            max: None,
            format: None,
            pattern: None,
            enumeration: None,
        },
        base: TypeBase::new(),
    }
}

/// A string with the format tag "uuid", marked as an identity.
pub fn uuid() -> (r: StringBuilder)
    ensures
        formatted(r, "uuid"@),
        r.base.name is None,
        r.base.as_id,
        r.base.runtime_config@.len() == 0,
{
    string().id().format("uuid")
}

/// A string with the format tag "email".
pub fn email() -> (r: StringBuilder)
    ensures
        formatted(r, "email"@),
        base_empty(r.base),
{
    string().format("email")
}

/// A string with the format tag "uri".
pub fn uri() -> (r: StringBuilder)
    ensures
        formatted(r, "uri"@),
        base_empty(r.base),
{
    string().format("uri")
}

/// A string with the format tag "ean".
pub fn ean() -> (r: StringBuilder)
    ensures
        formatted(r, "ean"@),
        base_empty(r.base),
{
    string().format("ean")
}

/// A string with the format tag "date".
pub fn date() -> (r: StringBuilder)
    ensures
        formatted(r, "date"@),
        base_empty(r.base),
{
    string().format("date")
}

/// A string with the format tag "datetime".
pub fn datetime() -> (r: StringBuilder)
    ensures
        formatted(r, "datetime"@),
        base_empty(r.base),
{
    string().format("datetime")
}

/// A string with the format tag "json".
pub fn json() -> (r: StringBuilder)
    ensures
        formatted(r, "json"@),
        base_empty(r.base),
{
    string().format("json")
}

impl BooleanBuilder {
    /// Finalizes: one allocation carrying the constraints and the base metadata.
    pub fn build(self, session: &mut Session) -> (r: Result<TypeDef, Error>)
        ensures
            allocated(old(session)@, final(session)@, handle_ids(r), Node::Boolean(self.base)),
    {
        to_handle(session.allocate(Node::Boolean(self.base)))
    }
}

impl IntegerBuilder {
    /// Finalizes: one allocation carrying the constraints and the base metadata.
    pub fn build(self, session: &mut Session) -> (r: Result<TypeDef, Error>)
        ensures
            allocated(old(session)@, final(session)@, handle_ids(r), Node::Integer(self.data, self.base)),
    {
        to_handle(session.allocate(Node::Integer(self.data, self.base)))
    }
}

impl FloatBuilder {
    /// Finalizes: one allocation carrying the constraints and the base metadata.
    pub fn build(self, session: &mut Session) -> (r: Result<TypeDef, Error>)
        ensures
            allocated(old(session)@, final(session)@, handle_ids(r), Node::Float(self.data, self.base)),
    {
        to_handle(session.allocate(Node::Float(self.data, self.base)))
    }
}

impl StringBuilder {
    /// Finalizes: one allocation carrying the constraints and the base metadata.
    pub fn build(self, session: &mut Session) -> (r: Result<TypeDef, Error>)
        ensures
            allocated(old(session)@, final(session)@, handle_ids(r), Node::Text(self.data, self.base)),
    {
        to_handle(session.allocate(Node::Text(self.data, self.base)))
    }
}

} // verus!
