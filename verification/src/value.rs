//! Dynamically-typed values crossing the boundary of the layer: bound
//! parameters going in, decoded column values coming out.

use vstd::prelude::*;
use crate::error::Error;

verus! {

/// A structured JSON document, modelled as a tree of plain values.
/// Object members keep their order; two documents are equal exactly when
/// their trees are equal member by member.
#[derive(Debug, PartialEq)]
pub enum JsonValue {
    Null,
    Bool(bool),
    Int(i64),
    Str(String),
    Array(Vec<JsonValue>),
    Object(Vec<(String, JsonValue)>),
}

/// A value of one of the supported kinds: null, 64-bit integer, UTF-8
/// text, boolean, or a structured JSON document.
#[derive(Debug, PartialEq)]
pub enum Value {
    Null,
    Integer(i64),
    Text(String),
    Boolean(bool),
    Json(JsonValue),
}

/// The kind of a [`Value`], used to request a type when decoding a column.
#[derive(Debug, PartialEq, Eq, Structural, Clone, Copy)]
pub enum ValueKind {
    Null,
    Integer,
    Text,
    Boolean,
    Json,
}

impl Value {
    /// The kind this value belongs to.
    pub open spec fn kind_spec(&self) -> ValueKind {
        match self {
            Value::Null => ValueKind::Null,
            Value::Integer(_) => ValueKind::Integer,
            Value::Text(_) => ValueKind::Text,
            Value::Boolean(_) => ValueKind::Boolean,
            Value::Json(_) => ValueKind::Json,
        }
    }

    /// Reports the kind this value belongs to.
    #[verifier::when_used_as_spec(kind_spec)]
    pub fn kind(&self) -> (k: ValueKind)
        ensures
            k == self.kind_spec(),
    {
        match self {
            Value::Null => ValueKind::Null,
            Value::Integer(_) => ValueKind::Integer,
            Value::Text(_) => ValueKind::Text,
            Value::Boolean(_) => ValueKind::Boolean,
            Value::Json(_) => ValueKind::Json,
        }
    }

    /// The integer held by this value, or `TypeMismatch` when it holds
    /// something other than an integer.
    pub fn as_integer(&self) -> (r: Result<i64, Error>)
        ensures
            match *self {
                Value::Integer(i) => r == Ok::<i64, Error>(i),
                _ => r == Err::<i64, Error>(Error::TypeMismatch),
            },
    {
        match self {
            Value::Integer(i) => Ok(*i),
            _ => Err(Error::TypeMismatch),
        }
    }

    /// The text held by this value, or `TypeMismatch` when it holds
    /// something other than text.
    pub fn as_text(&self) -> (r: Result<&str, Error>)
        ensures
            match *self {
                Value::Text(ref s) => r is Ok && r->Ok_0@ == s@,
                _ => r == Err::<&str, Error>(Error::TypeMismatch),
            },
    {
        match self {
            Value::Text(s) => Ok(s.as_str()),
            _ => Err(Error::TypeMismatch),
        }
    }

    /// The boolean held by this value, or `TypeMismatch` when it holds
    /// something other than a boolean.
    pub fn as_boolean(&self) -> (r: Result<bool, Error>)
        ensures
            match *self {
                Value::Boolean(b) => r == Ok::<bool, Error>(b),
                _ => r == Err::<bool, Error>(Error::TypeMismatch),
            },
    {
        match self {
            Value::Boolean(b) => Ok(*b),
            _ => Err(Error::TypeMismatch),
        }
    }

    /// The JSON document held by this value, or `TypeMismatch` when it
    /// holds something other than JSON.
    pub fn as_json(&self) -> (r: Result<&JsonValue, Error>)
        ensures
            match *self {
                Value::Json(ref j) => r is Ok && *r->Ok_0 == j,
                _ => r is Err && r->Err_0 == Error::TypeMismatch,
            },
    {
        match self {
            Value::Json(j) => Ok(j),
            _ => Err(Error::TypeMismatch),
        }
    }

    /// Whether this value is null.
    pub open spec fn is_null_spec(&self) -> bool {
        *self is Null
    }

    /// Reports whether this value is null.
    #[verifier::when_used_as_spec(is_null_spec)]
    pub fn is_null(&self) -> (r: bool)
        ensures
            r == (*self is Null),
    {
        match self {
            Value::Null => true,
            _ => false,
        }
    }
}

} // verus!
