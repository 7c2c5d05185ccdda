//! Per-engine behaviour: positional placeholder syntax and the encoding
//! of typed values to and from the engine's wire representation.

use vstd::prelude::*;
use crate::error::Error;
use crate::value::JsonValue;
use crate::value::Value;
use crate::value::ValueKind;

verus! {

/// One of the supported database engines.
#[derive(Debug, PartialEq, Eq, Structural, Clone, Copy)]
pub enum BackendKind {
    Sqlite,
    Postgres,
}

/// The character standing for a decimal digit.
pub open spec fn decimal_digit(d: nat) -> char
    recommends
        d < 10,
{
    if d == 0 {
        '0'
    } else if d == 1 {
        '1'
    } else if d == 2 {
        '2'
    } else if d == 3 {
        '3'
    } else if d == 4 {
        '4'
    } else if d == 5 {
        '5'
    } else if d == 6 {
        '6'
    } else if d == 7 {
        '7'
    } else if d == 8 {
        '8'
    } else {
        '9'
    }
}

/// The decimal rendering of `n`, most significant digit first, with no
/// leading zeros (the single digit `0` for zero).
pub open spec fn decimal_string(n: nat) -> Seq<char>
    decreases n,
{
    if n < 10 {
        seq![decimal_digit(n)]
    } else {
        decimal_string(n / 10).push(decimal_digit(n % 10))
    }
}

fn digit_str(d: u64) -> (s: &'static str)
    requires
        d < 10,
    ensures
        s@ =~= seq![decimal_digit(d as nat)],
{
    proof {
        reveal_strlit("0");
        reveal_strlit("1");
        reveal_strlit("2");
        reveal_strlit("3");
        reveal_strlit("4");
        reveal_strlit("5");
        reveal_strlit("6");
        reveal_strlit("7");
        reveal_strlit("8");
        reveal_strlit("9");
    }
    if d == 0 {
        "0"
    } else if d == 1 {
        "1"
    } else if d == 2 {
        "2"
    } else if d == 3 {
        "3"
    } else if d == 4 {
        "4"
    } else if d == 5 {
        "5"
    } else if d == 6 {
        "6"
    } else if d == 7 {
        "7"
    } else if d == 8 {
        "8"
    } else {
        "9"
    }
}

/// Renders `n` in decimal.
fn u64_to_decimal(n: u64) -> (s: String)
    ensures
        s@ == decimal_string(n as nat),
    decreases n,
{
    if n < 10 {
        let s = String::from_str(digit_str(n));
        proof {
            assert(s@ =~= decimal_string(n as nat));
        }
        s
    } else {
        let prefix = u64_to_decimal(n / 10);
        let s = prefix.concat(digit_str(n % 10));
        proof {
            assert(s@ =~= decimal_string(n as nat));
        }
        s
    }
}

impl BackendKind {
    /// The placeholder text this engine expects for the parameter at
    /// 1-based position `index`: `?` for SQLite, `$index` for Postgres.
    pub open spec fn placeholder_spec(self, index: nat) -> Seq<char> {
        match self {
            BackendKind::Sqlite => seq!['?'],
            BackendKind::Postgres => seq!['$'] + decimal_string(index),
        }
    }

    /// Produces the positional placeholder for 1-based position `index`.
    pub fn placeholder(&self, index: u64) -> (s: String)
        requires
            index >= 1,
        ensures
            s@ == self.placeholder_spec(index as nat),
    {
        match self {
            BackendKind::Sqlite => {
                proof {
                    reveal_strlit("?");
                }
                let s = String::from_str("?");
                proof {
                    assert(s@ =~= self.placeholder_spec(index as nat));
                }
                s
            },
            BackendKind::Postgres => {
                proof {
                    reveal_strlit("$");
                }
                let s = String::from_str("$").concat(u64_to_decimal(index).as_str());
                proof {
                    assert(s@ =~= self.placeholder_spec(index as nat));
                }
                s
            },
        }
    }
}

/// A value as one engine stores or transmits it. SQLite has no boolean
/// column type: booleans travel as the integers 0 and 1. JSON documents
/// are carried structurally; their serialization is the driver's work.
#[derive(Debug, PartialEq)]
pub enum WireValue {
    Null,
    Int(i64),
    Text(String),
    Bool(bool),
    Json(JsonValue),
}

/// Whether values of kind `k` may cross the boundary of engine `b`:
/// JSON documents are in scope for Postgres only.
pub open spec fn supports_kind(b: BackendKind, k: ValueKind) -> bool {
    !(b == BackendKind::Sqlite && k == ValueKind::Json)
}

/// What encoding a parameter of value `v` for engine `b` yields.
pub open spec fn encode_spec(b: BackendKind, v: Value) -> Result<WireValue, Error> {
    match v {
        Value::Null => Ok(WireValue::Null),
        Value::Integer(i) => Ok(WireValue::Int(i)),
        Value::Text(s) => Ok(WireValue::Text(s)),
        Value::Boolean(bo) => match b {
            BackendKind::Sqlite => Ok(WireValue::Int(if bo { 1 } else { 0 })),
            BackendKind::Postgres => Ok(WireValue::Bool(bo)),
        },
        Value::Json(j) => match b {
            BackendKind::Sqlite => Err(Error::TypeMismatch),
            BackendKind::Postgres => Ok(WireValue::Json(j)),
        },
    }
}

/// What decoding wire value `w` from engine `b` at requested kind `want`
/// yields. SQLite coerces stored integers to booleans (zero is false,
/// anything else true); no other coercion exists.
pub open spec fn decode_spec(b: BackendKind, w: WireValue, want: ValueKind) -> Result<
    Value,
    Error,
> {
    match want {
        ValueKind::Null => match w {
            WireValue::Null => Ok(Value::Null),
            _ => Err(Error::TypeMismatch),
        },
        ValueKind::Integer => match w {
            WireValue::Int(i) => Ok(Value::Integer(i)),
            _ => Err(Error::TypeMismatch),
        },
        ValueKind::Text => match w {
            WireValue::Text(s) => Ok(Value::Text(s)),
            _ => Err(Error::TypeMismatch),
        },
        ValueKind::Boolean => match w {
            WireValue::Bool(bo) => Ok(Value::Boolean(bo)),
            WireValue::Int(i) => match b {
                BackendKind::Sqlite => Ok(Value::Boolean(i != 0)),
                BackendKind::Postgres => Err(Error::TypeMismatch),
            },
            _ => Err(Error::TypeMismatch),
        },
        ValueKind::Json => match w {
            WireValue::Json(j) => Ok(Value::Json(j)),
            _ => Err(Error::TypeMismatch),
        },
    }
}

/// Encodes parameter value `v` for engine `b`. Succeeds exactly when the
/// engine supports the value's kind; the only failure is `TypeMismatch`.
pub fn encode(b: BackendKind, v: Value) -> (r: Result<WireValue, Error>)
    ensures
        r == encode_spec(b, v),
        r is Ok <==> supports_kind(b, v.kind_spec()),
{
    match v {
        Value::Null => Ok(WireValue::Null),
        Value::Integer(i) => Ok(WireValue::Int(i)),
        Value::Text(s) => Ok(WireValue::Text(s)),
        Value::Boolean(bo) => match b {
            BackendKind::Sqlite => Ok(WireValue::Int(if bo { 1 } else { 0 })),
            BackendKind::Postgres => Ok(WireValue::Bool(bo)),
        },
        Value::Json(j) => match b {
            BackendKind::Sqlite => Err(Error::TypeMismatch),
            BackendKind::Postgres => Ok(WireValue::Json(j)),
        },
    }
}

/// Decodes stored wire value `w` of engine `b` at requested kind `want`.
/// Fails with `TypeMismatch` exactly when the stored value cannot convert
/// to the requested kind.
pub fn decode(b: BackendKind, w: WireValue, want: ValueKind) -> (r: Result<Value, Error>)
    ensures
        r == decode_spec(b, w, want),
{
    match want {
        ValueKind::Null => match w {
            WireValue::Null => Ok(Value::Null),
            _ => Err(Error::TypeMismatch),
        },
        ValueKind::Integer => match w {
            WireValue::Int(i) => Ok(Value::Integer(i)),
            _ => Err(Error::TypeMismatch),
        },
        ValueKind::Text => match w {
            WireValue::Text(s) => Ok(Value::Text(s)),
            _ => Err(Error::TypeMismatch),
        },
        ValueKind::Boolean => match w {
            WireValue::Bool(bo) => Ok(Value::Boolean(bo)),
            WireValue::Int(i) => match b {
                BackendKind::Sqlite => Ok(Value::Boolean(i != 0)),
                BackendKind::Postgres => Err(Error::TypeMismatch),
            },
            _ => Err(Error::TypeMismatch),
        },
        ValueKind::Json => match w {
            WireValue::Json(j) => Ok(Value::Json(j)),
            _ => Err(Error::TypeMismatch),
        },
    }
}

/// Round trip: encoding a supported value for an engine and decoding the
/// wire value back at the value's own kind yields the value unchanged.
pub proof fn lemma_encode_decode_roundtrip(b: BackendKind, v: Value)
    requires
        encode_spec(b, v) is Ok,
    ensures
        decode_spec(b, encode_spec(b, v)->Ok_0, v.kind_spec()) == Ok::<Value, Error>(v),
{
}

} // verus!
