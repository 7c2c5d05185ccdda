//! One fetched record: column names paired with the engine's stored
//! values, with typed, name- or index-addressed access.

use vstd::prelude::*;
use crate::backend::BackendKind;
use crate::backend::WireValue;
use crate::backend::decode_spec;
use crate::error::Error;
use crate::value::JsonValue;
use crate::value::Value;
use crate::value::ValueKind;

verus! {

/// Compares two string slices character by character.
pub fn str_equal(a: &str, b: &str) -> (r: bool)
    ensures
        r == (a@ == b@),
{
    let alen = a.unicode_len();
    let blen = b.unicode_len();
    if alen != blen {
        return false;
    }
    let mut i: usize = 0;
    while i < alen
        invariant
            i <= alen,
            alen == a@.len(),
            alen == b@.len(),
            forall|k: int| 0 <= k < i ==> a@[k] == b@[k],
        decreases alen - i,
    {
        if a.get_char(i) != b.get_char(i) {
            return false;
        }
        i = i + 1;
    }
    proof {
        assert(a@ =~= b@);
    }
    true
}

/// One record of a result set. A row remembers which engine produced it,
/// so that typed access applies that engine's decoding rules.
#[derive(Debug, PartialEq)]
pub struct Row {
    backend: BackendKind,
    names: Vec<String>,
    wires: Vec<WireValue>,
}

impl Row {
    /// The engine this row came from.
    pub closed spec fn backend_spec(&self) -> BackendKind {
        self.backend
    }

    /// How many columns the row has.
    pub closed spec fn len_spec(&self) -> nat {
        self.wires@.len()
    }

    /// The name of column `i`.
    pub closed spec fn name_at(&self, i: int) -> Seq<char> {
        self.names@[i]@
    }

    /// The stored value of column `i`.
    pub closed spec fn wire_at(&self, i: int) -> WireValue {
        self.wires@[i]
    }

    /// A row always pairs each stored value with a column name.
    pub closed spec fn wf(&self) -> bool {
        self.names@.len() == self.wires@.len()
    }

    /// Builds a row of engine `backend` from column names and stored
    /// values. Yields a row exactly when the two lists have the same
    /// length.
    pub fn new(backend: BackendKind, names: Vec<String>, wires: Vec<WireValue>) -> (r: Option<
        Row,
    >)
        ensures
            r is Some <==> names@.len() == wires@.len(),
            r is Some ==> {
                let row = r->0;
                &&& row.wf()
                &&& row.backend_spec() == backend
                &&& row.len_spec() == wires@.len()
                &&& forall|i: int| 0 <= i < wires@.len() ==> row.wire_at(i) == wires@[i]
                &&& forall|i: int| 0 <= i < names@.len() ==> row.name_at(i) == names@[i]@
            },
    {
        if names.len() == wires.len() {
            Some(Row { backend, names, wires })
        } else {
            None
        }
    }

    /// Reports how many columns the row has.
    pub fn len(&self) -> (n: usize)
        ensures
            n == self.len_spec(),
    {
        self.wires.len()
    }

    /// Reports which engine this row came from.
    pub fn backend(&self) -> (b: BackendKind)
        ensures
            b == self.backend_spec(),
    {
        self.backend
    }

    /// The position of the first column named `name`, if any: every
    /// earlier column has a different name, and a `None` means no column
    /// has that name at all.
    pub fn column_index(&self, name: &str) -> (r: Option<usize>)
        requires
            self.wf(),
        ensures
            match r {
                Some(j) => {
                    &&& j < self.len_spec()
                    &&& self.name_at(j as int) == name@
                    &&& forall|k: int| 0 <= k < j ==> self.name_at(k) != name@
                },
                None => forall|k: int| 0 <= k < self.len_spec() ==> self.name_at(k) != name@,
            },
    {
        let n = self.names.len();
        let mut i: usize = 0;
        while i < n
            invariant
                i <= n,
                self.wf(),
                n == self.names@.len(),
                forall|k: int| 0 <= k < i ==> self.name_at(k) != name@,
            decreases n - i,
        {
            if str_equal(self.names[i].as_str(), name) {
                return Some(i);
            }
            i = i + 1;
        }
        None
    }

    /// The stored value of column `i`.
    pub fn wire(&self, i: usize) -> (w: &WireValue)
        requires
            i < self.len_spec(),
        ensures
            *w == self.wire_at(i as int),
    {
        &self.wires[i]
    }

    /// Decodes column `i` as an integer; `TypeMismatch` exactly when the
    /// stored value cannot convert.
    pub fn get_integer(&self, i: usize) -> (r: Result<i64, Error>)
        requires
            i < self.len_spec(),
        ensures
            match decode_spec(self.backend_spec(), self.wire_at(i as int), ValueKind::Integer) {
                Ok(v) => r is Ok && v == Value::Integer(r->Ok_0),
                Err(e) => r == Err::<i64, Error>(e),
            },
    {
        match &self.wires[i] {
            WireValue::Int(v) => Ok(*v),
            _ => Err(Error::TypeMismatch),
        }
    }

    /// Decodes column `i` as text; `TypeMismatch` exactly when the
    /// stored value cannot convert.
    pub fn get_text(&self, i: usize) -> (r: Result<&str, Error>)
        requires
            i < self.len_spec(),
        ensures
            match decode_spec(self.backend_spec(), self.wire_at(i as int), ValueKind::Text) {
                Ok(v) => r is Ok && v is Text && v->Text_0@ == r->Ok_0@,
                Err(e) => r == Err::<&str, Error>(e),
            },
    {
        match &self.wires[i] {
            WireValue::Text(s) => Ok(s.as_str()),
            _ => Err(Error::TypeMismatch),
        }
    }

    /// Decodes column `i` as a boolean, applying the engine's coercion
    /// rules; `TypeMismatch` exactly when the stored value cannot
    /// convert.
    pub fn get_boolean(&self, i: usize) -> (r: Result<bool, Error>)
        requires
            i < self.len_spec(),
        ensures
            match decode_spec(self.backend_spec(), self.wire_at(i as int), ValueKind::Boolean) {
                Ok(v) => r is Ok && v == Value::Boolean(r->Ok_0),
                Err(e) => r == Err::<bool, Error>(e),
            },
    {
        match &self.wires[i] {
            WireValue::Bool(b) => Ok(*b),
            WireValue::Int(v) => match self.backend {
                BackendKind::Sqlite => Ok(*v != 0),
                BackendKind::Postgres => Err(Error::TypeMismatch),
            },
            _ => Err(Error::TypeMismatch),
        }
    }

    /// Decodes column `i` as a JSON document; `TypeMismatch` exactly
    /// when the stored value cannot convert.
    pub fn get_json(&self, i: usize) -> (r: Result<&JsonValue, Error>)
        requires
            i < self.len_spec(),
        ensures
            match decode_spec(self.backend_spec(), self.wire_at(i as int), ValueKind::Json) {
                Ok(v) => r is Ok && v == Value::Json(*r->Ok_0),
                Err(e) => r is Err && r->Err_0 == e,
            },
    {
        match &self.wires[i] {
            WireValue::Json(j) => Ok(j),
            _ => Err(Error::TypeMismatch),
        }
    }

    /// Reports whether column `i` holds the SQL null.
    pub fn is_null(&self, i: usize) -> (r: bool)
        requires
            i < self.len_spec(),
        ensures
            r == (self.wire_at(i as int) is Null),
    {
        match &self.wires[i] {
            WireValue::Null => true,
            _ => false,
        }
    }
}

} // verus!
