//! Parameterized statements: SQL text paired with an ordered list of
//! bound values, and the placeholder count that validation checks the
//! list against.

use vstd::prelude::*;
use crate::backend::BackendKind;
use crate::error::Error;
use crate::value::Value;

verus! {

/// Where a scan of SQL text currently stands with respect to quoting:
/// outside any quotes, inside a `'...'` string literal, or inside a
/// `"..."` quoted identifier. Placeholders are only recognized outside.
#[derive(Debug, PartialEq, Eq, Structural, Clone, Copy)]
pub enum QuoteState {
    Outside,
    InString,
    InIdent,
}

/// Whether `c` is a decimal digit.
pub open spec fn is_digit_spec(c: char) -> bool {
    '0' <= c && c <= '9'
}

fn is_digit(c: char) -> (r: bool)
    ensures
        r == is_digit_spec(c),
{
    '0' <= c && c <= '9'
}

/// Whether a placeholder token of `style` starts at the front of `s`:
/// a `?` for the SQLite style, a `$` followed by a digit for the
/// Postgres style.
pub open spec fn marker_starts(style: BackendKind, s: Seq<char>) -> bool {
    match style {
        BackendKind::Sqlite => s.len() > 0 && s[0] == '?',
        BackendKind::Postgres => s.len() > 1 && s[0] == '$' && is_digit_spec(s[1]),
    }
}

/// The number of placeholder tokens of `style` in `s`, scanning from
/// quote state `q`. A quote character toggles in or out of its quoted
/// region; the doubled `''` escape inside a string literal reads as
/// leaving and immediately re-entering it, which skips the same
/// characters either way.
pub open spec fn placeholders_from(style: BackendKind, s: Seq<char>, q: QuoteState) -> nat
    decreases s.len(),
{
    if s.len() == 0 {
        0
    } else {
        let rest = s.drop_first();
        match q {
            QuoteState::Outside => if s[0] == '\'' {
                placeholders_from(style, rest, QuoteState::InString)
            } else if s[0] == '"' {
                placeholders_from(style, rest, QuoteState::InIdent)
            } else if marker_starts(style, s) {
                1 + placeholders_from(style, rest, QuoteState::Outside)
            } else {
                placeholders_from(style, rest, QuoteState::Outside)
            },
            QuoteState::InString => if s[0] == '\'' {
                placeholders_from(style, rest, QuoteState::Outside)
            } else {
                placeholders_from(style, rest, QuoteState::InString)
            },
            QuoteState::InIdent => if s[0] == '"' {
                placeholders_from(style, rest, QuoteState::Outside)
            } else {
                placeholders_from(style, rest, QuoteState::InIdent)
            },
        }
    }
}

/// The number of placeholder tokens of `style` in the statement text
/// `s`, ignoring quoted string literals and quoted identifiers.
pub open spec fn placeholder_count(style: BackendKind, s: Seq<char>) -> nat {
    placeholders_from(style, s, QuoteState::Outside)
}

/// Counts the placeholder tokens of `style` in `sql`, ignoring quoted
/// string literals and quoted identifiers.
pub fn count_placeholders(style: BackendKind, sql: &str) -> (n: usize)
    ensures
        n == placeholder_count(style, sql@),
{
    let len = sql.unicode_len();
    proof {
        assert(sql@.skip(0) =~= sql@);
    }
    let mut i: usize = 0;
    let mut count: usize = 0;
    let mut q = QuoteState::Outside;
    while i < len
        invariant
            i <= len,
            count <= i,
            len == sql@.len(),
            count + placeholders_from(style, sql@.skip(i as int), q) == placeholder_count(
                style,
                sql@,
            ),
        decreases len - i,
    {
        let c = sql.get_char(i);
        proof {
            assert(sql@.skip(i as int).len() > 0);
            assert(sql@.skip(i as int)[0] == sql@[i as int]);
            assert(sql@.skip(i as int).drop_first() =~= sql@.skip(i as int + 1));
            if i + 1 < len {
                assert(sql@.skip(i as int)[1] == sql@[i as int + 1]);
            }
        }
        match q {
            QuoteState::Outside => {
                if c == '\'' {
                    q = QuoteState::InString;
                } else if c == '"' {
                    q = QuoteState::InIdent;
                } else {
                    let marker = match style {
                        BackendKind::Sqlite => c == '?',
                        BackendKind::Postgres => c == '$' && i + 1 < len && is_digit(
                            sql.get_char(i + 1),
                        ),
                    };
                    if marker {
                        count = count + 1;
                    }
                }
            },
            QuoteState::InString => {
                if c == '\'' {
                    q = QuoteState::Outside;
                }
            },
            QuoteState::InIdent => {
                if c == '"' {
                    q = QuoteState::Outside;
                }
            },
        }
        i = i + 1;
    }
    proof {
        assert(sql@.skip(len as int) =~= Seq::<char>::empty());
    }
    count
}

/// What validating statement text `s` with `nparams` bound values
/// against the placeholder style of engine `b` yields: text holding any
/// token of the other engine's style is malformed; otherwise the bound
/// values must match the placeholders one for one.
pub open spec fn validate_spec(b: BackendKind, s: Seq<char>, nparams: nat) -> Result<(), Error> {
    let foreign_style = match b {
        BackendKind::Sqlite => BackendKind::Postgres,
        BackendKind::Postgres => BackendKind::Sqlite,
    };
    if placeholder_count(foreign_style, s) > 0 {
        Err(Error::MalformedStatement)
    } else if placeholder_count(b, s) != nparams {
        Err(Error::ParameterCountMismatch)
    } else {
        Ok(())
    }
}

/// A SQL template together with its ordered list of bound parameter
/// values. Binding is positional: the first bound value belongs to the
/// first placeholder, and so on.
#[derive(Debug)]
pub struct Statement {
    sql: String,
    params: Vec<Value>,
}

impl Statement {
    /// The statement text.
    pub closed spec fn sql_spec(&self) -> Seq<char> {
        self.sql@
    }

    /// The bound parameter values, in binding order.
    pub closed spec fn params_spec(&self) -> Seq<Value> {
        self.params@
    }

    /// A fresh statement over `sql` with no values bound yet.
    pub fn new(sql: String) -> (s: Statement)
        ensures
            s.sql_spec() == sql@,
            s.params_spec() =~= Seq::<Value>::empty(),
    {
        Statement { sql, params: Vec::new() }
    }

    /// Binds the next positional parameter. Consumes the statement and
    /// yields an independent one whose value list grew by `v`; nothing
    /// previously bound moves or changes.
    pub fn bind(self, v: Value) -> (s: Statement)
        ensures
            s.sql_spec() == self.sql_spec(),
            s.params_spec() =~= self.params_spec().push(v),
    {
        let mut params = self.params;
        params.push(v);
        Statement { sql: self.sql, params }
    }

    /// The statement text.
    pub fn sql(&self) -> (s: &str)
        ensures
            s@ == self.sql_spec(),
    {
        self.sql.as_str()
    }

    /// The bound values, in binding order.
    pub fn params(&self) -> (p: &Vec<Value>)
        ensures
            p@ == self.params_spec(),
    {
        &self.params
    }

    /// How many values are bound.
    pub fn param_count(&self) -> (n: usize)
        ensures
            n == self.params_spec().len(),
    {
        self.params.len()
    }

    /// Checks this statement against engine `b`: fails with
    /// `MalformedStatement` when the text holds a placeholder of the
    /// other engine's style, and with `ParameterCountMismatch` when the
    /// number of bound values differs from the number of placeholders.
    pub fn validate(&self, b: BackendKind) -> (r: Result<(), Error>)
        ensures
            r == validate_spec(b, self.sql_spec(), self.params_spec().len() as nat),
    {
        let foreign_style = match b {
            BackendKind::Sqlite => BackendKind::Postgres,
            BackendKind::Postgres => BackendKind::Sqlite,
        };
        if count_placeholders(foreign_style, self.sql.as_str()) > 0 {
            Err(Error::MalformedStatement)
        } else if count_placeholders(b, self.sql.as_str()) != self.params.len() {
            Err(Error::ParameterCountMismatch)
        } else {
            Ok(())
        }
    }
}

} // verus!
