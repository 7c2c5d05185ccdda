//! The result cursor: a lazily-advancing sequence of rows produced by
//! one statement execution, and the fetch policies layered over it.

use vstd::prelude::*;
use crate::error::Error;
use crate::row::Row;

verus! {

/// Where a cursor stands: still delivering rows, finished cleanly, or
/// stopped by a failure. The two terminal states are absorbing.
#[derive(Debug, PartialEq, Eq, Structural, Clone, Copy)]
pub enum CursorState {
    Open,
    Exhausted,
    Errored,
}

/// What one advance of a cursor reports.
#[derive(Debug, PartialEq)]
pub enum StepOutcome {
    /// The next row, handed over to the caller.
    Row(Row),
    /// No more rows; the cursor is exhausted.
    End,
    /// The backend reported a failure; the cursor is errored.
    Failed(Error),
}

/// What the backend reported at one advance of a live result stream.
#[derive(Debug, PartialEq, Eq, Structural, Clone, Copy)]
pub enum CursorEvent {
    RowAvailable,
    NoMoreRows,
    Failure,
}

/// The cursor state machine: a row keeps the cursor open, the end of the
/// rows exhausts it, a failure errors it, and the terminal states absorb
/// every further event.
pub open spec fn cursor_step_spec(s: CursorState, e: CursorEvent) -> CursorState {
    match s {
        CursorState::Open => match e {
            CursorEvent::RowAvailable => CursorState::Open,
            CursorEvent::NoMoreRows => CursorState::Exhausted,
            CursorEvent::Failure => CursorState::Errored,
        },
        _ => s,
    }
}

/// Advances the cursor state machine by one backend event.
pub fn cursor_step(s: CursorState, e: CursorEvent) -> (t: CursorState)
    ensures
        t == cursor_step_spec(s, e),
{
    match s {
        CursorState::Open => match e {
            CursorEvent::RowAvailable => CursorState::Open,
            CursorEvent::NoMoreRows => CursorState::Exhausted,
            CursorEvent::Failure => CursorState::Errored,
        },
        _ => s,
    }
}

/// A result cursor over the rows one statement execution yields, in
/// order, followed either by a clean end or by a backend failure.
/// Once exhausted or errored it repeats that terminal outcome; it never
/// re-queries.
#[derive(Debug)]
pub struct ResultCursor {
    rows: Vec<Row>,
    fail: Option<Error>,
    state: CursorState,
}

impl ResultCursor {
    /// The rows not yet delivered, in delivery order.
    pub closed spec fn rows_left(&self) -> Seq<Row> {
        self.rows@
    }

    /// The failure the backend will report once the rows run out, if
    /// any; an errored cursor keeps it to repeat.
    pub closed spec fn pending_failure(&self) -> Option<Error> {
        self.fail
    }

    /// Where the cursor stands.
    pub closed spec fn state_spec(&self) -> CursorState {
        self.state
    }

    /// A terminal cursor holds no rows, and is errored exactly when a
    /// failure remains to repeat.
    pub closed spec fn wf(&self) -> bool {
        &&& self.state is Exhausted ==> self.rows@.len() == 0 && self.fail is None
        &&& self.state is Errored ==> self.rows@.len() == 0 && self.fail is Some
    }

    /// An open cursor that will deliver `rows` in order and then end
    /// cleanly.
    pub fn from_rows(rows: Vec<Row>) -> (c: ResultCursor)
        ensures
            c.wf(),
            c.state_spec() is Open,
            c.rows_left() == rows@,
            c.pending_failure() is None,
    {
        ResultCursor { rows, fail: None, state: CursorState::Open }
    }

    /// An open cursor that will deliver `rows` in order and then report
    /// the backend failure `e`.
    pub fn with_failure(rows: Vec<Row>, e: Error) -> (c: ResultCursor)
        ensures
            c.wf(),
            c.state_spec() is Open,
            c.rows_left() == rows@,
            c.pending_failure() == Some(e),
    {
        ResultCursor { rows, fail: Some(e), state: CursorState::Open }
    }

    /// Reports where the cursor stands.
    pub fn state(&self) -> (s: CursorState)
        ensures
            s == self.state_spec(),
    {
        self.state
    }

    /// Advances the cursor one step: hands over the next row while one
    /// remains, then either ends cleanly or reports the pending failure.
    /// In a terminal state it repeats the terminal outcome and changes
    /// nothing.
    pub fn next(&mut self) -> (o: StepOutcome)
        requires
            old(self).wf(),
        ensures
            final(self).wf(),
            match old(self).state_spec() {
                CursorState::Open => {
                    if old(self).rows_left().len() > 0 {
                        &&& o is Row && o->Row_0 == old(self).rows_left()[0]
                        &&& final(self).state_spec() is Open
                        &&& final(self).rows_left() == old(self).rows_left().drop_first()
                        &&& final(self).pending_failure() == old(self).pending_failure()
                    } else {
                        match old(self).pending_failure() {
                            None => {
                                &&& o is End
                                &&& final(self).state_spec() is Exhausted
                                &&& final(self).rows_left().len() == 0
                                &&& final(self).pending_failure() is None
                            },
                            Some(e) => {
                                &&& o is Failed && o->Failed_0 == e
                                &&& final(self).state_spec() is Errored
                                &&& final(self).pending_failure() == Some(e)
                            },
                        }
                    }
                },
                CursorState::Exhausted => o is End && *final(self) == *old(self),
                CursorState::Errored => {
                    &&& o is Failed && Some(o->Failed_0) == old(self).pending_failure()
                    &&& *final(self) == *old(self)
                },
            },
    {
        match self.state {
            CursorState::Open => {
                if self.rows.len() > 0 {
                    let row = self.rows.remove(0);
                    StepOutcome::Row(row)
                } else {
                    match &self.fail {
                        None => {
                            self.state = CursorState::Exhausted;
                            StepOutcome::End
                        },
                        Some(e) => {
                            let err = e.clone();
                            self.state = CursorState::Errored;
                            StepOutcome::Failed(err)
                        },
                    }
                }
            },
            CursorState::Exhausted => StepOutcome::End,
            CursorState::Errored => match &self.fail {
                Some(e) => StepOutcome::Failed(e.clone()),
                None => unreached(),
            },
        }
    }

    /// Drains the cursor: every remaining row, realized in delivery
    /// order and independently owned, or the backend failure if one cuts
    /// the stream short. Leaves the cursor in its terminal state.
    pub fn fetch_all(&mut self) -> (r: Result<Vec<Row>, Error>)
        requires
            old(self).wf(),
        ensures
            final(self).wf(),
            match old(self).state_spec() {
                CursorState::Open => match old(self).pending_failure() {
                    None => {
                        &&& r is Ok && r->Ok_0@ == old(self).rows_left()
                        &&& final(self).state_spec() is Exhausted
                    },
                    Some(e) => {
                        &&& r == Err::<Vec<Row>, Error>(e)
                        &&& final(self).state_spec() is Errored
                    },
                },
                CursorState::Exhausted => r is Ok && r->Ok_0@.len() == 0 && *final(self) == *old(
                    self,
                ),
                CursorState::Errored => {
                    &&& r is Err && Some(r->Err_0) == old(self).pending_failure()
                    &&& *final(self) == *old(self)
                },
            },
    {
        let mut out: Vec<Row> = Vec::new();
        loop
            invariant
                self.wf(),
                self.state == old(self).state_spec(),
                self.fail == old(self).pending_failure(),
                old(self).state_spec() is Open ==> out@ + self.rows@ == old(self).rows_left(),
                !(old(self).state_spec() is Open) ==> out@.len() == 0 && *self == *old(self),
            decreases self.rows@.len(),
        {
            match self.next() {
                StepOutcome::Row(row) => {
                    out.push(row);
                    proof {
                        assert(out@ + self.rows@ =~= old(self).rows_left());
                    }
                },
                StepOutcome::End => {
                    proof {
                        if old(self).state_spec() is Open {
                            assert(out@ =~= old(self).rows_left());
                        }
                    }
                    return Ok(out);
                },
                StepOutcome::Failed(e) => {
                    return Err(e);
                },
            }
        }
    }

    /// Fetching everything and consuming the stream by hand agree. From
    /// an open cursor that will deliver `rows` and end cleanly,
    /// `fetch_all` realizes exactly `rows`; and after `i` single
    /// advances the cursor's remaining rows are `rows.skip(i)`, whose
    /// head — what the next advance delivers — is `rows[i]`: the same
    /// row, at the same position, in the same order.
    pub proof fn lemma_fetch_all_matches_manual_consumption(rows: Seq<Row>)
        ensures
            forall|i: int| 0 <= i < rows.len() ==> #[trigger] rows.skip(i)[0] == rows[i],
            forall|i: int|
                0 <= i < rows.len() ==> #[trigger] rows.skip(i).drop_first() == rows.skip(i + 1),
    {
        assert forall|i: int| 0 <= i < rows.len() implies #[trigger] rows.skip(i).drop_first()
            == rows.skip(i + 1) by {
            assert(rows.skip(i).drop_first() =~= rows.skip(i + 1));
        }
    }

    /// Consumes at most one row: the first remaining row when one
    /// exists, otherwise "absent". Rows beyond the first are simply not
    /// consumed; a clean empty result is not a failure.
    pub fn fetch_optional(&mut self) -> (r: Result<Option<Row>, Error>)
        requires
            old(self).wf(),
        ensures
            final(self).wf(),
            match old(self).state_spec() {
                CursorState::Open => {
                    if old(self).rows_left().len() > 0 {
                        &&& r is Ok && r->Ok_0 == Some(old(self).rows_left()[0])
                        &&& final(self).state_spec() is Open
                        &&& final(self).rows_left() == old(self).rows_left().drop_first()
                        &&& final(self).pending_failure() == old(self).pending_failure()
                    } else {
                        match old(self).pending_failure() {
                            None => {
                                &&& r is Ok && r->Ok_0 is None
                                &&& final(self).state_spec() is Exhausted
                            },
                            Some(e) => {
                                &&& r == Err::<Option<Row>, Error>(e)
                                &&& final(self).state_spec() is Errored
                            },
                        }
                    }
                },
                CursorState::Exhausted => r is Ok && r->Ok_0 is None && *final(self) == *old(self),
                CursorState::Errored => {
                    &&& r is Err && Some(r->Err_0) == old(self).pending_failure()
                    &&& *final(self) == *old(self)
                },
            },
    {
        match self.next() {
            StepOutcome::Row(row) => Ok(Some(row)),
            StepOutcome::End => Ok(None),
            StepOutcome::Failed(e) => Err(e),
        }
    }

    /// Consumes exactly one row: the first remaining row when one
    /// exists; fails with `NoRowsReturned` when the cursor ends cleanly
    /// with no row. Does not check whether further rows exist.
    pub fn fetch_one(&mut self) -> (r: Result<Row, Error>)
        requires
            old(self).wf(),
        ensures
            final(self).wf(),
            match old(self).state_spec() {
                CursorState::Open => {
                    if old(self).rows_left().len() > 0 {
                        &&& r is Ok && r->Ok_0 == old(self).rows_left()[0]
                        &&& final(self).state_spec() is Open
                        &&& final(self).rows_left() == old(self).rows_left().drop_first()
                        &&& final(self).pending_failure() == old(self).pending_failure()
                    } else {
                        match old(self).pending_failure() {
                            None => {
                                &&& r == Err::<Row, Error>(Error::NoRowsReturned)
                                &&& final(self).state_spec() is Exhausted
                            },
                            Some(e) => {
                                &&& r == Err::<Row, Error>(e)
                                &&& final(self).state_spec() is Errored
                            },
                        }
                    }
                },
                CursorState::Exhausted => {
                    &&& r == Err::<Row, Error>(Error::NoRowsReturned)
                    &&& *final(self) == *old(self)
                },
                CursorState::Errored => {
                    &&& r is Err && Some(r->Err_0) == old(self).pending_failure()
                    &&& *final(self) == *old(self)
                },
            },
    {
        match self.next() {
            StepOutcome::Row(row) => Ok(row),
            StepOutcome::End => Err(Error::NoRowsReturned),
            StepOutcome::Failed(e) => Err(e),
        }
    }
}

} // verus!
