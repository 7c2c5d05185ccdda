//! Connection options and the life of a single session: session
//! initialization statements applied in order before first use, then an
//! alternation of statement executions, one at a time.

use vstd::prelude::*;
use crate::backend::BackendKind;
use crate::error::Error;

verus! {

/// Everything needed to open a session: the engine, its target (file
/// path, or host/socket plus database name), the creation policy, the
/// pool bound, and the session-initialization statements. Immutable
/// once built; the builder methods each yield an updated copy.
#[derive(Debug)]
pub struct ConnectOptions {
    backend: BackendKind,
    target: String,
    database: String,
    create_if_missing: bool,
    max_connections: usize,
    pragmas: Vec<String>,
}

impl ConnectOptions {
    /// The engine to connect to.
    pub closed spec fn backend_spec(&self) -> BackendKind {
        self.backend
    }

    /// The file path or host/socket to reach it at.
    pub closed spec fn target_spec(&self) -> Seq<char> {
        self.target@
    }

    /// The database name, where the engine has one.
    pub closed spec fn database_spec(&self) -> Seq<char> {
        self.database@
    }

    /// Whether a missing target is created rather than refused.
    pub closed spec fn create_if_missing_spec(&self) -> bool {
        self.create_if_missing
    }

    /// The bound on concurrently open sessions.
    pub closed spec fn max_connections_spec(&self) -> nat {
        self.max_connections as nat
    }

    /// The session-initialization statements, in issue order.
    pub closed spec fn pragmas_spec(&self) -> Seq<Seq<char>> {
        Seq::new(self.pragmas@.len(), |i: int| self.pragmas@[i]@)
    }

    /// Options for engine `backend` at `target`, with no database name,
    /// no creation of missing targets, a single-session pool, and no
    /// session-initialization statements.
    pub fn new(backend: BackendKind, target: String) -> (o: ConnectOptions)
        ensures
            o.backend_spec() == backend,
            o.target_spec() == target@,
            o.database_spec() == Seq::<char>::empty(),
            !o.create_if_missing_spec(),
            o.max_connections_spec() == 1,
            o.pragmas_spec() =~= Seq::<Seq<char>>::empty(),
    {
        ConnectOptions {
            backend,
            target,
            database: String::new(),
            create_if_missing: false,
            max_connections: 1,
            pragmas: Vec::new(),
        }
    }

    /// Sets the database name.
    pub fn database(self, name: String) -> (o: ConnectOptions)
        ensures
            o.backend_spec() == self.backend_spec(),
            o.target_spec() == self.target_spec(),
            o.database_spec() == name@,
            o.create_if_missing_spec() == self.create_if_missing_spec(),
            o.max_connections_spec() == self.max_connections_spec(),
            o.pragmas_spec() == self.pragmas_spec(),
    {
        ConnectOptions { database: name, ..self }
    }

    /// Sets the creation policy for a missing target.
    pub fn create_if_missing(self, yes: bool) -> (o: ConnectOptions)
        ensures
            o.backend_spec() == self.backend_spec(),
            o.target_spec() == self.target_spec(),
            o.database_spec() == self.database_spec(),
            o.create_if_missing_spec() == yes,
            o.max_connections_spec() == self.max_connections_spec(),
            o.pragmas_spec() == self.pragmas_spec(),
    {
        ConnectOptions { create_if_missing: yes, ..self }
    }

    /// Sets the bound on concurrently open sessions.
    pub fn max_connections(self, n: usize) -> (o: ConnectOptions)
        requires
            n >= 1,
        ensures
            o.backend_spec() == self.backend_spec(),
            o.target_spec() == self.target_spec(),
            o.database_spec() == self.database_spec(),
            o.create_if_missing_spec() == self.create_if_missing_spec(),
            o.max_connections_spec() == n,
            o.pragmas_spec() == self.pragmas_spec(),
    {
        ConnectOptions { max_connections: n, ..self }
    }

    /// Appends one session-initialization statement; they are issued in
    /// the order added.
    pub fn pragma(self, statement: String) -> (o: ConnectOptions)
        ensures
            o.backend_spec() == self.backend_spec(),
            o.target_spec() == self.target_spec(),
            o.database_spec() == self.database_spec(),
            o.create_if_missing_spec() == self.create_if_missing_spec(),
            o.max_connections_spec() == self.max_connections_spec(),
            o.pragmas_spec() =~= self.pragmas_spec().push(statement@),
    {
        let mut pragmas = self.pragmas;
        pragmas.push(statement);
        ConnectOptions { pragmas, ..self }
    }

    /// Reports the engine.
    pub fn backend(&self) -> (b: BackendKind)
        ensures
            b == self.backend_spec(),
    {
        self.backend
    }

    /// The target text.
    pub fn target(&self) -> (t: &str)
        ensures
            t@ == self.target_spec(),
    {
        self.target.as_str()
    }

    /// The database name.
    pub fn database_name(&self) -> (d: &str)
        ensures
            d@ == self.database_spec(),
    {
        self.database.as_str()
    }

    /// Reports the creation policy.
    pub fn creates_if_missing(&self) -> (c: bool)
        ensures
            c == self.create_if_missing_spec(),
    {
        self.create_if_missing
    }

    /// Reports the pool bound.
    pub fn pool_bound(&self) -> (n: usize)
        ensures
            n == self.max_connections_spec(),
    {
        self.max_connections
    }

    /// The session-initialization statements, in issue order.
    pub fn pragma_list(&self) -> (p: &Vec<String>)
        ensures
            p@.len() == self.pragmas_spec().len(),
            forall|i: int| 0 <= i < p@.len() ==> p@[i]@ == self.pragmas_spec()[i],
    {
        &self.pragmas
    }
}

/// Where a session stands in its life.
#[derive(Debug, PartialEq, Eq, Structural, Clone, Copy)]
pub enum SessionPhase {
    /// Session-initialization statements are still being applied.
    Initializing,
    /// Initialization is complete; a statement may be executed.
    Ready,
    /// A statement's cursor is open; no second statement may start.
    Streaming,
    /// Initialization failed; the session must be discarded.
    Failed,
}

/// One live session. It applies its initialization statements in order
/// before the first user statement, then alternates between readiness
/// and a single open cursor: a session never pipelines two statements.
#[derive(Debug)]
pub struct Connection {
    backend: BackendKind,
    pragmas: Vec<String>,
    inited: usize,
    phase: SessionPhase,
}

impl Connection {
    /// The engine this session speaks to.
    pub closed spec fn backend_spec(&self) -> BackendKind {
        self.backend
    }

    /// The initialization statements, in issue order.
    pub closed spec fn pragmas_spec(&self) -> Seq<Seq<char>> {
        Seq::new(self.pragmas@.len(), |i: int| self.pragmas@[i]@)
    }

    /// How many initialization statements have been applied.
    pub closed spec fn inited_spec(&self) -> nat {
        self.inited as nat
    }

    /// Where the session stands.
    pub closed spec fn phase_spec(&self) -> SessionPhase {
        self.phase
    }

    /// While initializing, some statement remains; once ready or
    /// streaming, every initialization statement has been applied.
    pub closed spec fn wf(&self) -> bool {
        &&& self.phase is Initializing ==> self.inited < self.pragmas@.len()
        &&& self.phase is Ready ==> self.inited == self.pragmas@.len()
        &&& self.phase is Streaming ==> self.inited == self.pragmas@.len()
        &&& self.inited <= self.pragmas@.len()
    }

    /// A fresh session for engine `backend` with the given
    /// initialization statements: it starts initializing, or ready at
    /// once when there is nothing to apply.
    pub fn new(backend: BackendKind, pragmas: Vec<String>) -> (c: Connection)
        ensures
            c.wf(),
            c.backend_spec() == backend,
            c.pragmas_spec().len() == pragmas@.len(),
            forall|i: int| 0 <= i < pragmas@.len() ==> c.pragmas_spec()[i] == pragmas@[i]@,
            c.inited_spec() == 0,
            c.phase_spec() == if pragmas@.len() == 0 {
                SessionPhase::Ready
            } else {
                SessionPhase::Initializing
            },
    {
        let phase = if pragmas.len() == 0 {
            SessionPhase::Ready
        } else {
            SessionPhase::Initializing
        };
        Connection { backend, pragmas, inited: 0, phase }
    }

    /// Reports where the session stands.
    pub fn phase(&self) -> (p: SessionPhase)
        ensures
            p == self.phase_spec(),
    {
        self.phase
    }

    /// The next initialization statement to issue, while any remains.
    pub fn next_init_statement(&self) -> (s: Option<&String>)
        requires
            self.wf(),
        ensures
            match s {
                Some(text) => {
                    &&& self.phase_spec() is Initializing
                    &&& text@ == self.pragmas_spec()[self.inited_spec() as int]
                },
                None => !(self.phase_spec() is Initializing),
            },
    {
        match self.phase {
            SessionPhase::Initializing => Some(&self.pragmas[self.inited]),
            _ => None,
        }
    }

    /// Records the outcome of the initialization statement just issued.
    /// On success the session moves to the next statement, or becomes
    /// ready after the last one; on failure it fails with
    /// `SessionInitError` and must be discarded, never returned to the
    /// pool.
    pub fn init_result(&mut self, ok: bool) -> (r: Result<(), Error>)
        requires
            old(self).wf(),
            old(self).phase_spec() is Initializing,
        ensures
            final(self).wf(),
            final(self).backend_spec() == old(self).backend_spec(),
            final(self).pragmas_spec() == old(self).pragmas_spec(),
            if ok {
                &&& r is Ok
                &&& final(self).inited_spec() == old(self).inited_spec() + 1
                &&& final(self).phase_spec() == if old(self).inited_spec() + 1 == old(
                    self,
                ).pragmas_spec().len() {
                    SessionPhase::Ready
                } else {
                    SessionPhase::Initializing
                }
            } else {
                &&& r == Err::<(), Error>(Error::SessionInitError)
                &&& final(self).phase_spec() is Failed
                &&& final(self).inited_spec() == old(self).inited_spec()
            },
    {
        if ok {
            let n = self.pragmas.len();
            self.inited = self.inited + 1;
            if self.inited == n {
                self.phase = SessionPhase::Ready;
            }
            Ok(())
        } else {
            self.phase = SessionPhase::Failed;
            Err(Error::SessionInitError)
        }
    }

    /// Reports whether a user statement may start now.
    pub fn can_execute(&self) -> (r: bool)
        ensures
            r == (self.phase_spec() is Ready),
    {
        match self.phase {
            SessionPhase::Ready => true,
            _ => false,
        }
    }

    /// Starts one statement: the session's cursor is now open, and no
    /// second statement may start until it finishes.
    pub fn begin_statement(&mut self)
        requires
            old(self).wf(),
            old(self).phase_spec() is Ready,
        ensures
            final(self).wf(),
            final(self).backend_spec() == old(self).backend_spec(),
            final(self).pragmas_spec() == old(self).pragmas_spec(),
            final(self).inited_spec() == old(self).inited_spec(),
            final(self).phase_spec() is Streaming,
    {
        self.phase = SessionPhase::Streaming;
    }

    /// Finishes the current statement, whether its cursor was drained
    /// or abandoned: the session is usable again.
    pub fn finish_statement(&mut self)
        requires
            old(self).wf(),
            old(self).phase_spec() is Streaming,
        ensures
            final(self).wf(),
            final(self).backend_spec() == old(self).backend_spec(),
            final(self).pragmas_spec() == old(self).pragmas_spec(),
            final(self).inited_spec() == old(self).inited_spec(),
            final(self).phase_spec() is Ready,
    {
        self.phase = SessionPhase::Ready;
    }
}

/// Initialization statements are issued in order, and all of them
/// before the first user statement: a session on which a statement may
/// start has applied every one of them.
pub proof fn lemma_ready_session_initialized(c: Connection)
    requires
        c.wf(),
        c.phase_spec() is Ready,
    ensures
        c.inited_spec() == c.pragmas_spec().len(),
{
}

} // verus!
