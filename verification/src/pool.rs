//! The bounded connection pool: a checked-out/returned resource whose
//! open-session count never exceeds the configured maximum.

use vstd::prelude::*;
use crate::error::Error;

verus! {

/// How an acquisition is satisfied: by handing out an idle session, or
/// by opening a new one (the caller performs the actual open).
#[derive(Debug, PartialEq, Eq, Structural, Clone, Copy)]
pub enum AcquireOutcome {
    ReuseIdle,
    OpenNew,
}

/// The bookkeeping of a bounded connection pool. `idle` sessions are
/// open and waiting; `lent` sessions are open and checked out to exactly
/// one borrower each. The pool is the synchronization boundary: callers
/// interleave acquisitions and returns in any order, and each operation
/// preserves the bound.
#[derive(Debug)]
pub struct Pool {
    max: usize,
    idle: usize,
    lent: usize,
    closed: bool,
}

impl Pool {
    /// The configured maximum number of concurrently open sessions.
    pub closed spec fn max_spec(&self) -> nat {
        self.max as nat
    }

    /// How many open sessions are idle in the pool.
    pub closed spec fn idle_spec(&self) -> nat {
        self.idle as nat
    }

    /// How many open sessions are lent out.
    pub closed spec fn lent_spec(&self) -> nat {
        self.lent as nat
    }

    /// Whether the pool has been shut down.
    pub closed spec fn is_closed_spec(&self) -> bool {
        self.closed
    }

    /// How many sessions are concurrently open, idle or lent.
    pub open spec fn open_count(&self) -> nat {
        self.idle_spec() + self.lent_spec()
    }

    /// The pool invariant: open sessions never exceed the maximum.
    pub open spec fn wf(&self) -> bool {
        self.open_count() <= self.max_spec()
    }

    /// A fresh pool bounded by `max`, with no session open yet.
    pub fn new(max: usize) -> (p: Pool)
        requires
            max >= 1,
        ensures
            p.wf(),
            p.max_spec() == max,
            p.idle_spec() == 0,
            p.lent_spec() == 0,
            !p.is_closed_spec(),
    {
        Pool { max, idle: 0, lent: 0, closed: false }
    }

    /// Reports the configured maximum.
    pub fn max_connections(&self) -> (n: usize)
        ensures
            n == self.max_spec(),
    {
        self.max
    }

    /// Reports how many sessions are concurrently open.
    pub fn open_connections(&self) -> (n: usize)
        requires
            self.wf(),
        ensures
            n == self.open_count(),
    {
        self.idle + self.lent
    }

    /// Reports whether the pool has been shut down.
    pub fn is_closed(&self) -> (c: bool)
        ensures
            c == self.is_closed_spec(),
    {
        self.closed
    }

    /// Tries to check one session out. A closed pool refuses with
    /// `PoolClosed`. Otherwise an idle session is reused when one
    /// exists; when none exists and the bound is not yet reached, the
    /// caller is told to open a new session; at the bound, the pool
    /// refuses with `PoolExhausted` (the caller may retry). The open
    /// count never exceeds the maximum.
    pub fn try_acquire(&mut self) -> (r: Result<AcquireOutcome, Error>)
        requires
            old(self).wf(),
        ensures
            final(self).wf(),
            final(self).max_spec() == old(self).max_spec(),
            final(self).is_closed_spec() == old(self).is_closed_spec(),
            if old(self).is_closed_spec() {
                &&& r == Err::<AcquireOutcome, Error>(Error::PoolClosed)
                &&& *final(self) == *old(self)
            } else if old(self).idle_spec() > 0 {
                &&& r == Ok::<AcquireOutcome, Error>(AcquireOutcome::ReuseIdle)
                &&& final(self).idle_spec() == old(self).idle_spec() - 1
                &&& final(self).lent_spec() == old(self).lent_spec() + 1
            } else if old(self).open_count() < old(self).max_spec() {
                &&& r == Ok::<AcquireOutcome, Error>(AcquireOutcome::OpenNew)
                &&& final(self).idle_spec() == 0
                &&& final(self).lent_spec() == old(self).lent_spec() + 1
            } else {
                &&& r == Err::<AcquireOutcome, Error>(Error::PoolExhausted)
                &&& *final(self) == *old(self)
            },
    {
        if self.closed {
            Err(Error::PoolClosed)
        } else if self.idle > 0 {
            self.idle = self.idle - 1;
            self.lent = self.lent + 1;
            Ok(AcquireOutcome::ReuseIdle)
        } else if self.lent < self.max {
            self.lent = self.lent + 1;
            Ok(AcquireOutcome::OpenNew)
        } else {
            Err(Error::PoolExhausted)
        }
    }

    /// Returns one lent session. An open pool keeps it idle for reuse;
    /// a closed pool drops it, so that nothing leaks past shutdown.
    pub fn release(&mut self)
        requires
            old(self).wf(),
            old(self).lent_spec() >= 1,
        ensures
            final(self).wf(),
            final(self).max_spec() == old(self).max_spec(),
            final(self).is_closed_spec() == old(self).is_closed_spec(),
            final(self).lent_spec() == old(self).lent_spec() - 1,
            final(self).idle_spec() == if old(self).is_closed_spec() {
                old(self).idle_spec()
            } else {
                old(self).idle_spec() + 1
            },
    {
        self.lent = self.lent - 1;
        if !self.closed {
            self.idle = self.idle + 1;
        }
    }

    /// Drops one lent session without returning it, after a failure
    /// that makes it unusable (a failed session initialization, for
    /// one). Its slot becomes free for a later acquisition.
    pub fn discard(&mut self)
        requires
            old(self).wf(),
            old(self).lent_spec() >= 1,
        ensures
            final(self).wf(),
            final(self).max_spec() == old(self).max_spec(),
            final(self).is_closed_spec() == old(self).is_closed_spec(),
            final(self).lent_spec() == old(self).lent_spec() - 1,
            final(self).idle_spec() == old(self).idle_spec(),
    {
        self.lent = self.lent - 1;
    }

    /// Shuts the pool down: every idle session is to be closed (the
    /// count of them is returned so the caller can close that many),
    /// and no acquisition succeeds afterward. Sessions still lent out
    /// are dropped as they come back.
    pub fn shutdown(&mut self) -> (n: usize)
        requires
            old(self).wf(),
        ensures
            final(self).wf(),
            final(self).max_spec() == old(self).max_spec(),
            final(self).is_closed_spec(),
            final(self).idle_spec() == 0,
            final(self).lent_spec() == old(self).lent_spec(),
            n == old(self).idle_spec(),
    {
        let n = self.idle;
        self.idle = 0;
        self.closed = true;
        n
    }
}

/// However acquisitions, releases, discards and shutdowns interleave,
/// each operation preserves the pool invariant, so the number of
/// concurrently open sessions never exceeds the configured maximum.
pub proof fn lemma_pool_bounded(p: Pool)
    requires
        p.wf(),
    ensures
        p.open_count() <= p.max_spec(),
{
}

} // verus!
