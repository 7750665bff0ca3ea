//! An in-process model of the counting behavior the OS semaphore service
//! provides: what signal, wait and try-wait mean over a bounded
//! non-negative counter.
//!
//! The containers in this crate delegate the real counting to the host;
//! this model pins down what that counting does, carries the laws that
//! relate signals to waits, and backs tests of the whole layer without a
//! host.

use crate::os::{classify_spec, ErrKind, OsError, EAGAIN_CODE, EOVERFLOW_CODE};
use vstd::prelude::*;

verus! {

/// What a wait does in a single-threaded setting.
#[derive(Clone, Copy, Debug, PartialEq, Eq, Structural)]
pub enum WaitOutcome {
    /// The count was positive: one unit was consumed at once.
    Completed,
    /// The count was zero: a real host would block the calling thread until
    /// a signal arrives; the single-threaded model reports that instead.
    Blocked,
}

/// One signal step: the count goes up by one, unless the ceiling — the
/// largest count the service can represent — is reached.
pub open spec fn post_tr(count: u32, ceiling: u32) -> (u32, bool) {
    if count < ceiling {
        ((count + 1) as u32, true)
    } else {
        (count, false)
    }
}

/// One wait step: one unit is consumed exactly when the count is positive.
pub open spec fn wait_tr(count: u32) -> (u32, bool) {
    if count > 0 {
        ((count - 1) as u32, true)
    } else {
        (count, false)
    }
}

/// A successful signal leaves the count positive, so a wait that follows
/// it on the same object, with no other thread in between, completes at
/// once: it does not block.
pub proof fn lemma_signal_then_wait(count: u32, ceiling: u32)
    requires
        post_tr(count, ceiling).1,
    ensures
        wait_tr(post_tr(count, ceiling).0).1,
{
}

/// A try-wait on a zero count consumes nothing and does not block: the
/// refusal is reported at once, classified would-block.
pub proof fn lemma_try_wait_zero_reports_would_block()
    ensures
        wait_tr(0).0 == 0 && !wait_tr(0).1,
        classify_spec(EAGAIN_CODE) == ErrKind::WouldBlock,
{
}

/// The model counter: a count and the ceiling it can never exceed.
#[derive(Debug)]
pub struct Counter {
    count: u32,
    ceiling: u32,
}

impl Counter {
    /// The current count.
    pub closed spec fn count(&self) -> u32 {
        self.count
    }

    /// The largest count this counter can represent.
    pub closed spec fn ceiling(&self) -> u32 {
        self.ceiling
    }

    /// A counter starting at `start`, never to exceed `ceiling`.
    pub fn new(start: u32, ceiling: u32) -> (r: Self)
        requires
            start <= ceiling,
        ensures
            r.count() == start,
            r.ceiling() == ceiling,
    {
        Counter { count: start, ceiling }
    }

    /// Signal: increment the count, failing with the overflow code if the
    /// ceiling would be exceeded.
    pub fn post(&mut self) -> (r: Result<(), OsError>)
        ensures
            final(self).ceiling() == old(self).ceiling(),
            (final(self).count(), r is Ok) == post_tr(old(self).count(), old(self).ceiling()),
            r matches Err(e) ==> e.code == EOVERFLOW_CODE,
    {
        if self.count < self.ceiling {
            self.count = self.count + 1;
            Ok(())
        } else {
            Err(OsError { code: EOVERFLOW_CODE })
        }
    }

    /// Wait: consume one unit if the count is positive; report where a real
    /// host would block otherwise.
    pub fn wait(&mut self) -> (r: WaitOutcome)
        ensures
            final(self).ceiling() == old(self).ceiling(),
            (final(self).count(), r is Completed) == wait_tr(old(self).count()),
    {
        if self.count > 0 {
            self.count = self.count - 1;
            WaitOutcome::Completed
        } else {
            WaitOutcome::Blocked
        }
    }

    /// Try-wait: consume one unit if the count is positive; refuse with the
    /// would-block code otherwise, never blocking.
    pub fn try_wait(&mut self) -> (r: Result<(), OsError>)
        ensures
            final(self).ceiling() == old(self).ceiling(),
            (final(self).count(), r is Ok) == wait_tr(old(self).count()),
            r matches Err(e) ==> e.code == EAGAIN_CODE,
    {
        if self.count > 0 {
            self.count = self.count - 1;
            Ok(())
        } else {
            Err(OsError { code: EAGAIN_CODE })
        }
    }

    /// The current count, as the inspection operation reports it.
    pub fn value(&self) -> (r: u32)
        ensures
            r == self.count(),
    {
        self.count
    }
}

} // verus!
