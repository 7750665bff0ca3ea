//! Anonymous "named" semaphores: a container that is used like an embedded
//! one, but whose object is minted by the anonymous allocator of
//! [`crate::named`], for hosts that offer no embedded primitive.
//!
//! Because the underlying semaphore is freshly created under a throwaway,
//! immediately-unlinked name, an instance of this type owns it exclusively;
//! teardown therefore closes it safely.

use crate::named;
use crate::named::{anonymous_fail_ev, anonymous_protocol_ok};
use crate::non_named::init_once::{once_step, OnceState, InitOnce};
use crate::os::{service_wf, OsError, OsRequest, OsResponse};
use crate::refs::{display_ev, plain_display_spec, SemaphoreRef};
use crate::unnamed::spin_hint;
use vstd::prelude::*;
use vstd::string::StringExecFns;

verus! {

/// An anonymous semaphore container.
#[derive(Debug)]
pub struct Semaphore {
    once: InitOnce,
    inner: Option<named::Semaphore>,
    init_error: Option<OsError>,
}

impl Semaphore {
    /// Where the container stands in its lifecycle.
    pub closed spec fn state(&self) -> OnceState {
        self.once@
    }

    /// The service handle of the minted object; meaningful only when
    /// [`Self::state`] is `Ready`.
    pub closed spec fn id(&self) -> u64 {
        match self.inner {
            Some(s) => s.id(),
            None => 0,
        }
    }

    /// The error a failed initialization attempt reported, kept as context.
    pub closed spec fn init_error_spec(&self) -> Option<OsError> {
        self.init_error
    }

    /// The container holds a minted semaphore exactly when it is ready.
    pub closed spec fn wf(&self) -> bool {
        self.once@ is Ready <==> self.inner is Some
    }

    /// Create an uninitialized container.
    ///
    /// The only operations that can be done with a new instance are to
    /// initialize it or tear it down.
    pub fn uninit() -> (r: Self)
        ensures
            r.state() is Uninitialized,
            r.init_error_spec() is None,
            r.wf(),
    {
        Semaphore { once: InitOnce::new(), inner: None, init_error: None }
    }

    /// The single initialization attempt, without handing out a reference:
    /// the step behind [`Self::init_with`] and [`Self::try_init_with`].
    fn init_attempt<F: Fn(OsRequest) -> OsResponse + Copy>(
        &mut self,
        sem_count: u32,
        os: F,
    ) -> (r: Result<(), bool>)
        requires
            service_wf(os),
            old(self).wf(),
        ensures
            final(self).wf(),
            final(self).state() == once_step(old(self).state(), r is Ok),
            r matches Err(true) <==> !(old(self).state() is Uninitialized),
            !(old(self).state() is Uninitialized) ==> *final(self) == *old(self),
            r is Ok ==> anonymous_protocol_ok(os, final(self).id(), sem_count),
            r matches Err(false) ==> final(self).init_error_spec() matches Some(e)
                && anonymous_fail_ev(os, sem_count, e.code),
    {
        let guarded_mint = || -> (res: Result<named::Semaphore, OsError>)
            requires
                service_wf(os),
            ensures
                res matches Ok(sem) ==> anonymous_protocol_ok(os, sem.id(), sem_count),
                res matches Err(e) ==> anonymous_fail_ev(os, sem_count, e.code),
            { named::Semaphore::anonymous_with(sem_count, os) };
        let attempt = self.once.call_once(guarded_mint);
        match attempt {
            Some(Ok(sem)) => {
                self.inner = Some(sem);
                Ok(())
            },
            Some(Err(e)) => {
                self.init_error = Some(e);
                Err(false)
            },
            None => Err(true),
        }
    }

    /// Mint the anonymous semaphore for this container, and return a
    /// reference to it.
    ///
    /// The `is_shared` parameter exists to mirror the embedded container's
    /// initialization; an anonymous semaphore has no name another process
    /// could open, so asking for a shared one is a caller defect and is
    /// ruled out here.
    ///
    /// # Errors
    /// Returns `Err(true)` if the initialization was already successfully
    /// done, or already attempted, by another call.  Returns `Err(false)` if
    /// this call attempted the initialization and the allocator gave up,
    /// with the last failure preserved by [`Self::init_error`].
    pub fn init_with<F: Fn(OsRequest) -> OsResponse + Copy>(
        &mut self,
        is_shared: bool,
        sem_count: u32,
        os: F,
    ) -> (r: Result<SemaphoreRef<'_>, bool>)
        requires
            service_wf(os),
            !is_shared,
            old(self).wf(),
        ensures
            final(self).wf(),
            final(self).state() == once_step(old(self).state(), r is Ok),
            r matches Err(true) <==> !(old(self).state() is Uninitialized),
            !(old(self).state() is Uninitialized) ==> *final(self) == *old(self),
            r matches Ok(sr) ==> sr.id() == final(self).id() && anonymous_protocol_ok(
                os,
                sr.id(),
                sem_count,
            ),
            r matches Err(false) ==> final(self).init_error_spec() matches Some(e)
                && anonymous_fail_ev(os, sem_count, e.code),
    {
        match self.init_attempt(sem_count, os) {
            Ok(()) => match self.sem_ref() {
                Ok(sr) => Ok(sr),
                Err(()) => Err(false),
            },
            Err(raced) => Err(raced),
        }
    }

    /// Like [`Self::init_with`] but with a starting count of zero: the
    /// common case of a semaphore whose first wait blocks until a post.
    pub fn init<F: Fn(OsRequest) -> OsResponse + Copy>(&mut self, os: F) -> (r: Result<
        SemaphoreRef<'_>,
        bool,
    >)
        requires
            service_wf(os),
            old(self).wf(),
        ensures
            final(self).wf(),
            final(self).state() == once_step(old(self).state(), r is Ok),
            r matches Err(true) <==> !(old(self).state() is Uninitialized),
            !(old(self).state() is Uninitialized) ==> *final(self) == *old(self),
            r matches Ok(sr) ==> sr.id() == final(self).id() && anonymous_protocol_ok(
                os,
                sr.id(),
                0u32,
            ),
            r matches Err(false) ==> final(self).init_error_spec() matches Some(e)
                && anonymous_fail_ev(os, 0u32, e.code),
    {
        self.init_with(false, 0, os)
    }

    /// Get a [`SemaphoreRef`] to `self`, so that semaphore operations can be
    /// done on `self`.
    ///
    /// # Errors
    /// If `self` was not previously initialized.
    pub fn sem_ref(&self) -> (r: Result<SemaphoreRef<'_>, ()>)
        requires
            self.wf(),
        ensures
            r is Ok <==> self.state() is Ready,
            r matches Ok(sr) ==> sr.id() == self.id(),
    {
        if self.once.is_ready() {
            match &self.inner {
                Some(s) => Ok(s.sem_ref()),
                None => Err(()),
            }
        } else {
            Err(())
        }
    }

    /// The error a failed initialization attempt reported, kept as context
    /// for the `Err(false)` outcome of [`Self::init_with`].
    pub fn init_error(&self) -> (r: Option<OsError>)
        ensures
            r == self.init_error_spec(),
    {
        self.init_error
    }

    /// Like [`Self::try_init_with`] but with a starting count of zero,
    /// similar to [`Self::init`].
    pub fn try_init<F: Fn(OsRequest) -> OsResponse + Copy>(&mut self, limit: u64, os: F) -> (r:
        Option<SemaphoreRef<'_>>)
        requires
            service_wf(os),
            old(self).wf(),
        ensures
            final(self).wf(),
            final(self).state() == once_step(old(self).state(), old(self).state() is Uninitialized
                && r is Some),
            old(self).state() is Ready ==> r is Some,
            old(self).state() is Preparing ==> r is None,
            !(old(self).state() is Uninitialized) ==> *final(self) == *old(self),
            r matches Some(sr) ==> final(self).state() is Ready && sr.id() == final(self).id(),
            old(self).state() is Uninitialized && r is Some ==> anonymous_protocol_ok(
                os,
                final(self).id(),
                0u32,
            ),
            old(self).state() is Uninitialized && r is None ==> ((final(self).init_error_spec()) matches Some(e) && anonymous_fail_ev(os, 0u32, e.code)),
    {
        self.try_init_with(limit, false, 0, os)
    }

    /// Try to initialize `self` if not already initialized, and return a
    /// reference to it.
    ///
    /// If another attempt already won the guard, this polls readiness up to
    /// `limit` retries, for the case that the winner is a thread still in
    /// the middle of initializing, and then gives up.
    pub fn try_init_with<F: Fn(OsRequest) -> OsResponse + Copy>(
        &mut self,
        limit: u64,
        is_shared: bool,
        sem_count: u32,
        os: F,
    ) -> (r: Option<SemaphoreRef<'_>>)
        requires
            service_wf(os),
            !is_shared,
            old(self).wf(),
        ensures
            final(self).wf(),
            final(self).state() == once_step(old(self).state(), old(self).state() is Uninitialized
                && r is Some),
            old(self).state() is Ready ==> r is Some,
            old(self).state() is Preparing ==> r is None,
            !(old(self).state() is Uninitialized) ==> *final(self) == *old(self),
            r matches Some(sr) ==> final(self).state() is Ready && sr.id() == final(self).id(),
            old(self).state() is Uninitialized && r is Some ==> anonymous_protocol_ok(
                os,
                final(self).id(),
                sem_count,
            ),
            old(self).state() is Uninitialized && r is None ==> ((final(self).init_error_spec()) matches Some(e) && anonymous_fail_ev(os, sem_count, e.code)),
    {
        let attempt = self.init_attempt(sem_count, os);
        match attempt {
            Ok(()) => match self.sem_ref() {
                Ok(sr) => Some(sr),
                Err(()) => None,
            },
            Err(true) => {
                // Another attempt won the guard: poll readiness, giving the
                // winner `limit` chances to finish.
                let mut remaining: u64 = limit;
                loop
                    invariant
                        *self == *old(self),
                        !(self.state() is Uninitialized),
                        self.wf(),
                    decreases remaining,
                {
                    if self.once.is_ready() {
                        break ;
                    }
                    if remaining == 0 {
                        return None;
                    }
                    remaining = remaining - 1;
                    spin_hint();
                }
                match self.sem_ref() {
                    Ok(sr) => Some(sr),
                    Err(()) => None,
                }
            },
            Err(false) => None,
        }
    }

    /// A human-readable rendering: the current count if the container is
    /// ready and the service reports one, the plain form otherwise.
    pub fn display<F: Fn(OsRequest) -> OsResponse>(&self, os: F) -> (s: String)
        requires
            service_wf(os),
            self.wf(),
        ensures
            self.state() is Ready ==> display_ev(os, self.id(), s@),
            !(self.state() is Ready) ==> s@ == plain_display_spec(),
    {
        match self.sem_ref() {
            Ok(sr) => sr.display(os),
            Err(()) => {
                let mut s = String::new();
                s.append("<Semaphore>");
                proof {
                    assert(s@ =~= plain_display_spec());
                }
                s
            },
        }
    }

    /// Tear the container down, asking the service to close the minted
    /// semaphore only if initialization had succeeded: a container that
    /// never became ready performs no service call at all and reports
    /// `None`.
    ///
    /// Closing is safe here, unlike for a general named semaphore: the
    /// object was created fresh under a throwaway name that was unlinked at
    /// once, so this container's handle is the only one, and taking the
    /// container by value rules out live references.
    pub fn teardown<F: Fn(OsRequest) -> OsResponse>(self, os: F) -> (r: Option<Result<(), OsError>>)
        requires
            service_wf(os),
            self.wf(),
        ensures
            r is Some <==> self.state() is Ready,
            r matches Some(Ok(())) ==> call_ensures(
                os,
                ((OsRequest::Close { handle: self.id() }),),
                OsResponse::Done,
            ),
            r matches Some(Err(e)) ==> call_ensures(
                os,
                ((OsRequest::Close { handle: self.id() }),),
                OsResponse::Fail(e.code),
            ),
    {
        match self.inner {
            Some(s) => Some(s.close(os)),
            None => None,
        }
    }
}

/// A reference borrows its container: it is obtained and used only while
/// the container stands still, and teardown — which consumes the container
/// — is impossible until the last reference is gone.
pub fn lifetime_enforced() {
    proof {
        crate::os::lemma_stub_service_wf();
    }
    let mut sem = Semaphore::uninit();
    match sem.init_with(false, 0, crate::os::stub_respond) {
        Ok(sr) => {
            let _signalled = sr.post(crate::os::stub_respond);
        },
        Err(_) => {
        },
    }
    let _torn = sem.teardown(crate::os::stub_respond);
}

impl Default for Semaphore {
    /// The default container is uninitialized, so that generic uses can
    /// create instances.
    fn default() -> (r: Self)
        ensures
            r.state() is Uninitialized,
            r.init_error_spec() is None,
            r.wf(),
    {
        Semaphore::uninit()
    }
}

} // verus!
