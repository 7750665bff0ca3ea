//! Embedded semaphores: a container that owns storage for exactly one
//! semaphore object of the service, guarded by an exactly-once state machine.
//!
//! The container starts uninitialized; the single initialization attempt
//! that wins the guard asks the service to initialize the object, and only a
//! successful attempt makes operations possible, through a borrow-scoped
//! [`SemaphoreRef`].  Teardown consumes the container, so it cannot run
//! while any reference derived from it is alive, and it asks the service to
//! destroy the object only if initialization had succeeded.

use crate::non_named::init_once::{once_step, OnceState, InitOnce};
use crate::os::{service_wf, OsError, OsRequest, OsResponse};
use crate::refs::{display_ev, plain_display_spec, SemaphoreRef};
use vstd::prelude::*;
use vstd::string::StringExecFns;

verus! {

/// The service's flag for an object private to a single process.
pub const SINGLE_PROCESS_PRIVATE: i32 = 0;

/// The service's flag for an object shared between processes.
pub const MULTI_PROCESS_SHARED: i32 = 1;

/// The sharing flag handed to the service for an initialization request.
pub open spec fn pshared_spec(is_shared: bool) -> i32 {
    if is_shared {
        MULTI_PROCESS_SHARED
    } else {
        SINGLE_PROCESS_PRIVATE
    }
}

/// An embedded semaphore container.
#[derive(Debug)]
pub struct Semaphore {
    once: InitOnce,
    handle: u64,
    init_error: Option<OsError>,
}

impl Semaphore {
    /// Where the container stands in its lifecycle.
    pub closed spec fn state(&self) -> OnceState {
        self.once@
    }

    /// The service handle of the initialized object; meaningful only when
    /// [`Self::state`] is `Ready`.
    pub closed spec fn id(&self) -> u64 {
        self.handle
    }

    /// The error a failed initialization attempt reported, kept as context.
    pub closed spec fn init_error_spec(&self) -> Option<OsError> {
        self.init_error
    }

    /// Create an uninitialized container.
    ///
    /// The only operations that can be done with a new instance are to
    /// initialize it or tear it down.
    pub fn uninit() -> (r: Self)
        ensures
            r.state() is Uninitialized,
            r.init_error_spec() is None,
    {
        Semaphore { once: InitOnce::new(), handle: 0, init_error: None }
    }

    /// The single initialization attempt, without handing out a reference:
    /// the step behind [`Self::init_with`] and [`Self::try_init_with`].
    fn init_attempt<F: Fn(OsRequest) -> OsResponse>(
        &mut self,
        is_shared: bool,
        sem_count: u32,
        os: F,
    ) -> (r: Result<(), bool>)
        requires
            service_wf(os),
        ensures
            final(self).state() == once_step(old(self).state(), r is Ok),
            r matches Err(true) <==> !(old(self).state() is Uninitialized),
            !(old(self).state() is Uninitialized) ==> *final(self) == *old(self),
            r is Ok ==> call_ensures(
                os,
                ((OsRequest::Init { shared: pshared_spec(is_shared), value: sem_count }),),
                OsResponse::Handle(final(self).id()),
            ),
            r matches Err(false) ==> final(self).init_error_spec() matches Some(e)
                && call_ensures(
                os,
                ((OsRequest::Init { shared: pshared_spec(is_shared), value: sem_count }),),
                OsResponse::Fail(e.code),
            ),
            r is Ok || final(self).id() == old(self).id(),
    {
        let pshared: i32 = if is_shared {
            MULTI_PROCESS_SHARED
        } else {
            SINGLE_PROCESS_PRIVATE
        };
        let guarded_init = || -> (res: Result<u64, i32>)
            requires
                service_wf(os),
            ensures
                res matches Ok(h) ==> call_ensures(
                    os,
                    ((OsRequest::Init { shared: pshared, value: sem_count }),),
                    OsResponse::Handle(h),
                ),
                res matches Err(c) ==> call_ensures(
                    os,
                    ((OsRequest::Init { shared: pshared, value: sem_count }),),
                    OsResponse::Fail(c),
                ),
            {
                match os(OsRequest::Init { shared: pshared, value: sem_count }) {
                    OsResponse::Handle(h) => Ok(h),
                    OsResponse::Fail(c) => Err(c),
                    _ => Err(0),
                }
            };
        let attempt = self.once.call_once(guarded_init);
        match attempt {
            Some(Ok(h)) => {
                self.handle = h;
                Ok(())
            },
            Some(Err(c)) => {
                self.init_error = Some(OsError { code: c });
                Err(false)
            },
            None => Err(true),
        }
    }

    /// Ask the service to initialize the embedded object, and return a
    /// reference to it.
    ///
    /// `is_shared` selects process-private or cross-process-shared
    /// semantics; `sem_count` is the starting count.
    ///
    /// # Errors
    /// Returns `Err(true)` if the initialization was already successfully
    /// done, or already attempted, by another call.  Returns `Err(false)` if
    /// this call attempted the initialization and the service reported an
    /// error, which is then preserved by [`Self::init_error`].
    pub fn init_with<F: Fn(OsRequest) -> OsResponse>(
        &mut self,
        is_shared: bool,
        sem_count: u32,
        os: F,
    ) -> (r: Result<SemaphoreRef<'_>, bool>)
        requires
            service_wf(os),
        ensures
            final(self).state() == once_step(old(self).state(), r is Ok),
            r matches Err(true) <==> !(old(self).state() is Uninitialized),
            !(old(self).state() is Uninitialized) ==> *final(self) == *old(self),
            r matches Ok(sr) ==> sr.id() == final(self).id() && call_ensures(
                os,
                ((OsRequest::Init { shared: pshared_spec(is_shared), value: sem_count }),),
                OsResponse::Handle(sr.id()),
            ),
            r matches Err(false) ==> final(self).init_error_spec() matches Some(e)
                && call_ensures(
                os,
                ((OsRequest::Init { shared: pshared_spec(is_shared), value: sem_count }),),
                OsResponse::Fail(e.code),
            ),
    {
        match self.init_attempt(is_shared, sem_count, os) {
            Ok(()) => Ok(SemaphoreRef::from_handle(self.handle)),
            Err(raced) => Err(raced),
        }
    }

    /// Like [`Self::init_with`] but process-private with a starting count of
    /// zero: the common case of a semaphore whose first wait blocks until a
    /// post.
    pub fn init<F: Fn(OsRequest) -> OsResponse>(&mut self, os: F) -> (r: Result<
        SemaphoreRef<'_>,
        bool,
    >)
        requires
            service_wf(os),
        ensures
            final(self).state() == once_step(old(self).state(), r is Ok),
            r matches Err(true) <==> !(old(self).state() is Uninitialized),
            !(old(self).state() is Uninitialized) ==> *final(self) == *old(self),
            r matches Ok(sr) ==> sr.id() == final(self).id() && call_ensures(
                os,
                ((OsRequest::Init { shared: SINGLE_PROCESS_PRIVATE, value: 0u32 }),),
                OsResponse::Handle(sr.id()),
            ),
            r matches Err(false) ==> final(self).init_error_spec() matches Some(e)
                && call_ensures(
                os,
                ((OsRequest::Init { shared: SINGLE_PROCESS_PRIVATE, value: 0u32 }),),
                OsResponse::Fail(e.code),
            ),
    {
        self.init_with(false, 0, os)
    }

    /// The handle of the initialized object, or `None` before readiness:
    /// the check behind [`Self::sem_ref`] and [`Self::teardown`].
    fn ready_handle(&self) -> (r: Option<u64>)
        ensures
            r is Some <==> self.state() is Ready,
            r matches Some(h) ==> h == self.id(),
    {
        if self.once.is_ready() {
            Some(self.handle)
        } else {
            None
        }
    }

    /// Get a [`SemaphoreRef`] to `self`, so that semaphore operations can be
    /// done on `self`.
    ///
    /// # Errors
    /// If `self` was not previously initialized.
    pub fn sem_ref(&self) -> (r: Result<SemaphoreRef<'_>, ()>)
        ensures
            r is Ok <==> self.state() is Ready,
            r matches Ok(sr) ==> sr.id() == self.id(),
    {
        match self.ready_handle() {
            Some(h) => Ok(SemaphoreRef::from_handle(h)),
            None => Err(()),
        }
    }

    /// The error code a failed initialization attempt reported, kept as
    /// context for the `Err(false)` outcome of [`Self::init_with`].
    pub fn init_error(&self) -> (r: Option<OsError>)
        ensures
            r == self.init_error_spec(),
    {
        self.init_error
    }

    /// Like [`Self::try_init_with`] but process-private with a starting
    /// count of zero, similar to [`Self::init`].
    pub fn try_init<F: Fn(OsRequest) -> OsResponse>(&mut self, limit: u64, os: F) -> (r: Option<
        SemaphoreRef<'_>,
    >)
        requires
            service_wf(os),
        ensures
            final(self).state() == once_step(old(self).state(), old(self).state() is Uninitialized
                && r is Some),
            old(self).state() is Ready ==> r is Some,
            old(self).state() is Preparing ==> r is None,
            !(old(self).state() is Uninitialized) ==> *final(self) == *old(self),
            r matches Some(sr) ==> final(self).state() is Ready && sr.id() == final(self).id(),
            old(self).state() is Uninitialized && r is Some ==> call_ensures(
                os,
                ((OsRequest::Init { shared: SINGLE_PROCESS_PRIVATE, value: 0u32 }),),
                OsResponse::Handle(final(self).id()),
            ),
            old(self).state() is Uninitialized && r is None ==> ((final(self).init_error_spec()) matches Some(e) && call_ensures(
                os,
                ((OsRequest::Init { shared: SINGLE_PROCESS_PRIVATE, value: 0u32 }),),
                OsResponse::Fail(e.code),
            )),
    {
        self.try_init_with(limit, false, 0, os)
    }

    /// Try to initialize `self` if not already initialized, and return a
    /// reference to it.
    ///
    /// If another attempt already won the guard, this polls readiness up to
    /// `limit` retries, for the case that the winner is a thread still in
    /// the middle of initializing, and then gives up.
    pub fn try_init_with<F: Fn(OsRequest) -> OsResponse>(
        &mut self,
        limit: u64,
        is_shared: bool,
        sem_count: u32,
        os: F,
    ) -> (r: Option<SemaphoreRef<'_>>)
        requires
            service_wf(os),
        ensures
            final(self).state() == once_step(old(self).state(), old(self).state() is Uninitialized
                && r is Some),
            old(self).state() is Ready ==> r is Some,
            old(self).state() is Preparing ==> r is None,
            !(old(self).state() is Uninitialized) ==> *final(self) == *old(self),
            r matches Some(sr) ==> final(self).state() is Ready && sr.id() == final(self).id(),
            old(self).state() is Uninitialized && r is Some ==> call_ensures(
                os,
                ((OsRequest::Init { shared: pshared_spec(is_shared), value: sem_count }),),
                OsResponse::Handle(final(self).id()),
            ),
            old(self).state() is Uninitialized && r is None ==> ((final(self).init_error_spec()) matches Some(e) && call_ensures(
                os,
                ((OsRequest::Init { shared: pshared_spec(is_shared), value: sem_count }),),
                OsResponse::Fail(e.code),
            )),
    {
        let attempt = self.init_attempt(is_shared, sem_count, os);
        match attempt {
            Ok(()) => match self.sem_ref() {
                Ok(sr) => Some(sr),
                Err(()) => None,
            },
            Err(true) => {
                // Another attempt won the guard: poll readiness, giving the
                // winner `limit` chances to finish.
                let mut remaining: u64 = limit;
                loop
                    invariant
                        *self == *old(self),
                        !(self.state() is Uninitialized),
                    decreases remaining,
                {
                    if self.once.is_ready() {
                        break ;
                    }
                    if remaining == 0 {
                        return None;
                    }
                    remaining = remaining - 1;
                    spin_hint();
                }
                match self.sem_ref() {
                    Ok(sr) => Some(sr),
                    Err(()) => None,
                }
            },
            Err(false) => None,
        }
    }

    /// A human-readable rendering: the current count if the container is
    /// ready and the service reports one, the plain form otherwise.
    pub fn display<F: Fn(OsRequest) -> OsResponse>(&self, os: F) -> (s: String)
        requires
            service_wf(os),
        ensures
            self.state() is Ready ==> display_ev(os, self.id(), s@),
            !(self.state() is Ready) ==> s@ == plain_display_spec(),
    {
        match self.sem_ref() {
            Ok(sr) => sr.display(os),
            Err(()) => {
                let mut s = String::new();
                s.append("<Semaphore>");
                proof {
                    assert(s@ =~= plain_display_spec());
                }
                s
            },
        }
    }

    /// Tear the container down, asking the service to destroy the embedded
    /// object only if initialization had succeeded: a container that never
    /// became ready performs no service call at all and reports `None`.
    ///
    /// Taking the container by value makes destruction exactly-once, and the
    /// borrow checker keeps it impossible while any [`SemaphoreRef`]
    /// derived from the container is alive.
    pub fn teardown<F: Fn(OsRequest) -> OsResponse>(self, os: F) -> (r: Option<
        Result<(), OsError>,
    >)
        requires
            service_wf(os),
        ensures
            r is Some <==> self.state() is Ready,
            r matches Some(Ok(())) ==> call_ensures(
                os,
                ((OsRequest::Destroy { handle: self.id() }),),
                OsResponse::Done,
            ),
            r matches Some(Err(e)) ==> call_ensures(
                os,
                ((OsRequest::Destroy { handle: self.id() }),),
                OsResponse::Fail(e.code),
            ),
    {
        match self.ready_handle() {
            Some(h) => match os(OsRequest::Destroy { handle: h }) {
                OsResponse::Done => Some(Ok(())),
                OsResponse::Fail(code) => Some(Err(OsError { code })),
                _ => Some(Err(OsError { code: 0 })),
            },
            None => None,
        }
    }
}

impl Default for Semaphore {
    /// The default container is uninitialized, so that generic uses can
    /// create instances.
    fn default() -> (r: Self)
        ensures
            r.state() is Uninitialized,
            r.init_error_spec() is None,
    {
        Semaphore::uninit()
    }
}

/// A container that has merely been created, and could still be moved
/// around, refuses references: only initialization, which fixes the object
/// in place with the service, makes them obtainable.
pub fn must_pin() {
    let sem = Semaphore::uninit();
    let r = sem.sem_ref();
    proof {
        assert(r is Err);
    }
}

/// A reference borrows its container: it is obtained and used only while
/// the container stands still, and teardown — which consumes the container
/// — is impossible until the last reference is gone.
pub fn lifetime_enforced() {
    proof {
        crate::os::lemma_stub_service_wf();
    }
    let mut sem = Semaphore::uninit();
    match sem.init_with(false, 0, crate::os::stub_respond) {
        Ok(sr) => {
            let _signalled = sr.post(crate::os::stub_respond);
        },
        Err(_) => {
        },
    }
    let _torn = sem.teardown(crate::os::stub_respond);
}

/// Relies on `core::hint::spin_loop`: a scheduling hint with no observable
/// effect, emitted between readiness polls.
#[verifier::external_body]
pub(crate) fn spin_hint() {
    core::hint::spin_loop()
}

} // verus!
