//! Aspects common to all "non-named" semaphore abstractions: the
//! exactly-once guard, and a single interface over the two concrete
//! container kinds.
//!
//! The set of kinds is fixed and known — an embedded object, or an
//! anonymous one minted through the namespace — so the common interface is
//! a closed tagged union dispatched here, not an open-ended trait.

use crate::named::{anonymous_fail_ev, anonymous_protocol_ok};
use crate::os::{service_wf, OsError, OsRequest, OsResponse};
use crate::refs::{display_ev, plain_display_spec, SemaphoreRef};
use crate::unnamed::pshared_spec;
use init_once::{once_step, OnceState, InitOnce};
use vstd::prelude::*;

pub mod init_once;

verus! {

/// A semaphore container of either non-named kind, behind one interface.
#[derive(Debug)]
pub enum Semaphore {
    /// An embedded semaphore object of the service.
    Unnamed(crate::unnamed::Semaphore),
    /// An anonymous semaphore minted through the namespace.
    Anonymous(crate::anonymous::Semaphore),
}

impl Semaphore {
    /// Where the container stands in its lifecycle.
    pub open spec fn state(&self) -> OnceState {
        match self {
            Semaphore::Unnamed(s) => s.state(),
            Semaphore::Anonymous(s) => s.state(),
        }
    }

    /// The service handle of the initialized object; meaningful only when
    /// [`Self::state`] is `Ready`.
    pub open spec fn id(&self) -> u64 {
        match self {
            Semaphore::Unnamed(s) => s.id(),
            Semaphore::Anonymous(s) => s.id(),
        }
    }

    /// The error a failed initialization attempt reported, kept as context.
    pub open spec fn init_error_spec(&self) -> Option<OsError> {
        match self {
            Semaphore::Unnamed(s) => s.init_error_spec(),
            Semaphore::Anonymous(s) => s.init_error_spec(),
        }
    }

    /// Validity of the container's representation.
    pub open spec fn wf(&self) -> bool {
        match self {
            Semaphore::Unnamed(_) => true,
            Semaphore::Anonymous(s) => s.wf(),
        }
    }

    /// What a successful initialization of this kind of container proves of
    /// the service: the embedded kind was initialized directly; the
    /// anonymous kind went through the whole allocation protocol.
    pub open spec fn init_ok_ev<F: Fn(OsRequest) -> OsResponse>(
        &self,
        os: F,
        is_shared: bool,
        sem_count: u32,
        handle: u64,
    ) -> bool {
        match self {
            Semaphore::Unnamed(_) => call_ensures(
                os,
                ((OsRequest::Init { shared: pshared_spec(is_shared), value: sem_count }),),
                OsResponse::Handle(handle),
            ),
            Semaphore::Anonymous(_) => anonymous_protocol_ok(os, handle, sem_count),
        }
    }

    /// What a failed initialization of this kind of container proves of the
    /// service.
    pub open spec fn init_fail_ev<F: Fn(OsRequest) -> OsResponse>(
        &self,
        os: F,
        is_shared: bool,
        sem_count: u32,
        code: i32,
    ) -> bool {
        match self {
            Semaphore::Unnamed(_) => call_ensures(
                os,
                ((OsRequest::Init { shared: pshared_spec(is_shared), value: sem_count }),),
                OsResponse::Fail(code),
            ),
            Semaphore::Anonymous(_) => anonymous_fail_ev(os, sem_count, code),
        }
    }

    /// What a performed teardown of this kind of container proves of the
    /// service: the embedded kind was destroyed, the anonymous kind was
    /// closed.
    pub open spec fn teardown_ok_ev<F: Fn(OsRequest) -> OsResponse>(
        &self,
        os: F,
        handle: u64,
    ) -> bool {
        match self {
            Semaphore::Unnamed(_) => call_ensures(
                os,
                ((OsRequest::Destroy { handle }),),
                OsResponse::Done,
            ),
            Semaphore::Anonymous(_) => call_ensures(
                os,
                ((OsRequest::Close { handle }),),
                OsResponse::Done,
            ),
        }
    }

    /// What a failed teardown of this kind of container proves of the
    /// service.
    pub open spec fn teardown_fail_ev<F: Fn(OsRequest) -> OsResponse>(
        &self,
        os: F,
        handle: u64,
        code: i32,
    ) -> bool {
        match self {
            Semaphore::Unnamed(_) => call_ensures(
                os,
                ((OsRequest::Destroy { handle }),),
                OsResponse::Fail(code),
            ),
            Semaphore::Anonymous(_) => call_ensures(
                os,
                ((OsRequest::Close { handle }),),
                OsResponse::Fail(code),
            ),
        }
    }

    /// An uninitialized container of the embedded kind.
    pub fn unnamed() -> (r: Self)
        ensures
            r is Unnamed,
            r.state() is Uninitialized,
            r.init_error_spec() is None,
            r.wf(),
    {
        Semaphore::Unnamed(crate::unnamed::Semaphore::uninit())
    }

    /// An uninitialized container of the anonymous kind.
    pub fn anonymous() -> (r: Self)
        ensures
            r is Anonymous,
            r.state() is Uninitialized,
            r.init_error_spec() is None,
            r.wf(),
    {
        Semaphore::Anonymous(crate::anonymous::Semaphore::uninit())
    }

    /// Initialize the underlying semaphore and return a [`SemaphoreRef`] to
    /// it.
    ///
    /// Usually this should only be called once; it guards against several
    /// calls on the same container, so that the initialization is only done
    /// once.  An anonymous container cannot be shared between processes, so
    /// for it `is_shared` must be `false`.
    ///
    /// # Errors
    /// Returns `Err(true)` if the initialization was already successfully
    /// done, or is being done, by another call.  Returns `Err(false)` if
    /// this call tried to do the initialization and the service reported an
    /// error, which is then preserved by [`Self::init_error`].
    pub fn init_with<F: Fn(OsRequest) -> OsResponse + Copy>(
        &mut self,
        is_shared: bool,
        sem_count: u32,
        os: F,
    ) -> (r: Result<SemaphoreRef<'_>, bool>)
        requires
            service_wf(os),
            old(self).wf(),
            (*old(self)) is Anonymous ==> !is_shared,
        ensures
            final(self).wf(),
            (*final(self)) is Unnamed <==> (*old(self)) is Unnamed,
            final(self).state() == once_step(old(self).state(), r is Ok),
            r matches Err(true) <==> !(old(self).state() is Uninitialized),
            !(old(self).state() is Uninitialized) ==> *final(self) == *old(self),
            r matches Ok(sr) ==> sr.id() == final(self).id() && old(self).init_ok_ev(
                os,
                is_shared,
                sem_count,
                sr.id(),
            ),
            r matches Err(false) ==> final(self).init_error_spec() matches Some(e) && old(
                self,
            ).init_fail_ev(os, is_shared, sem_count, e.code),
    {
        match self {
            Semaphore::Unnamed(s) => s.init_with(is_shared, sem_count, os),
            Semaphore::Anonymous(s) => s.init_with(is_shared, sem_count, os),
        }
    }

    /// Like [`Self::init_with`] but process-private with a starting count
    /// of zero: the common case of a semaphore that is private to the
    /// calling process and whose first wait blocks until a post.
    pub fn init<F: Fn(OsRequest) -> OsResponse + Copy>(&mut self, os: F) -> (r: Result<
        SemaphoreRef<'_>,
        bool,
    >)
        requires
            service_wf(os),
            old(self).wf(),
        ensures
            final(self).wf(),
            (*final(self)) is Unnamed <==> (*old(self)) is Unnamed,
            final(self).state() == once_step(old(self).state(), r is Ok),
            r matches Err(true) <==> !(old(self).state() is Uninitialized),
            !(old(self).state() is Uninitialized) ==> *final(self) == *old(self),
            r matches Ok(sr) ==> sr.id() == final(self).id() && old(self).init_ok_ev(
                os,
                false,
                0u32,
                sr.id(),
            ),
            r matches Err(false) ==> final(self).init_error_spec() matches Some(e) && old(
                self,
            ).init_fail_ev(os, false, 0u32, e.code),
    {
        self.init_with(false, 0, os)
    }

    /// Get a [`SemaphoreRef`] to `self`, so that semaphore operations can
    /// be done on `self`.
    ///
    /// # Errors
    /// If `self` was not previously initialized.
    pub fn sem_ref(&self) -> (r: Result<SemaphoreRef<'_>, ()>)
        requires
            self.wf(),
        ensures
            r is Ok <==> self.state() is Ready,
            r matches Ok(sr) ==> sr.id() == self.id(),
    {
        match self {
            Semaphore::Unnamed(s) => s.sem_ref(),
            Semaphore::Anonymous(s) => s.sem_ref(),
        }
    }

    /// The error code a failed initialization attempt reported, kept as
    /// context for the `Err(false)` outcome of [`Self::init_with`].
    pub fn init_error(&self) -> (r: Option<OsError>)
        ensures
            r == self.init_error_spec(),
    {
        match self {
            Semaphore::Unnamed(s) => s.init_error(),
            Semaphore::Anonymous(s) => s.init_error(),
        }
    }

    /// Like [`Self::try_init_with`] but process-private with a starting
    /// count of zero, similar to [`Self::init`].
    pub fn try_init<F: Fn(OsRequest) -> OsResponse + Copy>(&mut self, limit: u64, os: F) -> (r:
        Option<SemaphoreRef<'_>>)
        requires
            service_wf(os),
            old(self).wf(),
        ensures
            final(self).wf(),
            (*final(self)) is Unnamed <==> (*old(self)) is Unnamed,
            final(self).state() == once_step(old(self).state(), old(self).state() is Uninitialized
                && r is Some),
            old(self).state() is Ready ==> r is Some,
            old(self).state() is Preparing ==> r is None,
            !(old(self).state() is Uninitialized) ==> *final(self) == *old(self),
            r matches Some(sr) ==> final(self).state() is Ready && sr.id() == final(self).id(),
            old(self).state() is Uninitialized && r is Some ==> old(self).init_ok_ev(
                os,
                false,
                0u32,
                final(self).id(),
            ),
            old(self).state() is Uninitialized && r is None ==> ((
            final(self).init_error_spec()) matches Some(e) && old(self).init_fail_ev(
                os,
                false,
                0u32,
                e.code,
            )),
    {
        self.try_init_with(limit, false, 0, os)
    }

    /// Try to initialize `self` if not already initialized, and return a
    /// reference to it.
    ///
    /// If another attempt already won the guard, this polls readiness up to
    /// `limit` retries, for the case that the winner is a thread still in
    /// the middle of initializing, and then gives up.
    pub fn try_init_with<F: Fn(OsRequest) -> OsResponse + Copy>(
        &mut self,
        limit: u64,
        is_shared: bool,
        sem_count: u32,
        os: F,
    ) -> (r: Option<SemaphoreRef<'_>>)
        requires
            service_wf(os),
            old(self).wf(),
            (*old(self)) is Anonymous ==> !is_shared,
        ensures
            final(self).wf(),
            (*final(self)) is Unnamed <==> (*old(self)) is Unnamed,
            final(self).state() == once_step(old(self).state(), old(self).state() is Uninitialized
                && r is Some),
            old(self).state() is Ready ==> r is Some,
            old(self).state() is Preparing ==> r is None,
            !(old(self).state() is Uninitialized) ==> *final(self) == *old(self),
            r matches Some(sr) ==> final(self).state() is Ready && sr.id() == final(self).id(),
            old(self).state() is Uninitialized && r is Some ==> old(self).init_ok_ev(
                os,
                is_shared,
                sem_count,
                final(self).id(),
            ),
            old(self).state() is Uninitialized && r is None ==> ((final(self).init_error_spec()) matches Some(e) && old(self).init_fail_ev(
                os,
                is_shared,
                sem_count,
                e.code,
            )),
    {
        match self {
            Semaphore::Unnamed(s) => s.try_init_with(limit, is_shared, sem_count, os),
            Semaphore::Anonymous(s) => s.try_init_with(limit, is_shared, sem_count, os),
        }
    }

    /// A human-readable rendering: the current count if the container is
    /// ready and the service reports one, the plain form otherwise.
    pub fn display<F: Fn(OsRequest) -> OsResponse>(&self, os: F) -> (s: String)
        requires
            service_wf(os),
            self.wf(),
        ensures
            self.state() is Ready ==> display_ev(os, self.id(), s@),
            !(self.state() is Ready) ==> s@ == plain_display_spec(),
    {
        match self {
            Semaphore::Unnamed(s) => s.display(os),
            Semaphore::Anonymous(s) => s.display(os),
        }
    }

    /// Tear the container down, performing the service teardown call of its
    /// kind — destroy for an embedded object, close for an anonymous one —
    /// only if initialization had succeeded: a container that never became
    /// ready performs no service call at all and reports `None`.
    pub fn teardown<F: Fn(OsRequest) -> OsResponse>(self, os: F) -> (r: Option<Result<(), OsError>>)
        requires
            service_wf(os),
            self.wf(),
        ensures
            r is Some <==> self.state() is Ready,
            r matches Some(Ok(())) ==> self.teardown_ok_ev(os, self.id()),
            r matches Some(Err(e)) ==> self.teardown_fail_ev(os, self.id(), e.code),
    {
        match self {
            Semaphore::Unnamed(s) => s.teardown(os),
            Semaphore::Anonymous(s) => s.teardown(os),
        }
    }
}

impl Default for Semaphore {
    /// The default container is an uninitialized embedded one.
    fn default() -> (r: Self)
        ensures
            r is Unnamed,
            r.state() is Uninitialized,
            r.init_error_spec() is None,
            r.wf(),
    {
        Semaphore::unnamed()
    }
}

} // verus!
