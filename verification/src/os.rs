//! The contract with the OS semaphore service.
//!
//! This crate never performs an OS call itself: every operation that needs
//! the host's semaphore primitive is issued as an [`OsRequest`] to a
//! caller-supplied service function, which answers with an [`OsResponse`].
//! A production caller backs the service with the host's `sem_*` calls; a
//! test can back it with an in-process model.  All decisions made on the way
//! to a request and back from a response are verified; the service itself is
//! trusted to answer with the right shape (see [`response_wf`]).
//!
//! Failures carry the service's error code together with its classification,
//! pinned here to this target's `errno` values.

use vstd::prelude::*;

verus! {

/// `errno` value for "operation would block".
pub const EAGAIN_CODE: i32 = 11;

/// `errno` value for "interrupted by a signal".
pub const EINTR_CODE: i32 = 4;

/// `errno` value for "the name already exists".
pub const EEXIST_CODE: i32 = 17;

/// `errno` value for "no such name".
pub const ENOENT_CODE: i32 = 2;

/// `errno` value for "invalid argument".
pub const EINVAL_CODE: i32 = 22;

/// `errno` value for "a value is too large for its data type".
pub const EOVERFLOW_CODE: i32 = 75;

/// `errno` value for "too many open descriptors in this process".
pub const EMFILE_CODE: i32 = 24;

/// `errno` value for "too many open descriptors on the host".
pub const ENFILE_CODE: i32 = 23;

/// `errno` value for "out of memory".
pub const ENOMEM_CODE: i32 = 12;

/// `errno` value for "no space left".
pub const ENOSPC_CODE: i32 = 28;

/// Relies on `libc::EAGAIN`: on this target its value is 11.
#[verifier::external_body]
fn libc_eagain() -> (r: i32)
    ensures
        r == EAGAIN_CODE,
{
    libc::EAGAIN
}

/// Relies on `libc::EINTR`: on this target its value is 4.
#[verifier::external_body]
pub(crate) fn libc_eintr() -> (r: i32)
    ensures
        r == EINTR_CODE,
{
    libc::EINTR
}

/// Relies on `libc::EEXIST`: on this target its value is 17.
#[verifier::external_body]
fn libc_eexist() -> (r: i32)
    ensures
        r == EEXIST_CODE,
{
    libc::EEXIST
}

/// Relies on `libc::ENOENT`: on this target its value is 2.
#[verifier::external_body]
fn libc_enoent() -> (r: i32)
    ensures
        r == ENOENT_CODE,
{
    libc::ENOENT
}

/// Relies on `libc::EINVAL`: on this target its value is 22.
#[verifier::external_body]
fn libc_einval() -> (r: i32)
    ensures
        r == EINVAL_CODE,
{
    libc::EINVAL
}

/// Relies on `libc::EOVERFLOW`: on this target its value is 75.
#[verifier::external_body]
fn libc_eoverflow() -> (r: i32)
    ensures
        r == EOVERFLOW_CODE,
{
    libc::EOVERFLOW
}

/// Relies on `libc::EMFILE`: on this target its value is 24.
#[verifier::external_body]
fn libc_emfile() -> (r: i32)
    ensures
        r == EMFILE_CODE,
{
    libc::EMFILE
}

/// Relies on `libc::ENFILE`: on this target its value is 23.
#[verifier::external_body]
fn libc_enfile() -> (r: i32)
    ensures
        r == ENFILE_CODE,
{
    libc::ENFILE
}

/// Relies on `libc::ENOMEM`: on this target its value is 12.
#[verifier::external_body]
fn libc_enomem() -> (r: i32)
    ensures
        r == ENOMEM_CODE,
{
    libc::ENOMEM
}

/// Relies on `libc::ENOSPC`: on this target its value is 28.
#[verifier::external_body]
fn libc_enospc() -> (r: i32)
    ensures
        r == ENOSPC_CODE,
{
    libc::ENOSPC
}

/// What an OS error code means to a caller of this crate.
#[derive(Clone, Copy, Debug, PartialEq, Eq, Structural)]
pub enum ErrKind {
    /// The operation would have blocked on a zero count.
    WouldBlock,
    /// A signal interrupted the call; retrying is reasonable.
    Interrupted,
    /// Exclusive creation found the name already in use.
    AlreadyExists,
    /// No semaphore is known under the given name.
    NotFound,
    /// The service rejected an argument, such as an excessive count.
    InvalidArgument,
    /// A per-process or host-wide resource limit was hit.
    ResourceLimit,
    /// The count would exceed the maximum the service can represent.
    Overflow,
    /// Any other code.
    Other,
}

/// The classification of each error code this layer interprets.
pub open spec fn classify_spec(code: i32) -> ErrKind {
    if code == EAGAIN_CODE {
        ErrKind::WouldBlock
    } else if code == EINTR_CODE {
        ErrKind::Interrupted
    } else if code == EEXIST_CODE {
        ErrKind::AlreadyExists
    } else if code == ENOENT_CODE {
        ErrKind::NotFound
    } else if code == EINVAL_CODE {
        ErrKind::InvalidArgument
    } else if code == EMFILE_CODE || code == ENFILE_CODE || code == ENOMEM_CODE || code
        == ENOSPC_CODE {
        ErrKind::ResourceLimit
    } else if code == EOVERFLOW_CODE {
        ErrKind::Overflow
    } else {
        ErrKind::Other
    }
}

/// Classify an error code exactly as [`classify_spec`] says.
pub fn classify(code: i32) -> (k: ErrKind)
    ensures
        k == classify_spec(code),
{
    if code == libc_eagain() {
        ErrKind::WouldBlock
    } else if code == libc_eintr() {
        ErrKind::Interrupted
    } else if code == libc_eexist() {
        ErrKind::AlreadyExists
    } else if code == libc_enoent() {
        ErrKind::NotFound
    } else if code == libc_einval() {
        ErrKind::InvalidArgument
    } else if code == libc_emfile() || code == libc_enfile() || code == libc_enomem() || code
        == libc_enospc() {
        ErrKind::ResourceLimit
    } else if code == libc_eoverflow() {
        ErrKind::Overflow
    } else {
        ErrKind::Other
    }
}

/// The classifications the name and operation layers rely on: each comes
/// from exactly its host code.
pub proof fn lemma_errno_classification()
    ensures
        classify_spec(ENOENT_CODE) == ErrKind::NotFound,
        classify_spec(EEXIST_CODE) == ErrKind::AlreadyExists,
        classify_spec(EINVAL_CODE) == ErrKind::InvalidArgument,
        classify_spec(EAGAIN_CODE) == ErrKind::WouldBlock,
        classify_spec(EINTR_CODE) == ErrKind::Interrupted,
        classify_spec(EOVERFLOW_CODE) == ErrKind::Overflow,
{
}

/// A typed OS failure: the raw error code the service reported.
#[derive(Clone, Copy, Debug, PartialEq, Eq, Structural)]
pub struct OsError {
    /// The `errno` value read right after the failing call.
    pub code: i32,
}

impl OsError {
    /// What the raw code means to this layer.
    pub fn kind(&self) -> (k: ErrKind)
        ensures
            k == classify_spec(self.code),
    {
        classify(self.code)
    }
}

/// One call this layer may ask the OS semaphore service to perform.
///
/// A `handle` is the service's own stable identifier for an open semaphore
/// object (for the host service, the object's address); a `name` is a
/// nul-terminated byte string in the host's semaphore namespace.
#[derive(Debug)]
pub enum OsRequest {
    /// Initialize an embedded semaphore object with the given sharing flag
    /// and starting count; answered with the new object's handle.
    Init { shared: i32, value: u32 },
    /// Destroy an embedded semaphore object.
    Destroy { handle: u64 },
    /// Open the named semaphore, creating it if `oflag` says so; answered
    /// with a handle.
    Open { name: Vec<u8>, oflag: i32, mode: u32, value: u32 },
    /// Close an open handle to a named semaphore.
    Close { handle: u64 },
    /// Remove a name from the namespace, leaving open handles usable.
    Unlink { name: Vec<u8> },
    /// Increment the count.
    Post { handle: u64 },
    /// Decrement the count, blocking the calling thread while it is zero.
    Wait { handle: u64 },
    /// Decrement the count, failing instead of blocking on a zero count.
    TryWait { handle: u64 },
    /// Report the current count.
    GetValue { handle: u64 },
}

/// The service's answer to one request.
#[derive(Clone, Copy, Debug)]
pub enum OsResponse {
    /// The call succeeded and returns nothing.
    Done,
    /// The call succeeded and returns a handle.
    Handle(u64),
    /// The call succeeded and returns a count.
    Value(i32),
    /// The call failed with this `errno` value.
    Fail(i32),
}

/// The shape every answer of a well-behaved service has: a handle where a
/// handle is due, a count where a count is due, plain success elsewhere, and
/// a coded failure anywhere.
pub open spec fn response_wf(req: OsRequest, resp: OsResponse) -> bool {
    match req {
        OsRequest::Init { .. } => resp is Handle || resp is Fail,
        OsRequest::Open { .. } => resp is Handle || resp is Fail,
        OsRequest::GetValue { .. } => resp is Value || resp is Fail,
        _ => resp is Done || resp is Fail,
    }
}

/// What this layer requires of a service function before relying on it: it
/// accepts every request, and every answer it can give has the right shape.
pub open spec fn service_wf<F: Fn(OsRequest) -> OsResponse>(os: F) -> bool {
    &&& forall|req: OsRequest| #[trigger] call_requires(os, (req,))
    &&& forall|req: OsRequest, resp: OsResponse| #[trigger]
        call_ensures(os, (req,), resp) ==> response_wf(req, resp)
}

/// A stub service that grants every request with fixed values: handle 1
/// where a handle is due, count 0 where a count is due, plain success
/// elsewhere.  It performs nothing and exists so that the state machines
/// around the service can be exercised without a host.
pub fn stub_respond(req: OsRequest) -> (res: OsResponse)
    ensures
        response_wf(req, res),
{
    match req {
        OsRequest::Init { .. } => OsResponse::Handle(1),
        OsRequest::Open { .. } => OsResponse::Handle(1),
        OsRequest::GetValue { .. } => OsResponse::Value(0),
        _ => OsResponse::Done,
    }
}

/// The stub service is a well-formed service.
pub proof fn lemma_stub_service_wf()
    ensures
        service_wf(stub_respond),
{
    assert forall|req: OsRequest| #[trigger] call_requires(stub_respond, (req,)) by {}
}

} // verus!
