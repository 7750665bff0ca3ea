//! Named semaphores: open/unlink/close on name-based semaphores, and the
//! anonymous allocator that mints a process-private semaphore out of a
//! throwaway high-entropy name.

use crate::os::{libc_eintr, service_wf, OsError, OsRequest, OsResponse};
use crate::refs::{display_ev, SemaphoreRef};
use base64::engine::general_purpose::URL_SAFE_NO_PAD;
use base64::Engine;
use vstd::prelude::*;

verus! {

/// The service's flag for "create the name if it does not exist".
pub const O_CREAT_FLAG: i32 = 64;

/// The service's flag for "fail if the name already exists".
pub const O_EXCL_FLAG: i32 = 128;

/// Relies on `libc::O_CREAT`: on this target its value is 64.
#[verifier::external_body]
fn libc_o_creat() -> (r: i32)
    ensures
        r == O_CREAT_FLAG,
{
    libc::O_CREAT
}

/// Relies on `libc::O_EXCL`: on this target its value is 128.
#[verifier::external_body]
fn libc_o_excl() -> (r: i32)
    ensures
        r == O_EXCL_FLAG,
{
    libc::O_EXCL
}

/// How many interrupted answers [`Semaphore::open`] retries through before
/// surfacing the interruption: effectively forever, but finite, because
/// every loop here terminates.
pub const OPEN_INTERRUPT_RETRY_BUDGET: u64 = u64::MAX;

/// A well-formed semaphore name: a leading path-separator marker, at least
/// one name byte, and a terminating nul that no earlier byte equals.
pub open spec fn name_wf(s: Seq<u8>) -> bool {
    &&& s.len() >= 3
    &&& s[0] == 47u8
    &&& s[s.len() - 1] == 0u8
    &&& forall|i: int| 0 <= i < s.len() - 1 ==> s[i] != 0u8
}

/// A semaphore name, valid for the duration of an open or unlink request.
#[derive(Debug)]
pub struct Name {
    bytes: Vec<u8>,
}

impl View for Name {
    type V = Seq<u8>;

    closed spec fn view(&self) -> Seq<u8> {
        self.bytes@
    }
}

impl Name {
    /// Build a name from its bytes, which must begin with the separator
    /// `'/'`, hold at least one more byte, and contain no nul; the
    /// terminating nul is appended here.
    ///
    /// # Errors
    /// If the bytes break one of those three rules.
    pub fn new(bytes: Vec<u8>) -> (r: Result<Name, ()>)
        ensures
            r matches Ok(n) ==> n@ == bytes@ + seq![0u8] && name_wf(n@),
            r is Ok <==> (bytes@.len() >= 2 && bytes@[0] == 47u8 && (forall|i: int|
                0 <= i < bytes@.len() ==> bytes@[i] != 0u8)),
    {
        if bytes.len() < 2 {
            return Err(());
        }
        if bytes[0] != 47 {
            return Err(());
        }
        let mut i: usize = 0;
        while i < bytes.len()
            invariant
                0 <= i <= bytes@.len(),
                forall|j: int| 0 <= j < i ==> bytes@[j] != 0u8,
            decreases bytes@.len() - i,
        {
            if bytes[i] == 0 {
                return Err(());
            }
            i = i + 1;
        }
        let mut bytes = bytes;
        bytes.push(0);
        Ok(Name { bytes })
    }

    /// The name's bytes, terminating nul included.
    pub fn as_bytes(&self) -> (r: &Vec<u8>)
        ensures
            r@ == self@,
    {
        &self.bytes
    }
}

/// Arguments to [`Semaphore::open`], modeling the service's create and
/// exclusive flags as a closed enumeration, so that undefined flag
/// combinations cannot occur.
#[derive(Copy, Clone, Debug, Eq, PartialEq, Structural)]
pub enum OpenFlags {
    /// The semaphore is merely accessed, not created.
    AccessOnly,
    /// Create a semaphore if it does not already exist.
    Create {
        /// If `true`, cause failure if a semaphore under the requested name
        /// already exists; if `false`, merely access it in that case.
        exclusive: bool,
        /// The permission bits the created semaphore gets.
        mode: u32,
        /// The count the created semaphore starts with.
        value: u32,
    },
}

/// The flag bits handed to the service for each [`OpenFlags`] choice; zero
/// asks for plain access.
pub open spec fn oflag_spec(flags: OpenFlags) -> i32 {
    match flags {
        OpenFlags::AccessOnly => 0,
        OpenFlags::Create { exclusive, .. } => if exclusive {
            O_CREAT_FLAG | O_EXCL_FLAG
        } else {
            O_CREAT_FLAG
        },
    }
}

/// Whether `req` asks to open `name` with exactly the given flags.
pub open spec fn is_open_req(req: OsRequest, name: Seq<u8>, flags: OpenFlags) -> bool {
    match req {
        OsRequest::Open { name: n, oflag, mode, value } => {
            &&& n@ == name
            &&& oflag == oflag_spec(flags)
            &&& match flags {
                OpenFlags::AccessOnly => mode == 0u32 && value == 0u32,
                OpenFlags::Create { mode: m, value: v, .. } => mode == m && value == v,
            }
        },
        _ => false,
    }
}

/// Whether `req` asks to unlink `name`.
pub open spec fn is_unlink_req(req: OsRequest, name: Seq<u8>) -> bool {
    match req {
        OsRequest::Unlink { name: n } => n@ == name,
        _ => false,
    }
}

/// Evidence that the service could answer an open of `name` under `flags`
/// with `handle`.
pub open spec fn open_ok_ev<F: Fn(OsRequest) -> OsResponse>(
    os: F,
    name: Seq<u8>,
    flags: OpenFlags,
    handle: u64,
) -> bool {
    exists|req: OsRequest|
        #[trigger] call_ensures(os, (req,), OsResponse::Handle(handle)) && is_open_req(
            req,
            name,
            flags,
        )
}

/// Evidence that the service could answer an open of `name` under `flags`
/// with failure `code`.
pub open spec fn open_fail_ev<F: Fn(OsRequest) -> OsResponse>(
    os: F,
    name: Seq<u8>,
    flags: OpenFlags,
    code: i32,
) -> bool {
    exists|req: OsRequest|
        #[trigger] call_ensures(os, (req,), OsResponse::Fail(code)) && is_open_req(
            req,
            name,
            flags,
        )
}

/// Evidence that the service could answer an unlink of `name` with
/// success.
pub open spec fn unlink_ok_ev<F: Fn(OsRequest) -> OsResponse>(os: F, name: Seq<u8>) -> bool {
    exists|req: OsRequest|
        #[trigger] call_ensures(os, (req,), OsResponse::Done) && is_unlink_req(req, name)
}

/// Evidence that the service could answer an unlink of `name` with failure
/// `code`.
pub open spec fn unlink_fail_ev<F: Fn(OsRequest) -> OsResponse>(
    os: F,
    name: Seq<u8>,
    code: i32,
) -> bool {
    exists|req: OsRequest|
        #[trigger] call_ensures(os, (req,), OsResponse::Fail(code)) && is_unlink_req(req, name)
}

/// A "named" semaphore that can only be used safely.
///
/// An instance of this type might, depending on how it was opened,
/// represent ownership of the underlying OS semaphore, so it is neither
/// `Copy` nor `Clone`; two instances may nevertheless refer to the same
/// underlying object (the same name opened twice).  It is not torn down
/// automatically: closing cannot be made safe in general, so it stays an
/// explicit step, [`Self::close`], with documented obligations.
#[derive(Debug)]
pub struct Semaphore {
    handle: u64,
}

impl Semaphore {
    /// The service handle of the open semaphore.
    pub closed spec fn id(&self) -> u64 {
        self.handle
    }

    /// Ask the service to open the semaphore named `name`, creating it if
    /// `open_flags` says so.
    ///
    /// An interrupted attempt (the service answers the interrupted code) is
    /// retried, so that spurious signal deliveries are not surfaced.  The
    /// retry budget is [`OPEN_INTERRUPT_RETRY_BUDGET`]: a loop here must
    /// terminate, so a failure classified interrupted can still come back,
    /// but only after the service has answered interrupted that many times
    /// in a row, which no real host does.  Every other failure is surfaced
    /// at once.
    ///
    /// # Errors
    /// Whatever failure the service reports, with its classification.
    pub fn open<F: Fn(OsRequest) -> OsResponse>(name: &Name, open_flags: OpenFlags, os: F) -> (r:
        Result<Self, OsError>)
        requires
            service_wf(os),
        ensures
            r matches Ok(sem) ==> open_ok_ev(os, name@, open_flags, sem.id()),
            r matches Err(e) ==> open_fail_ev(os, name@, open_flags, e.code),
    {
        let oflag: i32 = match open_flags {
            OpenFlags::AccessOnly => 0,
            OpenFlags::Create { exclusive, .. } => {
                if exclusive {
                    libc_o_creat() | libc_o_excl()
                } else {
                    libc_o_creat()
                }
            },
        };
        proof {
            assert((64i32 | 128i32) == 192i32) by (bit_vector);
            assert(oflag == oflag_spec(open_flags));
        }
        let (mode, value): (u32, u32) = match open_flags {
            OpenFlags::AccessOnly => (0, 0),
            OpenFlags::Create { mode, value, .. } => (mode, value),
        };
        let mut budget: u64 = OPEN_INTERRUPT_RETRY_BUDGET;
        loop
            invariant
                service_wf(os),
                oflag == oflag_spec(open_flags),
                match open_flags {
                    OpenFlags::AccessOnly => mode == 0u32 && value == 0u32,
                    OpenFlags::Create { mode: m, value: v, .. } => mode == m && value == v,
                },
            decreases budget,
        {
            let req = OsRequest::Open { name: copy_bytes(name.as_bytes()), oflag, mode, value };
            let ghost greq = req;
            proof {
                assert(is_open_req(greq, name@, open_flags));
            }
            match os(req) {
                OsResponse::Handle(h) => {
                    proof {
                        assert(call_ensures(os, (greq,), OsResponse::Handle(h)));
                        assert(open_ok_ev(os, name@, open_flags, h));
                    }
                    return Ok(Semaphore { handle: h });
                },
                OsResponse::Fail(code) => {
                    if !(code == libc_eintr() && budget > 0) {
                        proof {
                            assert(call_ensures(os, (greq,), OsResponse::Fail(code)));
                            assert(open_fail_ev(os, name@, open_flags, code));
                        }
                        return Err(OsError { code });
                    }
                    budget = budget - 1;
                },
                _ => {
                    return Err(OsError { code: 0 });
                },
            }
        }
    }

    /// Get a [`SemaphoreRef`] to `self`, so that semaphore operations can be
    /// done on `self`.
    ///
    /// The reference borrows `self`, so the semaphore cannot be closed
    /// while operations through the reference are still possible.
    pub fn sem_ref(&self) -> (r: SemaphoreRef<'_>)
        ensures
            r.id() == self.id(),
    {
        SemaphoreRef::from_handle(self.handle)
    }

    /// A human-readable rendering: the current count if the service
    /// reports one, the plain form otherwise.
    pub fn display<F: Fn(OsRequest) -> OsResponse>(&self, os: F) -> (s: String)
        requires
            service_wf(os),
        ensures
            display_ev(os, self.id(), s@),
    {
        self.sem_ref().display(os)
    }

    /// Ask the service to remove `name` from the namespace.  The semaphore
    /// stays usable by everything that already has it open, and even if the
    /// same name is opened again afterwards, that is not the same semaphore.
    ///
    /// # Errors
    /// Whatever failure the service reports; asking for a name that does
    /// not exist is reported with the not-found classification.
    pub fn unlink<F: Fn(OsRequest) -> OsResponse>(name: &Name, os: F) -> (r: Result<(), OsError>)
        requires
            service_wf(os),
        ensures
            r matches Ok(()) ==> unlink_ok_ev(os, name@),
            r matches Err(e) ==> unlink_fail_ev(os, name@, e.code),
    {
        let req = OsRequest::Unlink { name: copy_bytes(name.as_bytes()) };
        let ghost greq = req;
        proof {
            assert(is_unlink_req(greq, name@));
        }
        match os(req) {
            OsResponse::Done => {
                proof {
                    assert(call_ensures(os, (greq,), OsResponse::Done));
                    assert(unlink_ok_ev(os, name@));
                }
                Ok(())
            },
            OsResponse::Fail(code) => {
                proof {
                    assert(call_ensures(os, (greq,), OsResponse::Fail(code)));
                    assert(unlink_fail_ev(os, name@, code));
                }
                Err(OsError { code })
            },
            _ => Err(OsError { code: 0 }),
        }
    }

    /// Ask the service to close this semaphore, consuming it.
    ///
    /// The borrow checker rules out closing while a [`SemaphoreRef`]
    /// obtained from [`Self::sem_ref`] is alive.  What it cannot rule out,
    /// and stays this caller's obligation, is the cross-platform ambiguity
    /// of multiply-opened names: either ensure no other instance for the
    /// same underlying semaphore exists anywhere in the process, or ensure
    /// the platform supports one close per open; and ensure no thread is
    /// blocked on the semaphore.
    ///
    /// # Errors
    /// Whatever failure the service reports.
    pub fn close<F: Fn(OsRequest) -> OsResponse>(self, os: F) -> (r: Result<(), OsError>)
        requires
            service_wf(os),
        ensures
            r matches Ok(()) ==> call_ensures(
                os,
                ((OsRequest::Close { handle: self.id() }),),
                OsResponse::Done,
            ),
            r matches Err(e) ==> call_ensures(
                os,
                ((OsRequest::Close { handle: self.id() }),),
                OsResponse::Fail(e.code),
            ),
    {
        match os(OsRequest::Close { handle: self.handle }) {
            OsResponse::Done => Ok(()),
            OsResponse::Fail(code) => Err(OsError { code }),
            _ => Err(OsError { code: 0 }),
        }
    }
}

/// One byte of the URL-safe unpadded encoding alphabet: letters, digits,
/// `'-'` or `'_'`; never nul and never the separator `'/'`.
pub open spec fn is_b64url_byte(b: u8) -> bool {
    ||| (65u8 <= b && b <= 90u8)
    ||| (97u8 <= b && b <= 122u8)
    ||| (48u8 <= b && b <= 57u8)
    ||| b == 45u8
    ||| b == 95u8
}

/// What the URL-safe unpadded encoding returns: a function of the input
/// bytes alone.
pub uninterp spec fn b64url_of(s: Seq<u8>) -> Seq<u8>;

/// Relies on base64's `URL_SAFE_NO_PAD` engine: the encoding is a function
/// of the input bytes alone, over the URL-safe alphabet (`A`–`Z`, `a`–`z`,
/// `0`–`9`, `-`, `_`) without padding, and 16 input bytes encode to 22
/// output bytes.
#[verifier::external_body]
fn b64url_encode(input: &Vec<u8>) -> (r: Vec<u8>)
    requires
        input@.len() == 16,
    ensures
        r@ == b64url_of(input@),
        r@.len() == 22,
        forall|i: int| 0 <= i < r@.len() ==> is_b64url_byte(#[trigger] r@[i]),
{
    URL_SAFE_NO_PAD.encode(input.as_slice()).into_bytes()
}

/// Relies on `getrandom::getrandom`: on success the buffer is filled with
/// random bytes, on failure its contents are unspecified; either way its
/// length is unchanged.
#[verifier::external_body]
fn fill_random(buf: &mut Vec<u8>) -> (ok: bool)
    ensures
        final(buf)@.len() == old(buf)@.len(),
{
    getrandom::getrandom(buf.as_mut_slice()).is_ok()
}

/// A bytewise copy, for handing a name to the service by value.
fn copy_bytes(v: &Vec<u8>) -> (r: Vec<u8>)
    ensures
        r@ == v@,
{
    let mut r: Vec<u8> = Vec::new();
    let mut i: usize = 0;
    while i < v.len()
        invariant
            0 <= i <= v@.len(),
            r@ == v@.subrange(0, i as int),
        decreases v@.len() - i,
    {
        r.push(v[i]);
        i = i + 1;
    }
    proof {
        assert(r@ =~= v@);
    }
    r
}

/// The name an anonymous semaphore is minted under, given the 16 bytes of
/// entropy: the separator, their encoding, and the terminating nul.
pub open spec fn anon_name_seq(rand: Seq<u8>) -> Seq<u8> {
    seq![47u8] + b64url_of(rand) + seq![0u8]
}

/// The seed the anonymous allocator falls back to when the randomness
/// source fails: a fixed compiled-in constant, accepted because exclusive
/// creation still fails rather than collide.
pub fn fallback_seed() -> (r: Vec<u8>)
    ensures
        r@.len() == 16,
{
    let r: Vec<u8> = vec![
        0xCA,
        0xFF,
        0xDD,
        0xCE,
        0x94,
        0x57,
        0x7A,
        0xF4,
        0xCC,
        0xAC,
        0x86,
        0xFF,
        0x42,
        0x99,
        0x12,
        0xA6,
    ];
    r
}

/// Build the throwaway name for one anonymous-allocation attempt out of 16
/// bytes of entropy.
pub fn anonymous_name(rand: &Vec<u8>) -> (r: Name)
    requires
        rand@.len() == 16,
    ensures
        r@ == anon_name_seq(rand@),
        r@.len() == 24,
        name_wf(r@),
{
    let encoded = b64url_encode(rand);
    let mut bytes: Vec<u8> = Vec::new();
    bytes.push(47);
    let mut i: usize = 0;
    while i < encoded.len()
        invariant
            0 <= i <= encoded@.len(),
            bytes@ == seq![47u8] + encoded@.subrange(0, i as int),
            encoded@ == b64url_of(rand@),
            encoded@.len() == 22,
            forall|j: int| 0 <= j < encoded@.len() ==> is_b64url_byte(#[trigger] encoded@[j]),
        decreases encoded@.len() - i,
    {
        bytes.push(encoded[i]);
        i = i + 1;
    }
    bytes.push(0);
    proof {
        assert(bytes@ =~= anon_name_seq(rand@));
        assert forall|k: int| 0 <= k < bytes@.len() - 1 implies bytes@[k] != 0u8 by {
            if k > 0 {
                assert(bytes@[k] == b64url_of(rand@)[k - 1]);
                assert(is_b64url_byte(b64url_of(rand@)[k - 1]));
            }
        }
    }
    Name { bytes }
}

/// Whether `req` is one exclusive-create attempt of the anonymous
/// allocator: a throwaway name, the restrictive owner-only mode, and the
/// requested starting count.
pub open spec fn is_anonymous_open_req(req: OsRequest, sem_count: u32) -> bool {
    exists|rand: Seq<u8>|
        rand.len() == 16 && (#[trigger] anon_name_seq(rand)).len() == 24 && is_open_req(
            req,
            anon_name_seq(rand),
            OpenFlags::Create { exclusive: true, mode: 0o600u32, value: sem_count },
        )
}

/// How many fresh names the anonymous allocator tries before giving up.
pub const ANONYMOUS_TRY_LIMIT: u64 = 10;

/// Evidence that the service could answer one exclusive-create attempt of
/// the anonymous allocator with failure `code`.
pub open spec fn anonymous_fail_ev<F: Fn(OsRequest) -> OsResponse>(
    os: F,
    sem_count: u32,
    code: i32,
) -> bool {
    exists|req: OsRequest|
        #[trigger] call_ensures(os, (req,), OsResponse::Fail(code)) && is_anonymous_open_req(
            req,
            sem_count,
        )
}

impl Semaphore {
    /// Like [`Self::anonymous_with`] but with a starting count of zero: the
    /// common case of a semaphore whose first wait blocks until a post.
    ///
    /// # Errors
    /// Same as [`Self::anonymous_with`].
    pub fn anonymous<F: Fn(OsRequest) -> OsResponse + Copy>(os: F) -> (r: Result<Self, OsError>)
        requires
            service_wf(os),
        ensures
            r matches Ok(sem) ==> anonymous_protocol_ok(os, sem.id(), 0u32),
            r matches Err(e) ==> anonymous_fail_ev(os, 0u32, e.code),
    {
        Self::anonymous_with(0, os)
    }

    /// Mint a semaphore whose name practically cannot be used, so that it is
    /// private to the calling process, like an embedded semaphore on hosts
    /// that lack one.
    ///
    /// One attempt generates 16 bytes of entropy (falling back to the fixed
    /// seed if the randomness source fails), encodes them into a throwaway
    /// name, and asks for an exclusive create under the restrictive
    /// owner-only mode; on success the name is immediately unlinked, so it
    /// is no longer visible in the namespace when this returns, while the
    /// open handle stays usable.  On failure a fresh name costs nothing, so
    /// the allocator retries with a new one, up to [`ANONYMOUS_TRY_LIMIT`]
    /// attempts.
    ///
    /// # Errors
    /// The failure the service reported for the last attempt.
    pub fn anonymous_with<F: Fn(OsRequest) -> OsResponse + Copy>(sem_count: u32, os: F) -> (r:
        Result<Self, OsError>)
        requires
            service_wf(os),
        ensures
            r matches Ok(sem) ==> anonymous_protocol_ok(os, sem.id(), sem_count),
            r matches Err(e) ==> anonymous_fail_ev(os, sem_count, e.code),
    {
        let open_flags = OpenFlags::Create { exclusive: true, mode: 0o600, value: sem_count };
        let mut tries: u64 = 0;
        let mut last = OsError { code: 0 };
        loop
            invariant
                service_wf(os),
                open_flags == (OpenFlags::Create {
                    exclusive: true,
                    mode: 0o600u32,
                    value: sem_count,
                }),
                tries > 0 ==> anonymous_fail_ev(os, sem_count, last.code),
                tries <= ANONYMOUS_TRY_LIMIT,
            decreases ANONYMOUS_TRY_LIMIT - tries,
        {
            if tries == ANONYMOUS_TRY_LIMIT {
                return Err(last);
            }
            let mut rand = fallback_seed();
            let _random_worked = fill_random(&mut rand);
            let name = anonymous_name(&rand);
            // It's very unlikely that another semaphore with the same name
            // exists at the same time, because the name is high-entropy
            // gibberish and anonymous names are unlinked immediately; if it
            // somehow does, the exclusive create fails, which is desired.
            match Self::open(&name, open_flags, os) {
                Ok(sem) => {
                    // Immediately take the name back out of the namespace:
                    // from here on, only the open handle reaches the
                    // semaphore.
                    let removed = Self::unlink(&name, os);
                    proof {
                        let oreq = choose|req: OsRequest|
                            call_ensures(os, (req,), OsResponse::Handle(sem.id())) && is_open_req(
                                req,
                                name@,
                                open_flags,
                            );
                        assert(call_ensures(os, (oreq,), OsResponse::Handle(sem.id()))
                            && is_open_req(
                            oreq,
                            anon_name_seq(rand@),
                            OpenFlags::Create { exclusive: true, mode: 0o600u32, value: sem_count },
                        ));
                        match removed {
                            Ok(()) => {
                                let ureq = choose|req: OsRequest|
                                    call_ensures(os, (req,), OsResponse::Done) && is_unlink_req(
                                        req,
                                        name@,
                                    );
                                assert(call_ensures(os, (ureq,), OsResponse::Done) && is_unlink_req(
                                    ureq,
                                    anon_name_seq(rand@),
                                ));
                            },
                            Err(e2) => {
                                let ureq = choose|req: OsRequest|
                                    call_ensures(os, (req,), OsResponse::Fail(e2.code))
                                        && is_unlink_req(req, name@);
                                assert(call_ensures(os, (ureq,), OsResponse::Fail(e2.code))
                                    && is_unlink_req(ureq, anon_name_seq(rand@)));
                            },
                        }
                        assert(anonymous_protocol_ok(os, sem.id(), sem_count));
                    }
                    return Ok(sem);
                },
                Err(e) => {
                    // Maybe a genuine collision, maybe a transient resource
                    // or permission problem: either way a fresh name is
                    // free, so try again with one.
                    proof {
                        let oreq = choose|req: OsRequest|
                            call_ensures(os, (req,), OsResponse::Fail(e.code)) && is_open_req(
                                req,
                                name@,
                                open_flags,
                            );
                        assert(is_open_req(
                            oreq,
                            anon_name_seq(rand@),
                            OpenFlags::Create { exclusive: true, mode: 0o600u32, value: sem_count },
                        ));
                        assert(is_anonymous_open_req(oreq, sem_count));
                        assert(anonymous_fail_ev(os, sem_count, e.code));
                    }
                    last = e;
                    tries = tries + 1;
                },
            }
        }
    }
}

/// The host's failed-open sentinel stays out of this crate: an open
/// failure arrives only as a failure answer carrying a code, never as a
/// sentinel handle, so nothing here needs to know that sentinel.
#[allow(non_snake_case)]
pub fn SEM_FAILED_is_missing() {
}

/// The shape of a completed anonymous allocation: some 16 bytes of entropy
/// gave a throwaway name; the service answered its exclusive create with
/// the handle; and the very same name was then handed back to the service
/// to be unlinked before the allocation returned.
pub open spec fn anonymous_protocol_ok<F: Fn(OsRequest) -> OsResponse>(
    os: F,
    handle: u64,
    sem_count: u32,
) -> bool {
    exists|rand: Seq<u8>|
        {
            &&& rand.len() == 16
            &&& name_wf(anon_name_seq(rand))
            &&& anon_name_seq(rand).len() == 24
            &&& exists|req: OsRequest|
                #[trigger] call_ensures(os, (req,), OsResponse::Handle(handle)) && is_open_req(
                    req,
                    #[trigger] anon_name_seq(rand),
                    OpenFlags::Create { exclusive: true, mode: 0o600u32, value: sem_count },
                )
            &&& exists|req: OsRequest, resp: OsResponse|
                #[trigger] call_ensures(os, (req,), resp) && is_unlink_req(req, anon_name_seq(rand))
        }
}

} // verus!
