//! The "ready" capability: a borrow-scoped token that proves a semaphore is
//! initialized, through which all operations are issued.

use crate::os::{service_wf, OsError, OsRequest, OsResponse};
use vstd::prelude::*;
use vstd::string::StringExecFns;

verus! {

/// The character of one decimal digit.
pub open spec fn digit_char(d: nat) -> char {
    if d == 0 {
        '0'
    } else if d == 1 {
        '1'
    } else if d == 2 {
        '2'
    } else if d == 3 {
        '3'
    } else if d == 4 {
        '4'
    } else if d == 5 {
        '5'
    } else if d == 6 {
        '6'
    } else if d == 7 {
        '7'
    } else if d == 8 {
        '8'
    } else {
        '9'
    }
}

/// The decimal rendering of `n`, most significant digit first.
pub open spec fn dec_spec(n: nat) -> Seq<char>
    decreases n,
{
    if n < 10 {
        seq![digit_char(n)]
    } else {
        dec_spec(n / 10) + seq![digit_char(n % 10)]
    }
}

/// The decimal rendering of `v`, a minus sign first when it is negative.
pub open spec fn i32_dec_spec(v: int) -> Seq<char> {
    if v < 0 {
        seq!['-'] + dec_spec((-v) as nat)
    } else {
        dec_spec(v as nat)
    }
}

/// How a semaphore whose count cannot be read shows itself.
pub open spec fn plain_display_spec() -> Seq<char> {
    "<Semaphore>"@
}

/// How an initialized semaphore with count `v` shows itself.
pub open spec fn ready_display_spec(v: i32) -> Seq<char> {
    "<Semaphore value:"@ + i32_dec_spec(v as int) + ">"@
}

/// What a rendering of the semaphore behind `handle` proves: either the
/// service reported a count and the text shows exactly that count, or it
/// refused and the text is the plain form.
pub open spec fn display_ev<F: Fn(OsRequest) -> OsResponse>(
    os: F,
    handle: u64,
    s: Seq<char>,
) -> bool {
    ||| exists|v: i32|
        #[trigger] call_ensures(os, ((OsRequest::GetValue { handle }),), OsResponse::Value(v)) && s
            == ready_display_spec(v)
    ||| exists|c: i32|
        #[trigger] call_ensures(os, ((OsRequest::GetValue { handle }),), OsResponse::Fail(c)) && s
            == plain_display_spec()
}

/// The one-character text of a decimal digit.
fn digit_str(d: u32) -> (s: &'static str)
    requires
        d < 10,
    ensures
        s@ == seq![digit_char(d as nat)],
{
    proof {
        reveal_strlit("0");
        reveal_strlit("1");
        reveal_strlit("2");
        reveal_strlit("3");
        reveal_strlit("4");
        reveal_strlit("5");
        reveal_strlit("6");
        reveal_strlit("7");
        reveal_strlit("8");
        reveal_strlit("9");
    }
    if d == 0 {
        "0"
    } else if d == 1 {
        "1"
    } else if d == 2 {
        "2"
    } else if d == 3 {
        "3"
    } else if d == 4 {
        "4"
    } else if d == 5 {
        "5"
    } else if d == 6 {
        "6"
    } else if d == 7 {
        "7"
    } else if d == 8 {
        "8"
    } else {
        "9"
    }
}

/// Render `n` in decimal, exactly as [`dec_spec`] says.
pub fn u32_decimal(n: u32) -> (s: String)
    ensures
        s@ == dec_spec(n as nat),
    decreases n,
{
    if n < 10 {
        let mut s = String::new();
        s.append(digit_str(n));
        proof {
            assert(s@ =~= dec_spec(n as nat));
        }
        s
    } else {
        let mut s = u32_decimal(n / 10);
        s.append(digit_str(n % 10));
        proof {
            assert(s@ =~= dec_spec(n as nat));
        }
        s
    }
}

/// Render `v` in decimal, exactly as [`i32_dec_spec`] says.
pub fn i32_decimal(v: i32) -> (s: String)
    ensures
        s@ == i32_dec_spec(v as int),
{
    if v >= 0 {
        u32_decimal(v as u32)
    } else {
        let mag: u32 = (-(v as i64)) as u32;
        let mut s = String::new();
        s.append("-");
        let digits = u32_decimal(mag);
        s.append(digits.as_str());
        proof {
            reveal_strlit("-");
            assert(s@ =~= i32_dec_spec(v as int));
        }
        s
    }
}

/// A borrow of a semaphore that is known to be initialized and so valid to
/// operate on.
///
/// A value of this type can only be obtained from a container whose
/// initialization has succeeded, or from an already-open named semaphore,
/// and it borrows that container: the container cannot be torn down while a
/// reference to it is alive.  It is freely copyable, like the borrow it
/// stands for.
#[derive(Clone, Copy, Debug)]
pub struct SemaphoreRef<'l> {
    handle: u64,
    _life: core::marker::PhantomData<&'l u8>,
}

impl<'l> SemaphoreRef<'l> {
    /// The service handle this reference operates on.
    pub closed spec fn id(&self) -> u64 {
        self.handle
    }

    /// Wrap a handle whose object the caller knows to be initialized.
    pub(crate) fn from_handle(handle: u64) -> (r: Self)
        ensures
            r.id() == handle,
    {
        SemaphoreRef { handle, _life: core::marker::PhantomData }
    }

    /// Increment the semaphore's count.
    ///
    /// Succeeds exactly when the service does; the typical failure is that
    /// the maximum representable count would be exceeded, classified
    /// [`Overflow`](crate::os::ErrKind::Overflow).
    pub fn post<F: Fn(OsRequest) -> OsResponse>(&self, os: F) -> (r: Result<(), OsError>)
        requires
            service_wf(os),
        ensures
            r matches Ok(()) ==> call_ensures(
                os,
                ((OsRequest::Post { handle: self.id() }),),
                OsResponse::Done,
            ),
            r matches Err(e) ==> call_ensures(
                os,
                ((OsRequest::Post { handle: self.id() }),),
                OsResponse::Fail(e.code),
            ),
    {
        match os(OsRequest::Post { handle: self.handle }) {
            OsResponse::Done => Ok(()),
            OsResponse::Fail(code) => Err(OsError { code }),
            _ => Err(OsError { code: 0 }),
        }
    }

    /// Decrement the semaphore's count, blocking the calling thread while
    /// the count is zero.
    ///
    /// Fails only if the service reports an interruption, classified
    /// [`Interrupted`](crate::os::ErrKind::Interrupted); the caller may
    /// retry.
    pub fn wait<F: Fn(OsRequest) -> OsResponse>(&self, os: F) -> (r: Result<(), OsError>)
        requires
            service_wf(os),
        ensures
            r matches Ok(()) ==> call_ensures(
                os,
                ((OsRequest::Wait { handle: self.id() }),),
                OsResponse::Done,
            ),
            r matches Err(e) ==> call_ensures(
                os,
                ((OsRequest::Wait { handle: self.id() }),),
                OsResponse::Fail(e.code),
            ),
    {
        match os(OsRequest::Wait { handle: self.handle }) {
            OsResponse::Done => Ok(()),
            OsResponse::Fail(code) => Err(OsError { code }),
            _ => Err(OsError { code: 0 }),
        }
    }

    /// Decrement the semaphore's count, failing instead of blocking: a zero
    /// count is reported as a failure classified
    /// [`WouldBlock`](crate::os::ErrKind::WouldBlock).
    pub fn try_wait<F: Fn(OsRequest) -> OsResponse>(&self, os: F) -> (r: Result<(), OsError>)
        requires
            service_wf(os),
        ensures
            r matches Ok(()) ==> call_ensures(
                os,
                ((OsRequest::TryWait { handle: self.id() }),),
                OsResponse::Done,
            ),
            r matches Err(e) ==> call_ensures(
                os,
                ((OsRequest::TryWait { handle: self.id() }),),
                OsResponse::Fail(e.code),
            ),
    {
        match os(OsRequest::TryWait { handle: self.handle }) {
            OsResponse::Done => Ok(()),
            OsResponse::Fail(code) => Err(OsError { code }),
            _ => Err(OsError { code: 0 }),
        }
    }

    /// Report the semaphore's current count: advisory only under concurrent
    /// modification.
    pub fn get_value<F: Fn(OsRequest) -> OsResponse>(&self, os: F) -> (r: Result<i32, OsError>)
        requires
            service_wf(os),
        ensures
            r matches Ok(v) ==> call_ensures(
                os,
                ((OsRequest::GetValue { handle: self.id() }),),
                OsResponse::Value(v),
            ),
            r matches Err(e) ==> call_ensures(
                os,
                ((OsRequest::GetValue { handle: self.id() }),),
                OsResponse::Fail(e.code),
            ),
    {
        match os(OsRequest::GetValue { handle: self.handle }) {
            OsResponse::Value(v) => Ok(v),
            OsResponse::Fail(code) => Err(OsError { code }),
            _ => Err(OsError { code: 0 }),
        }
    }

    /// A human-readable rendering: the semaphore's current count if the
    /// service reports one, the plain form otherwise.
    pub fn display<F: Fn(OsRequest) -> OsResponse>(&self, os: F) -> (s: String)
        requires
            service_wf(os),
        ensures
            display_ev(os, self.id(), s@),
    {
        match self.get_value(os) {
            Ok(v) => {
                let mut s = String::new();
                s.append("<Semaphore value:");
                let digits = i32_decimal(v);
                s.append(digits.as_str());
                s.append(">");
                proof {
                    assert(s@ =~= ready_display_spec(v));
                }
                s
            },
            Err(_) => {
                let mut s = String::new();
                s.append("<Semaphore>");
                proof {
                    assert(s@ =~= plain_display_spec());
                }
                s
            },
        }
    }
}

/// Two references are equal exactly when they operate on the same handle,
/// that is, on the same underlying object of the service.
impl<'l> PartialEq for SemaphoreRef<'l> {
    fn eq(&self, other: &Self) -> (r: bool) {
        self.handle == other.handle
    }
}

impl<'l> Eq for SemaphoreRef<'l> {

}

impl<'l> vstd::std_specs::cmp::PartialEqSpecImpl for SemaphoreRef<'l> {
    open spec fn obeys_eq_spec() -> bool {
        true
    }

    open spec fn eq_spec(&self, other: &Self) -> bool {
        self.id() == other.id()
    }
}

} // verus!
