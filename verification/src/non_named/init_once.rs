//! A minimal exactly-once guard: the one piece of mutable state that
//! serializes initialization attempts on a semaphore container.
//!
//! The guard is a tri-state machine `Uninitialized -> Preparing -> Ready`.
//! `Preparing` is entered by the single attempt that wins the race to
//! initialize, and `Ready` only when that attempt's guarded work succeeds.
//! There is no transition back: a failed attempt leaves the guard stuck in
//! `Preparing`, because retrying an OS-level initialization after a real
//! error is rarely correct.

use vstd::prelude::*;

verus! {

/// The three phases of an [`InitOnce`] guard.
#[derive(Clone, Copy, Debug, PartialEq, Eq, Structural)]
pub enum OnceState {
    /// No initialization attempt has started.
    Uninitialized,
    /// An attempt has started; it either still runs or has failed for good.
    Preparing,
    /// The guarded initialization work completed successfully.
    Ready,
}

/// How the guard moves on one initialization attempt: only the attempt that
/// finds the guard `Uninitialized` changes it, to `Ready` on success of the
/// guarded work and to `Preparing` (for good) on failure.
pub open spec fn once_step(s: OnceState, work_succeeded: bool) -> OnceState {
    match s {
        OnceState::Uninitialized => if work_succeeded {
            OnceState::Ready
        } else {
            OnceState::Preparing
        },
        _ => s,
    }
}

/// The guard state after a whole sequence of initialization attempts, the
/// success of each attempt's guarded work given by one element of `evs`.
pub open spec fn once_run(s: OnceState, evs: Seq<bool>) -> OnceState
    decreases evs.len(),
{
    if evs.len() == 0 {
        s
    } else {
        once_run(once_step(s, evs[0]), evs.subrange(1, evs.len() as int))
    }
}

/// How many attempts of `evs` run the guarded work at all (each such attempt
/// found the guard `Uninitialized`).
pub open spec fn once_winners(s: OnceState, evs: Seq<bool>) -> nat
    decreases evs.len(),
{
    if evs.len() == 0 {
        0
    } else {
        (if s is Uninitialized {
            1nat
        } else {
            0nat
        }) + once_winners(once_step(s, evs[0]), evs.subrange(1, evs.len() as int))
    }
}

/// Among any sequence of initialization attempts, at most one runs the
/// guarded work, and none does once the guard has left `Uninitialized`.
pub proof fn lemma_at_most_one_winner(s: OnceState, evs: Seq<bool>)
    ensures
        once_winners(s, evs) <= 1,
        !(s is Uninitialized) ==> once_winners(s, evs) == 0,
    decreases evs.len(),
{
    if evs.len() > 0 {
        lemma_at_most_one_winner(once_step(s, evs[0]), evs.subrange(1, evs.len() as int));
    }
}

/// How many attempts of `evs` succeed outright: each such attempt ran the
/// guarded work, and the work succeeded.
pub open spec fn once_successes(s: OnceState, evs: Seq<bool>) -> nat
    decreases evs.len(),
{
    if evs.len() == 0 {
        0
    } else {
        (if s is Uninitialized && evs[0] {
            1nat
        } else {
            0nat
        }) + once_successes(once_step(s, evs[0]), evs.subrange(1, evs.len() as int))
    }
}

/// Among any sequence of initialization attempts, exactly one can succeed:
/// at most one does, and starting from a fresh guard, the guard reads
/// `Ready` afterwards exactly when one did — so every observer that checks
/// after the success sees it.
pub proof fn lemma_exactly_one_success(s: OnceState, evs: Seq<bool>)
    ensures
        once_successes(s, evs) <= 1,
        !(s is Ready) ==> (once_run(s, evs) is Ready <==> once_successes(s, evs) == 1),
        s is Ready ==> once_run(s, evs) is Ready && once_successes(s, evs) == 0,
    decreases evs.len(),
{
    if evs.len() > 0 {
        lemma_exactly_one_success(once_step(s, evs[0]), evs.subrange(1, evs.len() as int));
    }
}

/// Once the guard is `Ready` it stays `Ready`, whatever attempts follow: an
/// observer that has seen a successful initialization keeps seeing it.
pub proof fn lemma_ready_is_forever(evs: Seq<bool>)
    ensures
        once_run(OnceState::Ready, evs) == OnceState::Ready,
    decreases evs.len(),
{
    if evs.len() > 0 {
        lemma_ready_is_forever(evs.subrange(1, evs.len() as int));
    }
}

/// The exactly-once guard itself.
#[derive(Debug)]
pub struct InitOnce {
    status: OnceState,
}

impl View for InitOnce {
    type V = OnceState;

    closed spec fn view(&self) -> OnceState {
        self.status
    }
}

impl InitOnce {
    /// A fresh guard: no initialization attempt has started.
    pub fn new() -> (r: Self)
        ensures
            r@ is Uninitialized,
    {
        InitOnce { status: OnceState::Uninitialized }
    }

    /// Run `f` if and only if no earlier call got to run it.
    ///
    /// The caller that finds the guard `Uninitialized` runs `f` and receives
    /// `Some` of its result; the guard then reads `Ready` exactly when `f`
    /// succeeded.  Every other caller receives `None` and changes nothing,
    /// whether the earlier attempt succeeded or failed.
    pub fn call_once<T, E, F: FnOnce() -> Result<T, E>>(&mut self, f: F) -> (r: Option<
        Result<T, E>,
    >)
        requires
            old(self)@ is Uninitialized ==> call_requires(f, ()),
        ensures
            final(self)@ == once_step(old(self)@, r matches Some(Ok(_))),
            r is Some <==> old(self)@ is Uninitialized,
            r is None ==> *final(self) == *old(self),
            r matches Some(res) ==> call_ensures(f, (), res),
    {
        match self.status {
            OnceState::Uninitialized => {
                self.status = OnceState::Preparing;
                let res = f();
                if res.is_ok() {
                    self.status = OnceState::Ready;
                }
                Some(res)
            },
            _ => None,
        }
    }

    /// Whether a guarded initialization has successfully completed.
    pub fn is_ready(&self) -> (r: bool)
        ensures
            r == (self@ is Ready),
    {
        match self.status {
            OnceState::Ready => true,
            _ => false,
        }
    }
}

} // verus!
