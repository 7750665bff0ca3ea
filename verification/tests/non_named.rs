use sem_safe::counter::{Counter, WaitOutcome};
use sem_safe::non_named;
use sem_safe::os::{ErrKind, OsRequest, OsResponse};
use sem_safe::unnamed::Semaphore;
use std::cell::RefCell;

/// A single-semaphore host backed by the crate's counter model.
struct CountingHost {
    counter: RefCell<Option<Counter>>,
}

impl CountingHost {
    fn new() -> Self {
        CountingHost { counter: RefCell::new(None) }
    }

    fn service(&self) -> impl Fn(OsRequest) -> OsResponse + Copy + '_ {
        move |req: OsRequest| -> OsResponse {
            match req {
                OsRequest::Init { value, .. } => {
                    if value > i32::MAX as u32 {
                        OsResponse::Fail(libc::EINVAL)
                    } else {
                        *self.counter.borrow_mut() = Some(Counter::new(value, i32::MAX as u32));
                        OsResponse::Handle(1)
                    }
                },
                OsRequest::Post { .. } => match self.counter.borrow_mut().as_mut() {
                    Some(c) => match c.post() {
                        Ok(()) => OsResponse::Done,
                        Err(e) => OsResponse::Fail(e.code),
                    },
                    None => OsResponse::Fail(libc::EINVAL),
                },
                OsRequest::Wait { .. } => match self.counter.borrow_mut().as_mut() {
                    Some(c) => match c.wait() {
                        WaitOutcome::Completed => OsResponse::Done,
                        WaitOutcome::Blocked => panic!("a real host would block here"),
                    },
                    None => OsResponse::Fail(libc::EINVAL),
                },
                OsRequest::TryWait { .. } => match self.counter.borrow_mut().as_mut() {
                    Some(c) => match c.try_wait() {
                        Ok(()) => OsResponse::Done,
                        Err(e) => OsResponse::Fail(e.code),
                    },
                    None => OsResponse::Fail(libc::EINVAL),
                },
                OsRequest::GetValue { .. } => match self.counter.borrow_mut().as_mut() {
                    Some(c) => OsResponse::Value(c.value() as i32),
                    None => OsResponse::Fail(libc::EINVAL),
                },
                OsRequest::Destroy { .. } | OsRequest::Close { .. } => OsResponse::Done,
                OsRequest::Open { .. } | OsRequest::Unlink { .. } => {
                    OsResponse::Fail(libc::ENOENT)
                },
            }
        }
    }
}

#[test]
fn non_named_init_only_once() {
    let host = CountingHost::new();
    let mut semaphore = Semaphore::uninit();
    assert!(semaphore.sem_ref().is_err());
    semaphore.init(host.service()).unwrap();
    assert!(semaphore.sem_ref().is_ok());
    assert_eq!(semaphore.init(host.service()), Err(true));
    assert!(semaphore.sem_ref().is_ok());
}

#[test]
fn non_named_init_failure() {
    let host = CountingHost::new();
    let mut semaphore = Semaphore::uninit();
    // This value exceeds the largest count the host can represent.
    let excessive_value = u32::MAX;
    assert!(semaphore.sem_ref().is_err());
    let r = semaphore.init_with(false, excessive_value, host.service());
    assert_eq!(r, Err(false));
    let preserved = semaphore.init_error().unwrap();
    assert_eq!(preserved.code, libc::EINVAL);
    assert_eq!(preserved.kind(), ErrKind::InvalidArgument);
    assert!(semaphore.sem_ref().is_err());
}

#[test]
fn try_init_failure() {
    let host = CountingHost::new();
    let mut sem = Semaphore::uninit();
    // This value exceeds the largest count the host can represent.
    let excessive_value = u32::MAX;
    let r = sem.try_init_with(u64::MAX, false, excessive_value, host.service());
    assert!(r.is_none());
}

#[test]
fn generic() {
    fn s(sem: &mut non_named::Semaphore, host: &CountingHost) {
        {
            let ref1 = sem.init(host.service()).unwrap();
            let r = ref1.try_wait(host.service());
            let e = r.unwrap_err();
            assert_eq!(e.code, libc::EAGAIN);
            assert_eq!(e.kind(), ErrKind::WouldBlock);
            ref1.post(host.service()).unwrap();
        }
        let ref2 = sem.try_init(0, host.service()).unwrap();
        ref2.try_wait(host.service()).unwrap();
    }

    let host = CountingHost::new();
    let mut sem = non_named::Semaphore::default();
    s(&mut sem, &host);

    let host2 = CountingHost::new();
    let mut sem2 = non_named::Semaphore::unnamed();
    s(&mut sem2, &host2);
}

#[test]
fn signal_then_wait() {
    // A signal followed by a wait on the same object, single-threaded: the
    // wait completes at once.  The host panics where a real one would
    // block, so completing proves no blocking happened.
    let host = CountingHost::new();
    let mut sem = Semaphore::uninit();
    let r = sem.init(host.service()).unwrap();
    r.post(host.service()).unwrap();
    r.wait(host.service()).unwrap();
    assert_eq!(r.get_value(host.service()).unwrap(), 0);
}

#[test]
fn try_wait_zero_would_block() {
    // A try-wait on a zero count never blocks: it reports the would-block
    // classification at once and consumes nothing.
    let host = CountingHost::new();
    let mut sem = Semaphore::uninit();
    let r = sem.init(host.service()).unwrap();
    let e = r.try_wait(host.service()).unwrap_err();
    assert_eq!(e.code, libc::EAGAIN);
    assert_eq!(e.kind(), ErrKind::WouldBlock);
    assert_eq!(r.get_value(host.service()).unwrap(), 0);
}

#[test]
fn counts_after_signals_and_waits() {
    // Start at one, four signals, then three waits: the final count is
    // 1 + 4 - 3 = 2.
    let host = CountingHost::new();
    let mut sem = Semaphore::uninit();
    let r = sem.init_with(false, 1, host.service()).unwrap();
    r.post(host.service()).unwrap();
    r.post(host.service()).unwrap();
    r.post(host.service()).unwrap();
    r.post(host.service()).unwrap();
    r.try_wait(host.service()).unwrap();
    r.wait(host.service()).unwrap();
    r.wait(host.service()).unwrap();
    assert_eq!(r.get_value(host.service()).unwrap(), 2);
}

#[test]
fn teardown_uninitialized_performs_no_call() {
    // A container that never left the uninitialized state performs no
    // service call on teardown: a service that refuses every request by
    // panicking is never reached.
    let sem = Semaphore::uninit();
    let untouchable = |_req: OsRequest| -> OsResponse { panic!("the service must not be called") };
    assert!(sem.teardown(untouchable).is_none());

    let anon = sem_safe::anonymous::Semaphore::uninit();
    assert!(anon.teardown(untouchable).is_none());

    let either = non_named::Semaphore::anonymous();
    assert!(either.teardown(untouchable).is_none());
}

#[test]
fn teardown_ready_destroys() {
    let host = CountingHost::new();
    let mut sem = Semaphore::uninit();
    sem.init(host.service()).unwrap();
    assert_eq!(sem.teardown(host.service()), Some(Ok(())));
}

#[test]
fn non_named_fmt() {
    let host = CountingHost::new();
    let mut semaphore = non_named::Semaphore::default();
    println!("Displayed uninit: {}", semaphore.display(host.service()));
    assert_eq!(semaphore.display(host.service()), "<Semaphore>");
    semaphore.init_with(false, 123, host.service()).unwrap();
    println!("Displayed ready: {}", semaphore.display(host.service()));
    assert_eq!(semaphore.display(host.service()), "<Semaphore value:123>");
    println!("Displayed ref: {}", semaphore.sem_ref().unwrap().display(host.service()));
}

#[test]
fn negative_count_rendering() {
    // A host that reports a negative advisory count is rendered with the
    // minus sign.
    let odd = |req: OsRequest| -> OsResponse {
        match req {
            OsRequest::Init { .. } => OsResponse::Handle(1),
            OsRequest::GetValue { .. } => OsResponse::Value(-27),
            _ => OsResponse::Done,
        }
    };
    let mut sem = Semaphore::uninit();
    let r = sem.init(odd).unwrap();
    assert_eq!(r.display(odd), "<Semaphore value:-27>");
}

#[test]
fn try_init_after_failure() {
    // After a failed attempt the guard is stuck: polling cannot make the
    // container ready, however long the budget.
    let host = CountingHost::new();
    let mut sem = Semaphore::uninit();
    assert_eq!(sem.init_with(false, u32::MAX, host.service()), Err(false));
    assert!(sem.try_init(1000, host.service()).is_none());
    assert!(sem.sem_ref().is_err());
}
