use sem_safe::anonymous::Semaphore;
use sem_safe::os::{OsRequest, OsResponse};

fn static_assert_unpin(_: &impl Unpin) {}

fn minting(req: OsRequest) -> OsResponse {
    match req {
        OsRequest::Init { .. } => OsResponse::Handle(5),
        OsRequest::Open { .. } => OsResponse::Handle(5),
        OsRequest::GetValue { .. } => OsResponse::Value(0),
        _ => OsResponse::Done,
    }
}

#[test]
fn is_unpin() {
    let sem = Semaphore::default();
    static_assert_unpin(&sem);
}

#[test]
fn methods_still_need_pin() {
    let mut sem = Semaphore::default();
    sem.init(minting).unwrap();
    sem.try_init(0, minting).unwrap();
    sem.sem_ref().unwrap();
}

#[test]
fn anonymous_drop() {
    let mut sem = Semaphore::uninit();
    sem.init(minting).unwrap();
    assert_eq!(sem.teardown(minting), Some(Ok(())));
    let sem = Semaphore::uninit();
    assert!(sem.sem_ref().is_err());
}
