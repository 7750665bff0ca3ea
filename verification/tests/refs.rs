use sem_safe::os::{OsRequest, OsResponse};
use sem_safe::unnamed::Semaphore;

fn handing_out(h: u64) -> impl Fn(OsRequest) -> OsResponse + Copy {
    move |req: OsRequest| -> OsResponse {
        match req {
            OsRequest::Init { .. } => OsResponse::Handle(h),
            OsRequest::Open { .. } => OsResponse::Handle(h),
            OsRequest::GetValue { .. } => OsResponse::Value(0),
            _ => OsResponse::Done,
        }
    }
}

#[test]
fn eq() {
    let mut sem1 = Semaphore::uninit();
    let mut sem2 = Semaphore::uninit();
    let sr1 = sem1.init(handing_out(1)).unwrap();
    let sr2 = sem2.init(handing_out(2)).unwrap();
    assert_eq!(sr1, sr1);
    assert_ne!(sr1, sr2);
    assert_eq!(sr2, sr2);
    assert_ne!(sr2, sr1);
}

#[test]
fn eq_same_object() {
    // Two references to the same underlying object compare equal, however
    // they were obtained.
    let mut sem = Semaphore::uninit();
    let sr1 = sem.init(handing_out(4)).unwrap();
    let sr2 = sr1;
    assert_eq!(sr1, sr2);
}
