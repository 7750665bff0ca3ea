use sem_safe::os::{OsRequest, OsResponse};
use sem_safe::unnamed::Semaphore;
use std::cell::RefCell;

#[test]
fn drop_and_reinit() {
    let start = RefCell::new(0i32);
    let svc = |req: OsRequest| -> OsResponse {
        match req {
            OsRequest::Init { value, .. } => {
                *start.borrow_mut() = value as i32;
                OsResponse::Handle(1)
            },
            OsRequest::GetValue { .. } => OsResponse::Value(*start.borrow()),
            _ => OsResponse::Done,
        }
    };

    // Tear down while uninitialized: no service call is due.
    let sem = Semaphore::uninit();
    assert!(sem.teardown(svc).is_none());

    let mut sem = Semaphore::uninit();
    {
        let is_shared = true;
        let sem_ref = sem.init_with(is_shared, 1, svc).unwrap();
        assert_eq!(sem_ref.get_value(svc).unwrap(), 1);
    }
    // Tear down while initialized: the object is destroyed.
    assert!(sem.teardown(svc).is_some());

    let mut sem = Semaphore::uninit();
    {
        let sem_ref = sem.init_with(false, 2, svc).unwrap();
        assert_eq!(sem_ref.get_value(svc).unwrap(), 2);
    }
    assert!(sem.teardown(svc).is_some());

    // A fresh container is uninitialized again.
    let sem = Semaphore::uninit();
    assert!(sem.sem_ref().is_err());
}
