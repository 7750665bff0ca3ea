use sem_safe::os::{ErrKind, OsRequest, OsResponse};
use sem_safe::plaster::non_named::Semaphore;

fn granting(req: OsRequest) -> OsResponse {
    match req {
        OsRequest::Init { .. } => OsResponse::Handle(7),
        OsRequest::Open { .. } => OsResponse::Handle(7),
        OsRequest::GetValue { .. } => OsResponse::Value(0),
        _ => OsResponse::Done,
    }
}

fn init_rejecting(req: OsRequest) -> OsResponse {
    match req {
        OsRequest::Init { .. } => OsResponse::Fail(libc::EINVAL),
        OsRequest::Open { .. } => OsResponse::Fail(libc::EINVAL),
        OsRequest::GetValue { .. } => OsResponse::Value(0),
        _ => OsResponse::Done,
    }
}

#[test]
fn usage_init_only_once() {
    let mut semaphore = Semaphore::uninit();
    semaphore.sem_ref().unwrap_err();
    semaphore.init(granting).unwrap();
    semaphore.sem_ref().unwrap();
    assert_eq!(semaphore.init(granting), Err(true));
    semaphore.sem_ref().unwrap();
}

#[test]
fn usage_init_failure() {
    let mut semaphore = Semaphore::uninit();
    // This value would exceed the largest count the host can represent, so
    // the service rejects it as an invalid argument.
    let excessive_value = u32::MAX;
    semaphore.sem_ref().unwrap_err();
    assert_eq!(semaphore.init_with(false, excessive_value, init_rejecting), Err(false));
    semaphore.sem_ref().unwrap_err();
    let preserved = semaphore.init_error().unwrap();
    assert_eq!(preserved.code, libc::EINVAL);
    assert_eq!(preserved.kind(), ErrKind::InvalidArgument);
}

#[test]
fn usage_fmt() {
    let start = std::cell::RefCell::new(0i32);
    let svc = |req: OsRequest| -> OsResponse {
        match req {
            OsRequest::Init { value, .. } => {
                *start.borrow_mut() = value as i32;
                OsResponse::Handle(1)
            },
            OsRequest::GetValue { .. } => OsResponse::Value(*start.borrow()),
            _ => OsResponse::Done,
        }
    };
    let mut semaphore = Semaphore::uninit();
    println!("Displayed uninit: {}", semaphore.display(svc));
    assert_eq!(semaphore.display(svc), "<Semaphore>");
    semaphore.init_with(false, 123, svc).unwrap();
    println!("Displayed ready: {}", semaphore.display(svc));
    assert_eq!(semaphore.display(svc), "<Semaphore value:123>");
    semaphore.sem_ref().unwrap();
    println!("Displayed ref: {}", semaphore.sem_ref().unwrap().display(svc));
    assert_eq!(semaphore.sem_ref().unwrap().display(svc), "<Semaphore value:123>");
}
