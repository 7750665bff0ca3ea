use sem_safe::os::{OsRequest, OsResponse};
use sem_safe::plaster::non_named::Semaphore;

fn granting_plaster(req: OsRequest) -> OsResponse {
    match req {
        OsRequest::Init { .. } => OsResponse::Handle(3),
        OsRequest::Open { .. } => OsResponse::Handle(3),
        OsRequest::GetValue { .. } => OsResponse::Value(0),
        _ => OsResponse::Done,
    }
}

#[test]
fn plaster_drop() {
    let mut sem = Some(Semaphore::uninit());
    sem.as_mut().unwrap().init(granting_plaster).unwrap();
    let torn = sem.take().unwrap().teardown(granting_plaster);
    assert_eq!(torn, Some(Ok(())));
}
