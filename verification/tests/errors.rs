use sem_safe::counter::{Counter, WaitOutcome};
use sem_safe::os::{ErrKind, OsError};

#[test]
fn errno_classification() {
    assert_eq!(OsError { code: libc::EAGAIN }.kind(), ErrKind::WouldBlock);
    assert_eq!(OsError { code: libc::EINTR }.kind(), ErrKind::Interrupted);
    assert_eq!(OsError { code: libc::EEXIST }.kind(), ErrKind::AlreadyExists);
    assert_eq!(OsError { code: libc::ENOENT }.kind(), ErrKind::NotFound);
    assert_eq!(OsError { code: libc::EINVAL }.kind(), ErrKind::InvalidArgument);
    assert_eq!(OsError { code: libc::EMFILE }.kind(), ErrKind::ResourceLimit);
    assert_eq!(OsError { code: libc::ENFILE }.kind(), ErrKind::ResourceLimit);
    assert_eq!(OsError { code: libc::ENOMEM }.kind(), ErrKind::ResourceLimit);
    assert_eq!(OsError { code: libc::ENOSPC }.kind(), ErrKind::ResourceLimit);
    assert_eq!(OsError { code: libc::EOVERFLOW }.kind(), ErrKind::Overflow);
    assert_eq!(OsError { code: 9999 }.kind(), ErrKind::Other);
}

#[test]
fn counter_model() {
    let mut c = Counter::new(1, 2);
    assert_eq!(c.value(), 1);
    c.post().unwrap();
    let e = c.post().unwrap_err();
    assert_eq!(e.kind(), ErrKind::Overflow);
    assert_eq!(c.value(), 2);
    c.try_wait().unwrap();
    c.try_wait().unwrap();
    let e = c.try_wait().unwrap_err();
    assert_eq!(e.kind(), ErrKind::WouldBlock);
    assert_eq!(c.wait(), WaitOutcome::Blocked);
    c.post().unwrap();
    assert_eq!(c.wait(), WaitOutcome::Completed);
    assert_eq!(c.value(), 0);
}
