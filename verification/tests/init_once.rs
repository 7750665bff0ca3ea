use sem_safe::non_named::init_once::InitOnce;

#[test]
fn is_ready() {
    let mut x = InitOnce::new();
    assert!(!x.is_ready());
    let r1 = x.call_once(|| Result::<_, ()>::Ok(1 + 1));
    assert_eq!(r1, Some(Ok(2)));
    assert!(x.is_ready());
    let r2: Option<Result<(), bool>> = x.call_once(|| unreachable!());
    assert!(r2.is_none());
    assert!(x.is_ready());
    let r3: Option<Result<bool, i32>> = x.call_once(|| unreachable!());
    assert!(r3.is_none());
    assert!(x.is_ready());
}

#[test]
fn failure_isnt_ready() {
    let mut x = InitOnce::new();
    let r1 = x.call_once(|| Result::<(), _>::Err(()));
    assert_eq!(r1, Some(Err(())));
    assert!(!x.is_ready());
    // The guard is stuck preparing: no later call runs its work, yet the
    // guard never reads ready either.
    let r2: Option<Result<(), ()>> = x.call_once(|| unreachable!());
    assert!(r2.is_none());
    assert!(!x.is_ready());
    let r3: Option<Result<(), ()>> = x.call_once(|| unreachable!());
    assert!(r3.is_none());
    assert!(!x.is_ready());
}
