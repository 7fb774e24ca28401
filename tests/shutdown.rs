use tokio_shutdown::{AlreadyCreatedError, CreationFlag, Shutdown};

fn runtime() -> tokio::runtime::Runtime {
    tokio::runtime::Builder::new_current_thread()
        .build()
        .expect("build a current-thread runtime")
}

#[test]
fn fail_create_two_instances() {
    let mut flag = CreationFlag::new();
    assert!(Shutdown::new(&mut flag).is_ok());
    assert_eq!(Some(AlreadyCreatedError), Shutdown::new(&mut flag).err());
}

#[test]
fn every_later_creation_fails() {
    let mut flag = CreationFlag::new();
    assert!(!flag.is_created());
    assert!(Shutdown::new(&mut flag).is_ok());
    assert!(flag.is_created());
    for _ in 0..5 {
        assert_eq!(Some(AlreadyCreatedError), Shutdown::new(&mut flag).err());
        assert!(flag.is_created());
    }
}

#[test]
fn claim_succeeds_once() {
    let mut flag = CreationFlag::new();
    assert_eq!(Ok(()), flag.try_claim());
    assert!(flag.is_created());
    assert_eq!(Err(AlreadyCreatedError), flag.try_claim());
    assert_eq!(Err(AlreadyCreatedError), flag.try_claim());
    assert!(flag.is_created());
}

#[test]
fn error_message() {
    assert_eq!("shutdown handler already created", AlreadyCreatedError.message());
}

#[test]
fn all_waiters_resolve_on_one_notification() {
    let mut flag = CreationFlag::new();
    let (shutdown, watcher) = Shutdown::new(&mut flag).expect("first creation succeeds");
    let rt = runtime();
    rt.block_on(async move {
        let mut tasks = Vec::new();
        for i in 0..16 {
            let handle = if i % 2 == 0 { shutdown.clone() } else { shutdown.clone().clone() };
            let mut rx = handle.receiver();
            tasks.push(tokio::spawn(async move { rx.changed().await }));
        }
        tokio::task::yield_now().await;
        watcher.notify();
        for task in tasks {
            assert_eq!(Ok(()), task.await.expect("waiter task completes").map_err(|_| ()));
        }
    });
}

#[test]
fn late_waiter_resolves_at_once() {
    let mut flag = CreationFlag::new();
    let (shutdown, watcher) = Shutdown::new(&mut flag).expect("first creation succeeds");
    let early = shutdown.receiver();
    watcher.notify();
    let mut late = shutdown.clone().receiver();
    let mut again = shutdown.receiver();
    let rt = runtime();
    rt.block_on(async move {
        assert!(late.changed().await.is_ok());
        assert!(again.changed().await.is_ok());
    });
    drop(early);
}

#[test]
fn waiter_stays_pending_before_notification() {
    let mut flag = CreationFlag::new();
    let (shutdown, watcher) = Shutdown::new(&mut flag).expect("first creation succeeds");
    let rx = shutdown.receiver();
    assert_eq!(Ok(false), rx.has_changed().map_err(|_| ()));
    watcher.notify();
    let mut rx = rx;
    let rt = runtime();
    rt.block_on(async move {
        assert!(rx.changed().await.is_ok());
    });
}

#[test]
fn cloning_creates_no_second_watcher() {
    let mut flag = CreationFlag::new();
    let (shutdown, watcher) = Shutdown::new(&mut flag).expect("first creation succeeds");
    let clones: Vec<Shutdown> = (0..100).map(|_| shutdown.clone()).collect();
    assert_eq!(Some(AlreadyCreatedError), Shutdown::new(&mut flag).err());
    watcher.notify();
    let rt = runtime();
    rt.block_on(async move {
        for handle in clones {
            let mut rx = handle.receiver();
            assert!(rx.changed().await.is_ok());
        }
    });
}
