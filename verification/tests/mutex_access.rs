use async_lock::mutex::{hand_back, open_access, wait_report};
use async_lock::notify::Signal;
use std::sync::Arc;
use std::time::Duration;
use tokio::sync::Notify;

fn has_permit(n: &Arc<Notify>) -> bool {
    let rt = tokio::runtime::Builder::new_current_thread()
        .enable_time()
        .build()
        .unwrap();
    rt.block_on(async {
        tokio::time::timeout(Duration::from_millis(30), n.notified())
            .await
            .is_ok()
    })
}

#[test]
fn wait_report_is_silent_without_a_wait() {
    assert_eq!(wait_report(0), None);
}

#[test]
fn wait_report_gives_the_milliseconds_waited() {
    assert_eq!(wait_report(1), Some(1));
    assert_eq!(wait_report(250), Some(250));
    assert_eq!(wait_report(u128::MAX), Some(u128::MAX));
}

#[test]
fn open_access_holds_one_permit() {
    let (access, wake) = open_access();
    assert!(matches!(wake.sent(), Signal::One(n) if Arc::ptr_eq(n, &access)));
    assert!(has_permit(&access));
    // the permit was consumed: a second lock waits
    assert!(!has_permit(&access));
}

#[test]
fn hand_back_stores_the_permit_again() {
    let (access, _) = open_access();
    assert!(has_permit(&access));
    let wake = hand_back(&access);
    assert!(matches!(wake.sent(), Signal::One(n) if Arc::ptr_eq(n, &access)));
    assert!(has_permit(&access));
    assert!(!has_permit(&access));
}

#[test]
fn hand_back_twice_stores_a_single_permit() {
    let access = Arc::new(Notify::new());
    hand_back(&access);
    hand_back(&access);
    assert!(has_permit(&access));
    assert!(!has_permit(&access));
}

#[test]
fn quiet_record_names_no_signal() {
    let w = async_lock::notify::Wake::quiet();
    assert!(matches!(w.sent(), Signal::Quiet));
}
