use core::time::Duration;
use pki_types::UnixTime;

#[test]
fn since_epoch_whole_seconds() {
    let t = UnixTime::since_unix_epoch(Duration::from_secs(1700000000));
    assert_eq!(t.as_secs(), 1700000000);
    assert_eq!(UnixTime::since_unix_epoch(Duration::ZERO).as_secs(), 0);
    assert_eq!(UnixTime::since_unix_epoch(Duration::from_secs(u64::MAX)).as_secs(), u64::MAX);
}

#[test]
fn since_epoch_drops_the_fraction() {
    let t = UnixTime::since_unix_epoch(Duration::from_secs_f64(1700000000.75));
    assert_eq!(t.as_secs(), 1700000000);
    let t = UnixTime::since_unix_epoch(Duration::from_millis(2999));
    assert_eq!(t.as_secs(), 2);
}

#[test]
fn times_order_numerically() {
    let early = UnixTime::since_unix_epoch(Duration::from_secs(10));
    let late = UnixTime::since_unix_epoch(Duration::from_secs(11));
    assert!(early < late);
    assert!(late > early);
    assert!(early <= early);
    assert_eq!(early, UnixTime::since_unix_epoch(Duration::from_millis(10500)));
    assert_eq!(early.partial_cmp(&late), Some(core::cmp::Ordering::Less));
}

#[test]
fn now_is_after_the_epoch() {
    let now = UnixTime::now();
    assert!(now.as_secs() > 1700000000);
}
