use viber_alerts::quota::{QuotaTracker, ServiceQuota};

fn q(w: u16, b: u16) -> ServiceQuota {
    ServiceQuota { weather_count: w, btc_count: b }
}

#[test]
fn default_quota_values() {
    let d = ServiceQuota::default();
    assert_eq!(d.weather_count, 22);
    assert_eq!(d.btc_count, 12);
}

#[test]
fn unknown_identity_has_no_quota() {
    let t = QuotaTracker::new();
    assert_eq!(t.get_quota("nobody"), q(0, 0));
}

#[test]
fn scenario_reset_all_then_lookup() {
    let mut t = QuotaTracker::new();
    t.reset_all(&vec!["u1".to_owned(), "u2".to_owned()], q(22, 12));
    assert_eq!(t.get_quota("u1"), q(22, 12));
    assert_eq!(t.get_quota("u2"), q(22, 12));
    assert_eq!(t.get_quota("u3"), q(0, 0));
}

#[test]
fn reset_all_drops_earlier_entries() {
    let mut t = QuotaTracker::new();
    t.set_quota("old", q(5, 5));
    t.reset_all(&vec!["u1".to_owned(), "u1".to_owned()], q(3, 4));
    assert_eq!(t.get_quota("old"), q(0, 0));
    assert_eq!(t.get_quota("u1"), q(3, 4));
}

#[test]
fn set_quota_overwrites() {
    let mut t = QuotaTracker::new();
    t.set_quota("u1", q(1, 2));
    t.set_quota("u2", q(7, 7));
    t.set_quota("u1", q(9, 0));
    assert_eq!(t.get_quota("u1"), q(9, 0));
    assert_eq!(t.get_quota("u2"), q(7, 7));
}

#[test]
fn scenario_weather_consumption_saturates() {
    let mut t = QuotaTracker::new();
    t.set_quota("u1", q(1, 0));
    assert!(t.try_consume_weather("u1"));
    assert_eq!(t.get_quota("u1"), q(0, 0));
    assert!(!t.try_consume_weather("u1"));
    assert_eq!(t.get_quota("u1"), q(0, 0));
}

#[test]
fn btc_consumption_decrements_only_btc() {
    let mut t = QuotaTracker::new();
    t.set_quota("u1", q(3, 2));
    assert!(t.try_consume_btc("u1"));
    assert_eq!(t.get_quota("u1"), q(3, 1));
    assert!(t.try_consume_btc("u1"));
    assert!(!t.try_consume_btc("u1"));
    assert_eq!(t.get_quota("u1"), q(3, 0));
}

#[test]
fn consumption_without_record_is_refused() {
    let mut t = QuotaTracker::new();
    assert!(!t.try_consume_weather("u9"));
    assert!(!t.try_consume_btc("u9"));
    assert_eq!(t.get_quota("u9"), q(0, 0));
}
