use plugin_bridge::clock::{now_millis, now_nanos, now_secs};

#[test]
fn readings_agree_with_each_other() {
    let secs = now_secs();
    let millis = now_millis();
    let nanos = now_nanos();
    assert!(secs > 1_600_000_000);
    assert!(millis / 1000 >= secs);
    assert!(millis / 1000 - secs < 5);
    assert!(nanos / 1_000_000 >= millis as u128);
    assert!(nanos / 1_000_000 - (millis as u128) < 5_000);
}

#[test]
fn time_does_not_run_backwards_here() {
    let first = now_nanos();
    let second = now_nanos();
    assert!(second >= first);
}
