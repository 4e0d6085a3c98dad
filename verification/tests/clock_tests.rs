use std::time::{SystemTime, UNIX_EPOCH};
use yeye_floating_clock::clock::{clock_offset_ms, epoch_ms, millis_since_epoch, server_offset_ms};

fn now_millis() -> i64 {
    SystemTime::now().duration_since(UNIX_EPOCH).unwrap().as_millis() as i64
}

fn now_nanos() -> i128 {
    SystemTime::now().duration_since(UNIX_EPOCH).unwrap().as_nanos() as i128
}

#[test]
fn epoch_ms_reads_the_clock() {
    let before = now_millis();
    let read = epoch_ms();
    let after = now_millis();
    assert!(before <= read && read <= after);
}

#[test]
fn millis_round_down_and_stop_at_the_epoch() {
    assert_eq!(millis_since_epoch(1_999_999), 1);
    assert_eq!(millis_since_epoch(2_000_000), 2);
    assert_eq!(millis_since_epoch(0), 0);
    assert_eq!(millis_since_epoch(-5_000_000), 0);
}

#[test]
fn the_offset_is_measured_from_the_request_midpoint() {
    // 10 s on the server; the request ran from 3 ms to 5 ms.
    assert_eq!(clock_offset_ms(10, 3_000_000, 5_000_000), 10_000 - 4);
    // The midpoint rounds down to the nanosecond, then to the millisecond.
    assert_eq!(clock_offset_ms(10, 0, 3_999_999), 10_000 - 1);
    // A clock that went back during the request counts from its start.
    assert_eq!(clock_offset_ms(10, 7_000_000, 1_000_000), 10_000 - 7);
    // A midpoint before the epoch reads as the epoch.
    assert_eq!(clock_offset_ms(1, -9_000_000, -1_000_000), 1_000);
    assert_eq!(clock_offset_ms(1, -9_000_000, 3_000_000), 1_000);
    assert_eq!(clock_offset_ms(1, -1_000_000, 9_000_000), 1_000 - 4);
}

#[test]
fn no_date_header_means_no_offset() {
    assert_eq!(server_offset_ms(None, now_nanos()), Some(0));
    assert_eq!(server_offset_ms(Some("yesterday"), now_nanos()), Some(0));
    assert_eq!(server_offset_ms(Some("Sun, 06 Nov 1994 08:49:37 UTC"), now_nanos()), Some(0));
}

#[test]
fn a_date_header_gives_the_server_offset() {
    let started = now_nanos();
    let before = now_millis();
    let offset = server_offset_ms(Some("Sun, 06 Nov 1994 08:49:37 GMT"), started).unwrap();
    let after = now_millis();
    let server = 784_111_777_000i64;
    assert!(server - after <= offset && offset <= server - before + 1);
    let asctime = server_offset_ms(Some("Sun Nov  6 08:49:37 1994"), started).unwrap();
    assert!(server - now_millis() <= asctime && asctime <= server - before + 1);
}
