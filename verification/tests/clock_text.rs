use std::time::Duration;
use tui_wav::clock::{clock_text, fmt_time, progress_label};

#[test]
fn clock_text_pads_minutes_and_seconds() {
    assert_eq!(clock_text(0), "00:00");
    assert_eq!(clock_text(5), "00:05");
    assert_eq!(clock_text(59), "00:59");
    assert_eq!(clock_text(60), "01:00");
    assert_eq!(clock_text(125), "02:05");
    assert_eq!(clock_text(599), "09:59");
    assert_eq!(clock_text(600), "10:00");
}

#[test]
fn clock_text_keeps_every_minute_digit() {
    assert_eq!(clock_text(3600), "60:00");
    assert_eq!(clock_text(6000), "100:00");
    assert_eq!(clock_text(u64::MAX), "307445734561825860:15");
}

#[test]
fn fmt_time_uses_whole_seconds() {
    assert_eq!(fmt_time(Duration::from_secs(125)), "02:05");
    assert_eq!(fmt_time(Duration::from_millis(61_999)), "01:01");
    assert_eq!(fmt_time(Duration::from_millis(999)), "00:00");
    assert_eq!(fmt_time(Duration::ZERO), "00:00");
}

#[test]
fn progress_label_joins_position_and_length() {
    let label = progress_label(Duration::from_secs(65), Duration::from_secs(3 * 60 + 7));
    assert_eq!(label, "01:05 / 03:07");
}

#[test]
fn clock_text_reads_back_as_seconds() {
    for secs in [0u64, 1, 9, 10, 59, 60, 61, 3599, 3600, 86_399, 1_000_000] {
        let text = clock_text(secs);
        let (minutes, seconds) = text.split_once(':').unwrap();
        assert_eq!(seconds.len(), 2);
        assert!(minutes.len() >= 2);
        let m: u64 = minutes.parse().unwrap();
        let s: u64 = seconds.parse().unwrap();
        assert!(s < 60);
        assert_eq!(m * 60 + s, secs);
    }
}
