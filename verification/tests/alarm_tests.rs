use yeye_floating_clock::alarm::{find_due_alarm, format_hhmm, AlarmClock, MinuteStamp};
use yeye_floating_clock::settings::Alarm;

fn alarm(id: &str, time: &str, enabled: bool) -> Alarm {
    Alarm { id: id.into(), time: time.into(), label: String::new(), enabled }
}

fn stamp(hour: u32, minute: u32) -> MinuteStamp {
    MinuteStamp { ordinal0: 40, hour, minute, year: 2025 }
}

#[test]
fn times_are_zero_padded() {
    assert_eq!(format_hhmm(8, 5), "08:05");
    assert_eq!(format_hhmm(0, 0), "00:00");
    assert_eq!(format_hhmm(23, 59), "23:59");
    assert_eq!(format_hhmm(12, 30), "12:30");
    assert_eq!(format_hhmm(123, 7), "123:07");
}

#[test]
fn the_first_enabled_alarm_for_the_time_is_due() {
    let alarms = vec![
        alarm("a", "08:30", false),
        alarm("b", "07:30", true),
        alarm("c", "08:30", true),
        alarm("d", "08:30", true),
    ];
    assert_eq!(find_due_alarm(&alarms, &"08:30".to_string()), Some(2));
    assert_eq!(find_due_alarm(&alarms, &"07:30".to_string()), Some(1));
    assert_eq!(find_due_alarm(&alarms, &"09:00".to_string()), None);
    assert_eq!(find_due_alarm(&alarms, &"8:30".to_string()), None);
}

#[test]
fn an_alarm_rings_once_per_minute() {
    let alarms = vec![alarm("a", "06:45", true)];
    let mut clock = AlarmClock::new();
    assert_eq!(clock.tick(stamp(6, 44), &alarms), None);
    assert_eq!(clock.tick(stamp(6, 45), &alarms), Some(0));
    assert_eq!(clock.tick(stamp(6, 45), &alarms), None);
    assert_eq!(clock.tick(stamp(6, 46), &alarms), None);
    let next_day = MinuteStamp { ordinal0: 41, hour: 6, minute: 45, year: 2025 };
    assert_eq!(clock.tick(next_day, &alarms), Some(0));
}

#[test]
fn the_first_tick_checks_its_minute() {
    let alarms = vec![alarm("a", "00:00", true)];
    let mut clock = AlarmClock::new();
    assert_eq!(clock.tick(stamp(0, 0), &alarms), Some(0));
}
