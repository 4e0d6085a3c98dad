//! Daily alarms: which alarm rings at a given minute, and ringing at most once
//! per minute as the clock ticks.

use vstd::prelude::*;
use crate::settings::{Alarm, AlarmView, alarm_views};
use crate::text::{decimal, decimal_pad2, digit_char, push_decimal_pad2};

verus! {

/// A local minute: day of the year counted from zero, hour, minute and year.
#[derive(PartialEq, Eq, Structural, Clone, Copy, Debug)]
pub struct MinuteStamp {
    pub ordinal0: u32,
    pub hour: u32,
    pub minute: u32,
    pub year: i32,
}

/// The time of day as `HH:MM`, each part zero-padded to two digits.
pub open spec fn clock_text(hour: u32, minute: u32) -> Seq<char> {
    decimal_pad2(hour as nat) + seq![':'] + decimal_pad2(minute as nat)
}

/// The alarm rings at the time `hhmm`.
pub open spec fn alarm_due(alarm: AlarmView, hhmm: Seq<char>) -> bool {
    alarm.enabled && alarm.time == hhmm
}

/// `r` is the index of the first alarm due at `hhmm`, or `None` when none is.
pub open spec fn is_first_due(alarms: Seq<AlarmView>, hhmm: Seq<char>, r: Option<usize>) -> bool {
    match r {
        Some(i) => i < alarms.len() && alarm_due(alarms[i as int], hhmm) && forall|j: int|
            0 <= j < i ==> !alarm_due(#[trigger] alarms[j], hhmm),
        None => forall|j: int| 0 <= j < alarms.len() ==> !alarm_due(#[trigger] alarms[j], hhmm),
    }
}

/// The time of day as `HH:MM`.
pub fn format_hhmm(hour: u32, minute: u32) -> (r: String)
    ensures
        r@ == clock_text(hour, minute),
{
    let mut s = String::new();
    push_decimal_pad2(&mut s, hour);
    s.append(":");
    proof {
        reveal_strlit(":");
    }
    push_decimal_pad2(&mut s, minute);
    assert(s@ =~= clock_text(hour, minute));
    s
}

/// The index of the first enabled alarm set for `hhmm`.
pub fn find_due_alarm(alarms: &Vec<Alarm>, hhmm: &String) -> (r: Option<usize>)
    ensures
        is_first_due(alarm_views(alarms@), hhmm@, r),
{
    let ghost views = alarm_views(alarms@);
    let mut i: usize = 0;
    while i < alarms.len()
        invariant
            i <= alarms.len(),
            views == alarm_views(alarms@),
            views.len() == alarms.len(),
            forall|j: int| 0 <= j < i ==> !alarm_due(#[trigger] views[j], hhmm@),
        decreases alarms.len() - i,
    {
        let alarm = &alarms[i];
        assert(views[i as int] == alarm@);
        if alarm.enabled && alarm.time == *hhmm {
            return Some(i);
        }
        i = i + 1;
    }
    None
}

/// Remembers the last minute that was checked, so that each alarm rings once.
pub struct AlarmClock {
    last_checked: Option<MinuteStamp>,
}

/// What a tick at `now` rings after the minute `last` was checked.
pub open spec fn tick_rings(
    last: Option<MinuteStamp>,
    now: MinuteStamp,
    alarms: Seq<AlarmView>,
    r: Option<usize>,
) -> bool {
    if last == Some(now) {
        r is None
    } else {
        is_first_due(alarms, clock_text(now.hour, now.minute), r)
    }
}

impl AlarmClock {
    /// The minute last checked, if any.
    pub closed spec fn last_checked(&self) -> Option<MinuteStamp> {
        self.last_checked
    }

    /// A clock that has checked no minute yet.
    pub fn new() -> (r: AlarmClock)
        ensures
            r.last_checked() is None,
    {
        AlarmClock { last_checked: None }
    }

    /// Checks the alarms at the minute `now`: on the first tick of a new
    /// minute, the index of the first enabled alarm set for that `HH:MM`;
    /// otherwise nothing.
    pub fn tick(&mut self, now: MinuteStamp, alarms: &Vec<Alarm>) -> (r: Option<usize>)
        ensures
            final(self).last_checked() == Some(now),
            tick_rings(old(self).last_checked(), now, alarm_views(alarms@), r),
    {
        if self.last_checked == Some(now) {
            return None;
        }
        self.last_checked = Some(now);
        let hhmm = format_hhmm(now.hour, now.minute);
        find_due_alarm(alarms, &hhmm)
    }
}

/// `HH:MM` for an hour and a minute under 100: five characters, the tens and
/// units digit of the hour, a colon, the tens and units digit of the minute.
pub proof fn lemma_clock_text_digits(hour: u32, minute: u32)
    requires
        hour < 100,
        minute < 100,
    ensures
        clock_text(hour, minute).len() == 5,
        clock_text(hour, minute)[0] as u32 == 48 + hour / 10,
        clock_text(hour, minute)[1] as u32 == 48 + hour % 10,
        clock_text(hour, minute)[2] == ':',
        clock_text(hour, minute)[3] as u32 == 48 + minute / 10,
        clock_text(hour, minute)[4] as u32 == 48 + minute % 10,
{
    lemma_pad2_digits(hour as nat);
    lemma_pad2_digits(minute as nat);
}

proof fn lemma_digit_code(d: nat)
    requires
        d < 10,
    ensures
        digit_char(d) as u32 == 48 + d,
{
}

proof fn lemma_pad2_digits(n: nat)
    requires
        n < 100,
    ensures
        decimal_pad2(n).len() == 2,
        decimal_pad2(n)[0] as u32 == 48 + n / 10,
        decimal_pad2(n)[1] as u32 == 48 + n % 10,
{
    lemma_digit_code(n / 10);
    lemma_digit_code(n % 10);
    if n >= 10 {
        assert(decimal(n / 10) == seq![digit_char(n / 10)]);
        assert(decimal_pad2(n) =~= seq![digit_char(n / 10), digit_char(n % 10)]);
    } else {
        assert(n / 10 == 0 && n % 10 == n);
    }
}

/// At the first tick of a new minute the alarm that rings is the first one,
/// in list order, that is enabled and set for that minute's `HH:MM`; when no
/// alarm is, nothing rings.
pub proof fn lemma_tick_rings_first_match(
    last: Option<MinuteStamp>,
    now: MinuteStamp,
    alarms: Seq<AlarmView>,
    r: Option<usize>,
)
    requires
        tick_rings(last, now, alarms, r),
        last != Some(now),
    ensures
        r matches Some(i) ==> i < alarms.len() && alarms[i as int].enabled && alarms[i as int].time
            == clock_text(now.hour, now.minute),
        r matches Some(i) ==> forall|j: int|
            0 <= j < i ==> !(#[trigger] alarms[j].enabled && alarms[j].time == clock_text(
                now.hour,
                now.minute,
            )),
        r is None ==> forall|j: int|
            0 <= j < alarms.len() ==> !(#[trigger] alarms[j].enabled && alarms[j].time
                == clock_text(now.hour, now.minute)),
{
    if r is None {
        assert forall|j: int| 0 <= j < alarms.len() implies !(#[trigger] alarms[j].enabled
            && alarms[j].time == clock_text(now.hour, now.minute)) by {
            assert(!alarm_due(alarms[j], clock_text(now.hour, now.minute)));
        }
    }
    if let Some(i) = r {
        assert forall|j: int| 0 <= j < i implies !(#[trigger] alarms[j].enabled && alarms[j].time
            == clock_text(now.hour, now.minute)) by {
            assert(!alarm_due(alarms[j], clock_text(now.hour, now.minute)));
        }
    }
}

/// Within one minute an alarm rings at most once: a second tick at the same
/// minute rings nothing, whatever the alarms.
pub proof fn lemma_rings_once_per_minute(now: MinuteStamp, alarms: Seq<AlarmView>, r: Option<usize>)
    requires
        tick_rings(Some(now), now, alarms, r),
    ensures
        r is None,
{
}

/// The first due alarm is unique: two answers that both satisfy the
/// description agree.
pub proof fn lemma_first_due_unique(
    alarms: Seq<AlarmView>,
    hhmm: Seq<char>,
    a: Option<usize>,
    b: Option<usize>,
)
    requires
        is_first_due(alarms, hhmm, a),
        is_first_due(alarms, hhmm, b),
    ensures
        a == b,
{
    match (a, b) {
        (Some(i), Some(j)) => {
            if i < j {
                assert(!alarm_due(alarms[i as int], hhmm));
            } else if j < i {
                assert(!alarm_due(alarms[j as int], hhmm));
            }
        },
        (Some(i), None) => {
            assert(!alarm_due(alarms[i as int], hhmm));
        },
        (None, Some(j)) => {
            assert(!alarm_due(alarms[j as int], hhmm));
        },
        (None, None) => {},
    }
}

} // verus!
