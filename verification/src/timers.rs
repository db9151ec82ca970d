//! Timers: schedule rules binding a time-of-day window and a weekday set to
//! one switch device.
//!
//! A timer is active on the minutes `start_time ..= end_time` (minutes after
//! midnight) of every weekday listed in `days` (Monday = 0 .. Sunday = 6).
//! A window with `start_time > end_time` is never active; one with
//! `start_time == end_time` is active for exactly that minute.
use vstd::prelude::*;

use chrono::Datelike;
use chrono::Timelike;

verus! {

/// A schedule rule bound to exactly one switch device.
#[derive(Debug)]
pub struct Timer {
    /// Unique identifier, assigned monotonically on creation.
    pub id: u32,
    /// Identifier of the device this rule governs.
    pub switch_id: u32,
    /// First minute after midnight of the window, inclusive.
    pub start_time: u32,
    /// Last minute after midnight of the window, inclusive.
    pub end_time: u32,
    /// Weekdays the window applies on, Monday = 0 .. Sunday = 6.
    pub days: Vec<u8>,
    /// Whether this rule currently participates in reconciliation.
    pub is_active: bool,
    /// Whether the rule disables itself after causing an off transition.
    pub one_off: bool,
}

/// Mathematical model of a [`Timer`].
#[verifier::ext_equal]
pub struct TimerModel {
    pub id: u32,
    pub switch_id: u32,
    pub start_time: u32,
    pub end_time: u32,
    pub days: Seq<u8>,
    pub is_active: bool,
    pub one_off: bool,
}

impl View for Timer {
    type V = TimerModel;

    open spec fn view(&self) -> TimerModel {
        TimerModel {
            id: self.id,
            switch_id: self.switch_id,
            start_time: self.start_time,
            end_time: self.end_time,
            days: self.days@,
            is_active: self.is_active,
            one_off: self.one_off,
        }
    }
}

impl DeepView for Timer {
    type V = TimerModel;

    open spec fn deep_view(&self) -> TimerModel {
        self.view()
    }
}

/// Whether the timer's window covers minute `minutes` of weekday `weekday`:
/// the weekday is listed in `days` and the minute lies in the inclusive
/// window `start_time ..= end_time`.
pub open spec fn spec_should_be_on(t: TimerModel, weekday: u8, minutes: u32) -> bool {
    t.days.contains(weekday) && t.start_time <= minutes && minutes <= t.end_time
}

impl Timer {
    /// Whether `weekday` is one of the days this timer applies on.
    pub fn day_matches(&self, weekday: u8) -> (r: bool)
        ensures
            r == self@.days.contains(weekday),
    {
        let mut k: usize = 0;
        while k < self.days.len()
            invariant
                k <= self.days.len(),
                forall|i: int| 0 <= i < k ==> self.days@[i] != weekday,
            decreases self.days.len() - k,
        {
            if self.days[k] == weekday {
                return true;
            }
            k += 1;
        }
        false
    }

    /// Whether the timer's window covers the given weekday and minute.
    pub fn should_be_on_at(&self, weekday: u8, minutes: u32) -> (r: bool)
        ensures
            r == spec_should_be_on(self@, weekday, minutes),
    {
        self.day_matches(weekday) && self.start_time <= minutes && minutes <= self.end_time
    }

    /// Whether the timer's window covers the present moment in the given
    /// timezone (or the system timezone when none is given).  `None` when
    /// the timezone cannot be resolved.
    pub fn should_be_on(&self, timezone_override: &Option<String>) -> (r: Option<bool>)
        ensures
            (r matches Some(b) ==> exists|weekday: u8, minutes: u32|
                weekday < 7 && minutes < 1440 && b == spec_should_be_on(self@, weekday, minutes)),
    {
        match local_schedule_time(timezone_override) {
            Some((weekday, minutes)) => {
                let b = self.should_be_on_at(weekday, minutes);
                assert(weekday < 7 && minutes < 1440 && b == spec_should_be_on(self@, weekday, minutes));
                Some(b)
            },
            None => None,
        }
    }

    /// Minutes elapsed since midnight in the given timezone (or the system
    /// timezone when none is given); `None` when it cannot be resolved.
    pub fn minutes_since_midnight(timezone_override: &Option<String>) -> (r: Option<u32>)
        ensures
            (r matches Some(m) ==> m < 1440),
    {
        match local_schedule_time(timezone_override) {
            Some((_, minutes)) => Some(minutes),
            None => None,
        }
    }

    /// Let this timer participate in reconciliation again.
    pub fn activate(&mut self)
        ensures
            final(self)@ == (TimerModel { is_active: true, ..old(self)@ }),
    {
        self.is_active = true;
    }

    /// Withdraw this timer from reconciliation.
    pub fn deactivate(&mut self)
        ensures
            final(self)@ == (TimerModel { is_active: false, ..old(self)@ }),
    {
        self.is_active = false;
    }
}

/// A window whose start and end coincide is active for exactly that single
/// minute, on the listed days, and for no other minute.
pub proof fn lemma_point_window(t: TimerModel, weekday: u8, minutes: u32)
    requires
        t.start_time == t.end_time,
    ensures
        spec_should_be_on(t, weekday, minutes) <==> (t.days.contains(weekday) && minutes
            == t.start_time),
{
}

/// A window whose start lies after its end is never active.
pub proof fn lemma_inverted_window_never_on(t: TimerModel, weekday: u8, minutes: u32)
    requires
        t.start_time > t.end_time,
    ensures
        !spec_should_be_on(t, weekday, minutes),
{
}

/// The largest timer id in the collection, `0` when it is empty.
pub open spec fn max_timer_id(timers: Seq<TimerModel>) -> u32
    decreases timers.len(),
{
    if timers.len() == 0 {
        0u32
    } else {
        let rest = max_timer_id(timers.drop_last());
        if timers.last().id > rest {
            timers.last().id
        } else {
            rest
        }
    }
}

/// [`max_timer_id`] bounds every id in the collection and, when the
/// collection is not empty, is attained by one of them.
pub proof fn lemma_max_timer_id_attained(timers: Seq<TimerModel>)
    ensures
        forall|j: int| 0 <= j < timers.len() ==> #[trigger] timers[j].id <= max_timer_id(timers),
        timers.len() > 0 ==> exists|j: int|
            0 <= j < timers.len() && #[trigger] timers[j].id == max_timer_id(timers),
    decreases timers.len(),
{
    if timers.len() > 0 {
        lemma_max_timer_id_attained(timers.drop_last());
        assert(forall|j: int|
            0 <= j < timers.len() - 1 ==> timers.drop_last()[j] == #[trigger] timers[j]);
        let rest = max_timer_id(timers.drop_last());
        if timers.last().id > rest {
            assert(timers[timers.len() - 1].id == max_timer_id(timers));
        } else if timers.len() == 1 {
            assert(timers[0].id == max_timer_id(timers));
        } else {
            let j = choose|j: int|
                0 <= j < timers.len() - 1 && #[trigger] timers.drop_last()[j].id == rest;
            assert(timers[j].id == max_timer_id(timers));
        }
    }
}

/// The id the next created timer receives: one above the largest existing
/// id, so `1` when no timer exists yet.
pub fn make_timer_id(timers: &Vec<Timer>) -> (r: u32)
    requires
        max_timer_id(timers.deep_view()) < u32::MAX,
    ensures
        r == max_timer_id(timers.deep_view()) + 1,
{
    let ghost s = timers.deep_view();
    let mut id: u32 = 0;
    let mut j: usize = 0;
    while j < timers.len()
        invariant
            j <= timers@.len(),
            s == timers.deep_view(),
            id == max_timer_id(s.take(j as int)),
        decreases timers@.len() - j,
    {
        if timers[j].id > id {
            id = timers[j].id;
        }
        proof {
            assert(s.take(j + 1).drop_last() =~= s.take(j as int));
            assert(s.take(j + 1).last() == s[j as int]);
        }
        j += 1;
    }
    proof {
        assert(s.take(timers@.len() as int) =~= s);
    }
    id + 1
}

/// Append a newly created timer: assign it the next id and push it at the
/// end of the collection.  Returns the assigned id.  Persisting the grown
/// collection is the caller's task.
pub fn add_timer(timers: &mut Vec<Timer>, timer: Timer) -> (r: u32)
    requires
        max_timer_id(old(timers).deep_view()) < u32::MAX,
    ensures
        r == max_timer_id(old(timers).deep_view()) + 1,
        final(timers).deep_view() == old(timers).deep_view().push(
            (TimerModel { id: r, ..timer@ }),
        ),
{
    let new_id = make_timer_id(timers);
    let mut t = timer;
    t.id = new_id;
    let ghost pushed = t@;
    timers.push(t);
    proof {
        assert(pushed =~= (TimerModel { id: new_id, ..timer@ }));
        assert(timers.deep_view() =~= old(timers).deep_view().push(pushed));
    }
    new_id
}

/// The predicate selecting the timers bound to one switch.
pub open spec fn is_for_switch(switch_id: u32) -> spec_fn(TimerModel) -> bool {
    |t: TimerModel| t.switch_id == switch_id
}

/// The timers bound to the given switch, in stored order.
pub fn get_device_timers(timers: &Vec<Timer>, switch_id: u32) -> (r: Vec<Timer>)
    ensures
        r.deep_view() == timers.deep_view().filter(is_for_switch(switch_id)),
{
    let ghost s = timers.deep_view();
    let mut out: Vec<Timer> = Vec::new();
    let mut j: usize = 0;
    while j < timers.len()
        invariant
            j <= timers@.len(),
            s == timers.deep_view(),
            out.deep_view() == s.take(j as int).filter(is_for_switch(switch_id)),
        decreases timers@.len() - j,
    {
        let ghost prev = out.deep_view();
        if timers[j].switch_id == switch_id {
            out.push(clone_timer(&timers[j]));
        }
        proof {
            assert(s.take(j + 1).drop_last() =~= s.take(j as int));
            assert(s.take(j + 1).last() == s[j as int]);
            reveal_with_fuel(Seq::filter, 2);
            if is_for_switch(switch_id)(s[j as int]) {
                assert(out.deep_view() =~= prev.push(s[j as int]));
            }
            assert(out.deep_view() =~= s.take(j + 1).filter(is_for_switch(switch_id)));
        }
        j += 1;
    }
    proof {
        assert(s.take(timers@.len() as int) =~= s);
    }
    out
}

/// A copy of a timer with the same model.
pub(crate) fn clone_timer(t: &Timer) -> (r: Timer)
    ensures
        r@ == t@,
{
    let r = Timer {
        id: t.id,
        switch_id: t.switch_id,
        start_time: t.start_time,
        end_time: t.end_time,
        days: clone_days(&t.days),
        is_active: t.is_active,
        one_off: t.one_off,
    };
    proof {
        assert(r@ =~= t@);
    }
    r
}

/// A copy of the weekday list.
pub(crate) fn clone_days(days: &Vec<u8>) -> (r: Vec<u8>)
    ensures
        r@ == days@,
{
    let mut out: Vec<u8> = Vec::new();
    let mut k: usize = 0;
    while k < days.len()
        invariant
            k <= days@.len(),
            out@ == days@.take(k as int),
        decreases days@.len() - k,
    {
        out.push(days[k]);
        proof {
            assert(days@.take(k + 1) =~= days@.take(k as int).push(days@[k as int]));
        }
        k += 1;
    }
    proof {
        assert(days@.take(days@.len() as int) =~= days@);
    }
    out
}

/// The weekday (Monday = 0) and the minute of the day at the present moment
/// in the given timezone; `None` when the timezone cannot be resolved.
pub fn local_schedule_time(timezone_override: &Option<String>) -> (r: Option<(u8, u32)>)
    ensures
        (r matches Some(t) ==> t.0 < 7 && t.1 < 1440),
{
    match read_local_clock(timezone_override) {
        Some((weekday, hour, minute)) => Some((weekday, hour * 60 + minute)),
        None => None,
    }
}

/// Relies on chrono's `Utc::now` and `DateTime::with_timezone`, chrono-tz's
/// `Tz` parsing and iana-time-zone's `get_timezone` to read the wall clock.
/// chrono documents `num_days_from_monday` as 0 ..= 6 (Monday = 0), `hour`
/// as 0 ..= 23 and `minute` as 0 ..= 59; nothing more is assumed, as the
/// result depends on the clock.
#[verifier::external_body]
fn read_local_clock(timezone_override: &Option<String>) -> (r: Option<(u8, u32, u32)>)
    ensures
        (r matches Some(c) ==> c.0 < 7 && c.1 < 24 && c.2 < 60),
{
    let tz: chrono_tz::Tz = match timezone_override {
        Some(name) => name.parse().ok()?,
        None => iana_time_zone::get_timezone().ok()?.parse().ok()?,
    };
    let now = chrono::Utc::now().with_timezone(&tz);
    Some((now.weekday().num_days_from_monday() as u8, now.hour(), now.minute()))
}

} // verus!
