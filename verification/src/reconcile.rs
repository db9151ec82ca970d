//! Reconciliation: comparing the desired state derived from active timers
//! with each device's cached status, and planning the commands one tick
//! must issue.
//!
//! A tick walks the devices in registry order and, for each device, the
//! timers in stored order.  Every active timer bound to the device whose
//! window disagrees with the device's cached status contributes one
//! command, all compared against the status cached at the start of the
//! tick.  A one-off timer that causes an off command withdraws itself from
//! later ticks.  The caller performs the transport for each planned
//! command and reports the outcome back through
//! [`apply_command_result`].
use vstd::prelude::*;

use crate::devices::DeviceData;
use crate::devices::DeviceStatus;
use crate::devices::effective_status;
use crate::devices::same_device_config;
use crate::timers::Timer;
use crate::timers::clone_days;
use crate::timers::TimerModel;
use crate::timers::spec_should_be_on;

verus! {

/// A command reconciliation decided to issue.
#[derive(Clone, Copy, PartialEq, Eq, Structural, Debug)]
pub enum SwitchAction {
    TurnOn,
    TurnOff,
}

/// A planned command: which switch to drive, and in which direction.
#[derive(Clone, Copy, PartialEq, Eq, Structural, Debug)]
pub struct PlannedCommand {
    pub switch_id: u32,
    pub action: SwitchAction,
}

/// Whether the timer takes part in reconciling this device: it is active
/// and bound to the device's id.
pub open spec fn governs(t: TimerModel, d: DeviceData) -> bool {
    t.is_active && t.switch_id == d.id
}

/// Whether the timer asks the tick to turn this device on: it governs the
/// device, its window covers the moment, and the cached status is not
/// already `On`.
pub open spec fn needs_turn_on(d: DeviceData, t: TimerModel, weekday: u8, minutes: u32) -> bool {
    governs(t, d) && spec_should_be_on(t, weekday, minutes) && effective_status(d)
        != DeviceStatus::On
}

/// Whether the timer asks the tick to turn this device off: it governs the
/// device, its window does not cover the moment, and the cached status is
/// `On`.
pub open spec fn needs_turn_off(d: DeviceData, t: TimerModel, weekday: u8, minutes: u32) -> bool {
    governs(t, d) && !spec_should_be_on(t, weekday, minutes) && effective_status(d)
        == DeviceStatus::On
}

/// The command one timer contributes for one device: at most one.
pub open spec fn timer_command(d: DeviceData, t: TimerModel, weekday: u8, minutes: u32) -> Seq<
    PlannedCommand,
> {
    if needs_turn_on(d, t, weekday, minutes) {
        seq![(PlannedCommand { switch_id: d.id, action: SwitchAction::TurnOn })]
    } else if needs_turn_off(d, t, weekday, minutes) {
        seq![(PlannedCommand { switch_id: d.id, action: SwitchAction::TurnOff })]
    } else {
        Seq::empty()
    }
}

/// The commands one device receives in one tick, in stored timer order.
pub open spec fn device_commands(
    d: DeviceData,
    timers: Seq<TimerModel>,
    weekday: u8,
    minutes: u32,
) -> Seq<PlannedCommand>
    decreases timers.len(),
{
    if timers.len() == 0 {
        Seq::empty()
    } else {
        device_commands(d, timers.drop_last(), weekday, minutes) + timer_command(
            d,
            timers.last(),
            weekday,
            minutes,
        )
    }
}

/// The commands one tick issues, in registry order of the devices and
/// stored order of the timers within each device.
pub open spec fn tick_commands(
    devices: Seq<DeviceData>,
    timers: Seq<TimerModel>,
    weekday: u8,
    minutes: u32,
) -> Seq<PlannedCommand>
    decreases devices.len(),
{
    if devices.len() == 0 {
        Seq::empty()
    } else {
        tick_commands(devices.drop_last(), timers, weekday, minutes) + device_commands(
            devices.last(),
            timers,
            weekday,
            minutes,
        )
    }
}

/// Whether the tick withdraws this timer: it is a one-off timer and it
/// causes an off command for some device.
pub open spec fn deactivated_this_tick(
    t: TimerModel,
    devices: Seq<DeviceData>,
    weekday: u8,
    minutes: u32,
) -> bool {
    t.one_off && exists|i: int|
        0 <= i < devices.len() && #[trigger] needs_turn_off(devices[i], t, weekday, minutes)
}

/// The model a timer has after the tick: unchanged, except that a one-off
/// timer withdrawn by the tick is no longer active.
pub open spec fn timer_after_tick(
    t: TimerModel,
    devices: Seq<DeviceData>,
    weekday: u8,
    minutes: u32,
) -> TimerModel {
    TimerModel {
        is_active: t.is_active && !deactivated_this_tick(t, devices, weekday, minutes),
        ..t
    }
}

/// One reconciliation tick over the whole registry, at the given weekday
/// and minute: plans the commands to issue, applies one-off withdrawals to
/// the timers, and reports whether any timer changed (so the caller can
/// persist the collection).
pub fn reconcile_tick(
    devices: &Vec<DeviceData>,
    timers: &mut Vec<Timer>,
    weekday: u8,
    minutes: u32,
) -> (r: (Vec<PlannedCommand>, bool))
    ensures
        r.0@ == tick_commands(devices@, old(timers).deep_view(), weekday, minutes),
        final(timers)@.len() == old(timers)@.len(),
        forall|j: int| 0 <= j < final(timers)@.len() ==> #[trigger] final(timers).deep_view()[j]
            == timer_after_tick(old(timers).deep_view()[j], devices@, weekday, minutes),
        r.1 == (exists|j: int| 0 <= j < old(timers)@.len() && deactivated_this_tick(
            #[trigger] old(timers).deep_view()[j],
            devices@,
            weekday,
            minutes,
        )),
{
    let ghost dv = timers.deep_view();
    let mut commands: Vec<PlannedCommand> = Vec::new();
    let mut i: usize = 0;
    while i < devices.len()
        invariant
            i <= devices@.len(),
            dv == timers.deep_view(),
            commands@ == tick_commands(devices@.take(i as int), dv, weekday, minutes),
        decreases devices@.len() - i,
    {
        let mut j: usize = 0;
        while j < timers.len()
            invariant
                i < devices@.len(),
                j <= timers@.len(),
                dv == timers.deep_view(),
                commands@ == tick_commands(devices@.take(i as int), dv, weekday, minutes)
                    + device_commands(devices@[i as int], dv.take(j as int), weekday, minutes),
            decreases timers@.len() - j,
        {
            let t = &timers[j];
            if t.is_active && t.switch_id == devices[i].id {
                let on = t.should_be_on_at(weekday, minutes);
                let eff = devices[i].effective_status();
                if on && eff != DeviceStatus::On {
                    commands.push(PlannedCommand { switch_id: devices[i].id, action: SwitchAction::TurnOn });
                } else if !on && eff == DeviceStatus::On {
                    commands.push(PlannedCommand { switch_id: devices[i].id, action: SwitchAction::TurnOff });
                }
            }
            proof {
                assert(dv.take(j + 1).drop_last() =~= dv.take(j as int));
                assert(dv.take(j + 1).last() == dv[j as int]);
            }
            j += 1;
        }
        proof {
            assert(dv.take(timers@.len() as int) =~= dv);
            assert(devices@.take(i + 1).drop_last() =~= devices@.take(i as int));
            assert(devices@.take(i + 1).last() == devices@[i as int]);
        }
        i += 1;
    }
    proof {
        assert(devices@.take(devices@.len() as int) =~= devices@);
    }

    let mut new_timers: Vec<Timer> = Vec::new();
    let mut changed = false;
    let mut j: usize = 0;
    while j < timers.len()
        invariant
            j <= timers@.len(),
            dv == timers.deep_view(),
            commands@ == tick_commands(devices@, dv, weekday, minutes),
            new_timers@.len() == j,
            forall|k: int| 0 <= k < j ==> #[trigger] new_timers.deep_view()[k]
                == timer_after_tick(dv[k], devices@, weekday, minutes),
            changed == (exists|k: int| 0 <= k < j && deactivated_this_tick(
                #[trigger] dv[k],
                devices@,
                weekday,
                minutes,
            )),
        decreases timers@.len() - j,
    {
        let t = &timers[j];
        let forced = forced_off_by_any(devices, t, weekday, minutes);
        let deact = t.one_off && forced;
        let nt = Timer {
            id: t.id,
            switch_id: t.switch_id,
            start_time: t.start_time,
            end_time: t.end_time,
            days: clone_days(&t.days),
            is_active: t.is_active && !deact,
            one_off: t.one_off,
        };
        let ghost prev = new_timers.deep_view();
        new_timers.push(nt);
        if deact {
            changed = true;
        }
        proof {
            assert(new_timers@[j as int] == nt);
            assert(nt.deep_view() =~= timer_after_tick(dv[j as int], devices@, weekday, minutes));
            assert forall|k: int| 0 <= k < j + 1 implies #[trigger] new_timers.deep_view()[k]
                == timer_after_tick(dv[k], devices@, weekday, minutes) by {
                assert(new_timers.deep_view()[k] == new_timers@[k].deep_view());
                if k < j {
                    assert(new_timers.deep_view()[k] == prev[k]);
                }
            }
        }
        j += 1;
    }
    *timers = new_timers;
    (commands, changed)
}

/// Whether some device makes this timer ask for an off command now.
fn forced_off_by_any(devices: &Vec<DeviceData>, t: &Timer, weekday: u8, minutes: u32) -> (r: bool)
    ensures
        r == exists|i: int|
            0 <= i < devices@.len() && #[trigger] needs_turn_off(
                devices@[i],
                t.deep_view(),
                weekday,
                minutes,
            ),
{
    let mut i: usize = 0;
    while i < devices.len()
        invariant
            i <= devices@.len(),
            forall|k: int| 0 <= k < i ==> !#[trigger] needs_turn_off(
                devices@[k],
                t.deep_view(),
                weekday,
                minutes,
            ),
        decreases devices@.len() - i,
    {
        if t.is_active && t.switch_id == devices[i].id {
            let on = t.should_be_on_at(weekday, minutes);
            if !on && devices[i].effective_status() == DeviceStatus::On {
                assert(needs_turn_off(devices@[i as int], t.deep_view(), weekday, minutes));
                return true;
            }
        }
        i += 1;
    }
    false
}

/// A device for which no timer asks anything receives no command.
proof fn lemma_device_commands_empty(d: DeviceData, tms: Seq<TimerModel>, weekday: u8, minutes: u32)
    requires
        forall|j: int| 0 <= j < tms.len() ==> !needs_turn_on(d, #[trigger] tms[j], weekday, minutes)
            && !needs_turn_off(d, tms[j], weekday, minutes),
    ensures
        device_commands(d, tms, weekday, minutes) == Seq::<PlannedCommand>::empty(),
    decreases tms.len(),
{
    if tms.len() > 0 {
        assert(forall|j: int|
            0 <= j < tms.len() - 1 ==> tms.drop_last()[j] == #[trigger] tms[j]);
        lemma_device_commands_empty(d, tms.drop_last(), weekday, minutes);
        assert(tms.last() == tms[tms.len() - 1]);
        assert(device_commands(d, tms, weekday, minutes) =~= Seq::<PlannedCommand>::empty());
    }
}

/// Conversely, a device that receives no command had no timer asking
/// anything.
proof fn lemma_device_commands_empty_converse(
    d: DeviceData,
    tms: Seq<TimerModel>,
    weekday: u8,
    minutes: u32,
)
    requires
        device_commands(d, tms, weekday, minutes).len() == 0,
    ensures
        forall|j: int| 0 <= j < tms.len() ==> !needs_turn_on(d, #[trigger] tms[j], weekday, minutes)
            && !needs_turn_off(d, tms[j], weekday, minutes),
    decreases tms.len(),
{
    if tms.len() > 0 {
        lemma_device_commands_empty_converse(d, tms.drop_last(), weekday, minutes);
        assert forall|j: int| 0 <= j < tms.len() implies !needs_turn_on(
            d,
            #[trigger] tms[j],
            weekday,
            minutes,
        ) && !needs_turn_off(d, tms[j], weekday, minutes) by {
            if j < tms.len() - 1 {
                assert(tms.drop_last()[j] == tms[j]);
            } else {
                assert(tms.last() == tms[j]);
                assert(timer_command(d, tms[j], weekday, minutes).len() == 0);
            }
        }
    }
}

/// A device that receives a command has a timer asking one.
proof fn lemma_device_command_witness(
    d: DeviceData,
    tms: Seq<TimerModel>,
    weekday: u8,
    minutes: u32,
)
    requires
        device_commands(d, tms, weekday, minutes).len() > 0,
    ensures
        exists|j: int|
            0 <= j < tms.len() && (needs_turn_on(d, #[trigger] tms[j], weekday, minutes)
                || needs_turn_off(d, tms[j], weekday, minutes)),
    decreases tms.len(),
{
    if timer_command(d, tms.last(), weekday, minutes).len() > 0 {
        assert(tms.last() == tms[tms.len() - 1]);
        assert(needs_turn_on(d, tms[tms.len() - 1], weekday, minutes) || needs_turn_off(
            d,
            tms[tms.len() - 1],
            weekday,
            minutes,
        ));
    } else {
        lemma_device_command_witness(d, tms.drop_last(), weekday, minutes);
        let j = choose|j: int|
            0 <= j < tms.drop_last().len() && (needs_turn_on(
                d,
                #[trigger] tms.drop_last()[j],
                weekday,
                minutes,
            ) || needs_turn_off(d, tms.drop_last()[j], weekday, minutes));
        assert(tms.drop_last()[j] == tms[j]);
    }
}

/// Every command a tick plans for one device is the same: it names that
/// device and turns it on when the cached status is not `On`, off when it
/// is.  So a tick issues at most one direction of command per device.
pub proof fn lemma_device_commands_uniform(
    d: DeviceData,
    tms: Seq<TimerModel>,
    weekday: u8,
    minutes: u32,
)
    ensures
        forall|k: int| 0 <= k < device_commands(d, tms, weekday, minutes).len()
            ==> #[trigger] device_commands(d, tms, weekday, minutes)[k] == (PlannedCommand {
            switch_id: d.id,
            action: if effective_status(d) == DeviceStatus::On {
                SwitchAction::TurnOff
            } else {
                SwitchAction::TurnOn
            },
        }),
    decreases tms.len(),
{
    if tms.len() > 0 {
        lemma_device_commands_uniform(d, tms.drop_last(), weekday, minutes);
    }
}

/// An inactive timer is inert: it contributes no command to any device,
/// and a tick leaves it inactive.  In particular a one-off timer that has
/// withdrawn itself stays withdrawn, even when its window re-enters the
/// active range.
pub proof fn lemma_inactive_timer_inert(
    t: TimerModel,
    devices: Seq<DeviceData>,
    weekday: u8,
    minutes: u32,
)
    requires
        !t.is_active,
    ensures
        forall|i: int| 0 <= i < devices.len() ==> timer_command(
            #[trigger] devices[i],
            t,
            weekday,
            minutes,
        ) == Seq::<PlannedCommand>::empty(),
        timer_after_tick(t, devices, weekday, minutes) == t,
{
    assert forall|i: int| 0 <= i < devices.len() implies timer_command(
        #[trigger] devices[i],
        t,
        weekday,
        minutes,
    ) == Seq::<PlannedCommand>::empty() by {
        assert(timer_command(devices[i], t, weekday, minutes) =~= Seq::<PlannedCommand>::empty());
    }
    assert(timer_after_tick(t, devices, weekday, minutes) =~= t);
}

/// A device no active timer governs is left untouched: the tick plans no
/// command for it, however its status was cached — also when it was
/// switched on out-of-band.
pub proof fn lemma_ungoverned_device_untouched(
    d: DeviceData,
    tms: Seq<TimerModel>,
    weekday: u8,
    minutes: u32,
)
    requires
        forall|j: int| 0 <= j < tms.len() ==> !governs(#[trigger] tms[j], d),
    ensures
        device_commands(d, tms, weekday, minutes) == Seq::<PlannedCommand>::empty(),
{
    lemma_device_commands_empty(d, tms, weekday, minutes);
}

/// Whether all timers governing the device agree, at this moment, on
/// whether it should be on.
pub open spec fn no_conflict(d: DeviceData, tms: Seq<TimerModel>, weekday: u8, minutes: u32) -> bool {
    forall|j: int, k: int|
        #![trigger governs(tms[j], d), governs(tms[k], d)]
        0 <= j < tms.len() && 0 <= k < tms.len() && governs(tms[j], d) && governs(tms[k], d)
            ==> spec_should_be_on(tms[j], weekday, minutes) == spec_should_be_on(
            tms[k],
            weekday,
            minutes,
        )
}

/// Reconciliation is idempotent once converged: if the timers governing a
/// device agree, then after one tick's commands have been applied with
/// transport success — and its one-off withdrawals taken — a second tick
/// at the same moment plans no command for that device.  `d2` is the
/// device after the first tick, `tms2` the timers after it.
pub proof fn lemma_reconcile_idempotent(
    d: DeviceData,
    d2: DeviceData,
    tms: Seq<TimerModel>,
    tms2: Seq<TimerModel>,
    weekday: u8,
    minutes: u32,
)
    requires
        no_conflict(d, tms, weekday, minutes),
        d2.id == d.id,
        tms2.len() == tms.len(),
        forall|j: int| 0 <= j < tms.len() ==> #[trigger] tms2[j] == timer_after_tick(
            tms[j],
            seq![d],
            weekday,
            minutes,
        ),
        (device_commands(d, tms, weekday, minutes).len() == 0 ==> d2.status == d.status),
        (device_commands(d, tms, weekday, minutes).len() > 0 && effective_status(d)
            != DeviceStatus::On ==> d2.status == Some(DeviceStatus::On)),
        (device_commands(d, tms, weekday, minutes).len() > 0 && effective_status(d)
            == DeviceStatus::On ==> d2.status == Some(DeviceStatus::Off)),
    ensures
        device_commands(d2, tms2, weekday, minutes) == Seq::<PlannedCommand>::empty(),
{
    let cmds = device_commands(d, tms, weekday, minutes);
    assert(seq![d].len() == 1 && seq![d][0] == d);
    assert forall|j: int| 0 <= j < tms2.len() implies !needs_turn_on(
        d2,
        #[trigger] tms2[j],
        weekday,
        minutes,
    ) && !needs_turn_off(d2, tms2[j], weekday, minutes) by {
        let t = tms[j];
        let t2 = tms2[j];
        assert(t2 == timer_after_tick(t, seq![d], weekday, minutes));
        assert(spec_should_be_on(t2, weekday, minutes) == spec_should_be_on(t, weekday, minutes));
        if cmds.len() == 0 {
            lemma_device_commands_empty_converse(d, tms, weekday, minutes);
            assert(!needs_turn_off(d, t, weekday, minutes));
            assert(!deactivated_this_tick(t, seq![d], weekday, minutes)) by {
                if deactivated_this_tick(t, seq![d], weekday, minutes) {
                    let i = choose|i: int|
                        0 <= i < seq![d].len() && #[trigger] needs_turn_off(
                            seq![d][i],
                            t,
                            weekday,
                            minutes,
                        );
                    assert(seq![d][i] == d);
                }
            }
            assert(t2.is_active == t.is_active);
            assert(effective_status(d2) == effective_status(d));
        } else {
            lemma_device_command_witness(d, tms, weekday, minutes);
            let j0 = choose|j0: int|
                0 <= j0 < tms.len() && (needs_turn_on(d, #[trigger] tms[j0], weekday, minutes)
                    || needs_turn_off(d, tms[j0], weekday, minutes));
            if effective_status(d) != DeviceStatus::On {
                assert(needs_turn_on(d, tms[j0], weekday, minutes));
                assert(effective_status(d2) == DeviceStatus::On);
                assert(!needs_turn_on(d2, t2, weekday, minutes));
                if needs_turn_off(d2, t2, weekday, minutes) {
                    assert(!deactivated_this_tick(t, seq![d], weekday, minutes)) by {
                        if deactivated_this_tick(t, seq![d], weekday, minutes) {
                            let i = choose|i: int|
                                0 <= i < seq![d].len() && #[trigger] needs_turn_off(
                                    seq![d][i],
                                    t,
                                    weekday,
                                    minutes,
                                );
                            assert(seq![d][i] == d);
                        }
                    }
                    assert(t2.is_active == t.is_active);
                    assert(governs(t, d) && governs(tms[j0], d));
                    assert(spec_should_be_on(t, weekday, minutes) == spec_should_be_on(
                        tms[j0],
                        weekday,
                        minutes,
                    ));
                    assert(false);
                }
            } else {
                assert(needs_turn_off(d, tms[j0], weekday, minutes));
                assert(effective_status(d2) == DeviceStatus::Off);
                assert(!needs_turn_off(d2, t2, weekday, minutes));
                if needs_turn_on(d2, t2, weekday, minutes) {
                    assert(t2.is_active);
                    assert(t.is_active);
                    assert(governs(t, d) && governs(tms[j0], d));
                    assert(spec_should_be_on(t, weekday, minutes) == spec_should_be_on(
                        tms[j0],
                        weekday,
                        minutes,
                    ));
                    assert(false);
                }
            }
        }
    }
    lemma_device_commands_empty(d2, tms2, weekday, minutes);
}

/// Record the outcome of one planned command's transport: on success the
/// cached status becomes the commanded state; on failure it stays
/// unchanged, and the next tick naturally retries.
pub fn apply_command_result(device: &mut DeviceData, action: SwitchAction, transport_ok: bool)
    ensures
        same_device_config(*final(device), *old(device)),
        final(device).status == (if transport_ok {
            Some(
                match action {
                    SwitchAction::TurnOn => DeviceStatus::On,
                    SwitchAction::TurnOff => DeviceStatus::Off,
                },
            )
        } else {
            old(device).status
        }),
{
    if transport_ok {
        match action {
            SwitchAction::TurnOn => {
                device.status = Some(DeviceStatus::On);
            },
            SwitchAction::TurnOff => {
                device.status = Some(DeviceStatus::Off);
            },
        }
    }
}

} // verus!
