use homectl::devices::Device;
use homectl::devices::DeviceData;
use homectl::devices::DeviceStatus;
use homectl::devices::apply_status_report;
use homectl::devices::find_switch_index;
use homectl::devices::list_devices_safe;
use homectl::reconcile::PlannedCommand;
use homectl::reconcile::SwitchAction;
use homectl::reconcile::apply_command_result;
use homectl::reconcile::reconcile_tick;
use homectl::timers::Timer;

fn device(id: u32, status: Option<DeviceStatus>) -> DeviceData {
    DeviceData {
        alias: format!("switch-{}", id),
        addr: format!("192.0.2.{}", id),
        id,
        username: "admin".to_string(),
        password: "secret".to_string(),
        device_type: Device::Shelly,
        status,
    }
}

fn timer(switch_id: u32, start: u32, end: u32, days: Vec<u8>, one_off: bool) -> Timer {
    Timer {
        id: 1,
        switch_id,
        start_time: start,
        end_time: end,
        days,
        is_active: true,
        one_off,
    }
}

/// Runs one tick and applies every planned command with transport success.
fn tick_and_apply(
    devices: &mut Vec<DeviceData>,
    timers: &mut Vec<Timer>,
    weekday: u8,
    minutes: u32,
) -> (Vec<PlannedCommand>, bool) {
    let (commands, changed) = reconcile_tick(devices, timers, weekday, minutes);
    for command in &commands {
        if let Some(i) = find_switch_index(devices, command.switch_id) {
            apply_command_result(&mut devices[i], command.action, true);
        }
    }
    (commands, changed)
}

#[test]
fn tick_turns_device_on_inside_window() {
    let mut devices = vec![device(1, Some(DeviceStatus::Off))];
    let mut timers = vec![timer(1, 480, 1020, vec![2], false)];
    let (commands, changed) = tick_and_apply(&mut devices, &mut timers, 2, 500);
    assert_eq!(commands.len(), 1);
    assert_eq!(commands[0].switch_id, 1);
    assert_eq!(commands[0].action, SwitchAction::TurnOn);
    assert_eq!(devices[0].status, Some(DeviceStatus::On));
    assert!(!changed);
}

#[test]
fn tick_turns_device_off_after_window() {
    let mut devices = vec![device(1, Some(DeviceStatus::On))];
    let mut timers = vec![timer(1, 480, 1020, vec![2], false)];
    let (commands, changed) = tick_and_apply(&mut devices, &mut timers, 2, 1021);
    assert_eq!(commands.len(), 1);
    assert_eq!(commands[0].action, SwitchAction::TurnOff);
    assert_eq!(devices[0].status, Some(DeviceStatus::Off));
    assert!(!changed);
    assert!(timers[0].is_active);
}

#[test]
fn tick_turns_unknown_device_on_inside_window() {
    let mut devices = vec![device(1, None)];
    let mut timers = vec![timer(1, 480, 1020, vec![2], false)];
    let (commands, _) = tick_and_apply(&mut devices, &mut timers, 2, 500);
    assert_eq!(commands.len(), 1);
    assert_eq!(commands[0].action, SwitchAction::TurnOn);
    assert_eq!(devices[0].status, Some(DeviceStatus::On));
}

#[test]
fn converged_tick_is_quiet() {
    let mut devices = vec![device(1, Some(DeviceStatus::Off))];
    let mut timers = vec![timer(1, 480, 1020, vec![2], false)];
    let (first, _) = tick_and_apply(&mut devices, &mut timers, 2, 500);
    assert_eq!(first.len(), 1);
    // Converged: a second tick at the same moment plans nothing.
    let (second, changed) = tick_and_apply(&mut devices, &mut timers, 2, 500);
    assert!(second.is_empty());
    assert!(!changed);
    assert_eq!(devices[0].status, Some(DeviceStatus::On));
}

#[test]
fn failed_transport_is_retried_next_tick() {
    let mut devices = vec![device(1, Some(DeviceStatus::Off))];
    let mut timers = vec![timer(1, 480, 1020, vec![2], false)];
    let (first, _) = reconcile_tick(&devices, &mut timers, 2, 500);
    assert_eq!(first.len(), 1);
    // The transport failed: the cached status stays Off ...
    apply_command_result(&mut devices[0], first[0].action, false);
    assert_eq!(devices[0].status, Some(DeviceStatus::Off));
    // ... so the next tick issues the command again.
    let (second, _) = reconcile_tick(&devices, &mut timers, 2, 500);
    assert_eq!(second.len(), 1);
    assert_eq!(second[0].action, SwitchAction::TurnOn);
}

#[test]
fn one_off_timer_withdraws_after_off_transition() {
    let mut devices = vec![device(1, Some(DeviceStatus::On))];
    let mut timers = vec![timer(1, 480, 1020, vec![2], true)];
    let (commands, changed) = tick_and_apply(&mut devices, &mut timers, 2, 1021);
    assert_eq!(commands.len(), 1);
    assert_eq!(commands[0].action, SwitchAction::TurnOff);
    assert!(changed);
    assert!(!timers[0].is_active);
    // Even back inside the window the withdrawn timer stays inert.
    let (later, changed_again) = tick_and_apply(&mut devices, &mut timers, 2, 500);
    assert!(later.is_empty());
    assert!(!changed_again);
    assert!(!timers[0].is_active);
    assert_eq!(devices[0].status, Some(DeviceStatus::Off));
}

#[test]
fn one_off_timer_stays_active_while_on() {
    let mut devices = vec![device(1, Some(DeviceStatus::Off))];
    let mut timers = vec![timer(1, 480, 1020, vec![2], true)];
    let (commands, changed) = tick_and_apply(&mut devices, &mut timers, 2, 500);
    assert_eq!(commands.len(), 1);
    assert_eq!(commands[0].action, SwitchAction::TurnOn);
    assert!(!changed);
    assert!(timers[0].is_active);
}

#[test]
fn one_off_withdraws_even_when_transport_fails() {
    // The withdrawal is decided when the off command is issued, not when
    // the hardware acknowledges it; the original controller behaves the
    // same way.
    let mut devices = vec![device(1, Some(DeviceStatus::On))];
    let mut timers = vec![timer(1, 480, 1020, vec![2], true)];
    let (commands, changed) = reconcile_tick(&devices, &mut timers, 2, 1021);
    assert_eq!(commands.len(), 1);
    apply_command_result(&mut devices[0], commands[0].action, false);
    assert!(changed);
    assert!(!timers[0].is_active);
    assert_eq!(devices[0].status, Some(DeviceStatus::On));
}

#[test]
fn ungoverned_device_is_left_untouched() {
    // Manually switched on out-of-band; no active timer governs it.
    let mut devices = vec![device(1, Some(DeviceStatus::On))];
    let mut timers = vec![timer(2, 0, 1439, vec![0, 1, 2, 3, 4, 5, 6], false)];
    let (commands, changed) = reconcile_tick(&devices, &mut timers, 2, 500);
    assert!(commands.is_empty());
    assert!(!changed);
    assert_eq!(devices[0].status, Some(DeviceStatus::On));
    // An inactive timer on the device does not govern it either.
    timers.push(timer(1, 0, 1439, vec![0, 1, 2, 3, 4, 5, 6], false));
    timers[1].is_active = false;
    let (commands, _) = reconcile_tick(&devices, &mut timers, 2, 500);
    assert!(commands.is_empty());
}

#[test]
fn tick_walks_devices_in_registry_order() {
    let mut devices = vec![
        device(1, Some(DeviceStatus::Off)),
        device(2, Some(DeviceStatus::On)),
    ];
    let mut timers = vec![
        timer(2, 480, 1020, vec![2], false),
        timer(1, 480, 1020, vec![2], false),
    ];
    let (commands, _) = reconcile_tick(&devices, &mut timers, 2, 1500);
    // Device 1 is Off outside the window: nothing. Device 2 is On: turn off.
    assert_eq!(commands.len(), 1);
    assert_eq!(commands[0], PlannedCommand { switch_id: 2, action: SwitchAction::TurnOff });
}

#[test]
fn status_report_updates_only_on_success() {
    let mut d = device(1, None);
    apply_status_report(&mut d, None);
    assert_eq!(d.status, None);
    apply_status_report(&mut d, Some(true));
    assert_eq!(d.status, Some(DeviceStatus::On));
    apply_status_report(&mut d, None);
    assert_eq!(d.status, Some(DeviceStatus::On));
    apply_status_report(&mut d, Some(false));
    assert_eq!(d.status, Some(DeviceStatus::Off));
}

#[test]
fn switch_lookup_finds_first_match() {
    let devices = vec![device(4, None), device(9, None), device(2, None)];
    assert_eq!(find_switch_index(&devices, 9), Some(1));
    assert_eq!(find_switch_index(&devices, 4), Some(0));
    assert_eq!(find_switch_index(&devices, 3), None);
}

#[test]
fn device_listing_redacts_credentials() {
    let devices = vec![device(1, Some(DeviceStatus::On)), device(2, None)];
    let listed = list_devices_safe(&devices);
    assert_eq!(listed.len(), 2);
    assert_eq!(listed[0].alias, "switch-1");
    assert_eq!(listed[0].id, 1);
    assert_eq!(listed[0].status, Some(DeviceStatus::On));
    assert_eq!(listed[1].id, 2);
    assert_eq!(listed[1].status, None);
}
