//! The control loop on concrete runs: button handling and the setpoint
//! clamp, display timeout, relay deadlines, poll scheduling and the
//! worked end-to-end regulation example.

use auto_brew::control::Button;
use auto_brew::control::ControlState;
use auto_brew::control::DisplayCmd;
use auto_brew::control::Message;
use auto_brew::control::RelayCmd;
use auto_brew::DEFAULT_TARGET;
use auto_brew::MAX_TEMP;
use auto_brew::MIN_TEMP;

#[test]
fn boot_uses_the_saved_target_or_the_default() {
    let s = ControlState::init(None, 5);
    assert_eq!(s.target_temp, DEFAULT_TARGET);
    assert_eq!(s.last_update, 5);
    assert_eq!(s.last_display, 5);
    assert!(s.display_on);
    assert!(!s.relay_on && !s.heating && !s.cooling);
    assert_eq!(s.current_temp, 0);
    assert_eq!(s.variance, 0);
    assert_eq!(s.integral, 0);
    assert!(!s.pin_interrupt && !s.key0_pressed && !s.key1_pressed);

    assert_eq!(ControlState::init(Some(200), 0).target_temp, 200);
    assert_eq!(ControlState::init(Some(1000), 0).target_temp, DEFAULT_TARGET);
    assert_eq!(ControlState::init(Some(100), 0).target_temp, DEFAULT_TARGET);
}

#[test]
fn raising_converges_to_the_maximum_and_stays_there() {
    let mut s = ControlState::init(None, 0);
    let mut now = 1;
    for _ in 0..40 {
        s.record_button_press(Button::Key0);
        let eff = s.control_step(now);
        assert!(s.target_temp <= MAX_TEMP);
        // 16 raises take the default 19.0 to the 27.0 bound.
        assert_eq!(eff.save_target, now <= 16);
        now += 1;
    }
    assert_eq!(s.target_temp, MAX_TEMP);

    // A further raise at the bound is a no-op and persists nothing.
    s.record_button_press(Button::Key0);
    let eff = s.control_step(now);
    assert_eq!(s.target_temp, MAX_TEMP);
    assert!(!eff.save_target);
}

#[test]
fn lowering_converges_to_the_minimum_and_stays_there() {
    let mut s = ControlState::init(None, 0);
    let mut now = 1;
    for _ in 0..40 {
        s.record_button_press(Button::Key1);
        s.control_step(now);
        assert!(s.target_temp >= MIN_TEMP);
        now += 1;
    }
    assert_eq!(s.target_temp, MIN_TEMP);

    s.record_button_press(Button::Key1);
    let eff = s.control_step(now);
    assert_eq!(s.target_temp, MIN_TEMP);
    assert!(!eff.save_target);
}

#[test]
fn a_misaligned_target_clamps_to_the_bound() {
    // 26.875 degrees: half a degree above it would pass the maximum.
    let mut s = ControlState::init(Some(430), 0);
    s.record_button_press(Button::Key0);
    let eff = s.control_step(1);
    assert_eq!(s.target_temp, MAX_TEMP);
    assert!(eff.save_target);
}

#[test]
fn a_press_updates_the_variance_and_refreshes_the_display() {
    let mut s = ControlState::init(None, 0);
    let _ = s.on_reading(10, Ok(288));
    s.record_button_press(Button::Key0);
    let eff = s.control_step(11);
    assert_eq!(s.target_temp, DEFAULT_TARGET + 8);
    assert_eq!(s.variance, DEFAULT_TARGET + 8 - 288);
    assert!(eff.save_target);
    assert_eq!(eff.relays, RelayCmd::Unchanged);
    assert!(!s.pin_interrupt && !s.key0_pressed);
    // The press refreshes the readings with no message.
    assert_eq!(eff.display, DisplayCmd::Readings(Message::Empty));
}

#[test]
fn the_display_times_out_at_thirty_seconds_not_before() {
    let mut s = ControlState::init(None, 0);
    let eff = s.control_step(29);
    assert!(s.display_on, "still on just before the timeout");
    assert_eq!(eff.display, DisplayCmd::Unchanged);

    let eff = s.control_step(30);
    assert!(!s.display_on, "off once the timeout has passed");
    assert_eq!(eff.display, DisplayCmd::Blank);
}

#[test]
fn input_activity_defers_the_display_timeout() {
    let mut s = ControlState::init(None, 0);
    s.record_display_activity(25);
    let eff = s.control_step(54);
    assert!(s.display_on);
    assert_eq!(eff.display, DisplayCmd::Unchanged);
    let eff = s.control_step(55);
    assert!(!s.display_on);
    assert_eq!(eff.display, DisplayCmd::Blank);
}

#[test]
fn a_button_wakes_the_sleeping_display_without_adjusting() {
    let mut s = ControlState::init(None, 0);
    s.control_step(30);
    assert!(!s.display_on);

    // Buttons are inert while the display sleeps: the press wakes it but
    // moves nothing.
    s.record_button_press(Button::Key0);
    let eff = s.control_step(31);
    assert!(s.display_on);
    assert_eq!(s.target_temp, DEFAULT_TARGET);
    assert!(!eff.save_target);
}

#[test]
fn the_worked_example_drives_heating_for_fourteen_seconds() {
    // target 19.0, reading 18.0 after 300 s: variance 1.0, output 13.5,
    // rounded to 14 s of heating.
    let mut s = ControlState::init(None, 0);
    let eff = s.on_reading(300, Ok(288));
    assert_eq!(s.current_temp, 288);
    assert_eq!(s.variance, 16);
    assert_eq!(s.integral, 4800);
    assert_eq!(s.last_variance, 16);
    assert_eq!(s.last_update, 300);
    assert!(s.relay_on && s.heating && !s.cooling);
    assert_eq!(s.switch_off_relays, 314);
    assert_eq!(eff.relays, RelayCmd::HeatOn);
    assert_eq!(eff.display, DisplayCmd::Readings(Message::HeatingOn));
}

#[test]
fn a_variance_within_tolerance_leaves_the_actuators_alone() {
    let mut s = ControlState::init(None, 0);
    s.on_reading(300, Ok(288));
    assert!(s.heating);

    // 19.0 target, 18.875 reading: variance 0.125, inside the band.
    let eff = s.on_reading(310, Ok(302));
    assert_eq!(eff.relays, RelayCmd::Unchanged);
    assert!(s.relay_on && s.heating && !s.cooling);
    assert_eq!(s.switch_off_relays, 314, "the deadline stands");
    assert_eq!(s.last_variance, 2);
    assert_eq!(eff.display, DisplayCmd::Readings(Message::Empty));
}

#[test]
fn a_cooling_step_overrides_a_pending_heating() {
    let mut s = ControlState::init(None, 0);
    s.on_reading(300, Ok(288));
    assert!(s.heating);

    // 20.0 reading against the 19.0 target: variance -1.0; the PID output
    // is -11, so cooling takes over with a fresh deadline.
    let eff = s.on_reading(400, Ok(320));
    assert_eq!(eff.relays, RelayCmd::CoolOn);
    assert!(s.relay_on && s.cooling && !s.heating);
    assert_eq!(s.switch_off_relays, 411);
    assert_eq!(eff.display, DisplayCmd::Readings(Message::CoolingOn));
}

#[test]
fn the_relays_switch_off_when_their_deadline_passes() {
    let mut s = ControlState::init(None, 0);
    s.on_reading(300, Ok(288));
    assert_eq!(s.switch_off_relays, 314);

    s.record_display_activity(313);
    let eff = s.control_step(313);
    assert_eq!(eff.relays, RelayCmd::Unchanged);
    assert!(s.relay_on && s.heating);

    s.record_display_activity(314);
    let eff = s.control_step(314);
    assert_eq!(eff.relays, RelayCmd::AllOff);
    assert!(!s.relay_on && !s.heating && !s.cooling);
    assert_eq!(eff.display, DisplayCmd::ClearMessage);
}

#[test]
fn a_failed_reading_flips_to_no_device_mode() {
    let mut s = ControlState::init(None, 0);
    let eff = s.on_reading(10, Err(()));
    assert!(s.no_device);
    assert_eq!(s.last_update, 10);
    assert_eq!(eff.display, DisplayCmd::NotFoundMessage);
    assert_eq!(eff.relays, RelayCmd::Unchanged);

    // While no sensor is present a press shows the banner and the pending
    // flag stays for a later wake with a sensor.
    s.record_button_press(Button::Key1);
    let eff = s.control_step(11);
    assert_eq!(eff.display, DisplayCmd::NotFoundBanner);
    assert!(s.key1_pressed, "kept pending while no sensor is present");
    assert!(!s.pin_interrupt);
    assert_eq!(s.target_temp, DEFAULT_TARGET);
    assert!(!eff.save_target);
}

#[test]
fn polling_uses_the_short_interval_without_a_sensor() {
    let mut s = ControlState::init(None, 0);
    assert!(!s.control_step(300).read_sensor, "not yet due");
    assert!(s.control_step(301).read_sensor, "due after the check interval");

    let mut s = ControlState::init(None, 0);
    s.on_reading(10, Err(()));
    assert!(!s.control_step(70).read_sensor, "not yet due");
    assert!(s.control_step(71).read_sensor, "due after the short interval");
}

#[test]
fn the_input_task_gates_on_the_display() {
    let mut s = ControlState::init(None, 0);
    assert!(s.buttons_active());
    s.control_step(30);
    assert!(!s.buttons_active());
}
