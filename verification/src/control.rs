//! The regulation core: one shared control state and the decisions of the
//! two tasks that act on it.
//!
//! The input task and the regulation task run concurrently and meet only
//! in [`ControlState`], which the caller keeps behind its lock; every
//! function here is a short, suspension-free read-modify-write.  The
//! regulation task calls [`ControlState::control_step`] once per wake and
//! carries out the returned [`Effects`] — display commands, relay
//! commands, persisting the target, taking a reading — outside the lock;
//! a reading, once taken, is applied through [`ControlState::on_reading`].
//!
//! Temperatures are in sixteenths of a degree Celsius and times in whole
//! seconds of a monotonic clock.

use vstd::prelude::*;

use crate::pid::INTEGRAL_LIMIT;
use crate::pid::VARIANCE_BOUND;
use crate::pid::integral_next;
use crate::pid::next_integral;
use crate::pid::pid_actuation;
use crate::pid::pid_output;
use crate::CHECK_IN;
use crate::DEFAULT_TARGET;
use crate::DISPLAY_TIMEOUT;
use crate::MAX_TEMP;
use crate::MIN_TEMP;
use crate::NO_DEVICE_CHECK_IN;
use crate::TEMP_STEP;
use crate::TOLERANCE;

verus! {

/// Which of the two display buttons saw a pressed edge.
#[derive(Clone, Copy, PartialEq, Eq, Structural, Debug)]
pub enum Button {
    /// Raises the target by half a degree.
    Key0,
    /// Lowers the target by half a degree.
    Key1,
}

/// The message line shown under the readings.
#[derive(Clone, Copy, PartialEq, Eq, Structural, Debug)]
pub enum Message {
    Empty,
    HeatingOn,
    CoolingOn,
}

/// What the caller should put on the display after a step.
#[derive(Clone, Copy, PartialEq, Eq, Structural, Debug)]
pub enum DisplayCmd {
    /// Leave the display as it is.
    Unchanged,
    /// Clear everything: the display has gone to sleep.
    Blank,
    /// Clear everything and show the no-sensor banner (button wake).
    NotFoundBanner,
    /// Clear everything and show the no-sensor message (failed poll).
    NotFoundMessage,
    /// Clear the message line only.
    ClearMessage,
    /// Redraw current, target and variance, with the given message.
    Readings(Message),
}

/// What the caller should do with the two actuator outputs after a step.
#[derive(Clone, Copy, PartialEq, Eq, Structural, Debug)]
pub enum RelayCmd {
    /// Leave both actuators as they are.
    Unchanged,
    /// Switch both actuators off.
    AllOff,
    /// Drive the heating actuator, cooling off.
    HeatOn,
    /// Drive the cooling actuator, heating off.
    CoolOn,
}

/// The commands one control step hands back for the caller to carry out.
#[derive(Clone, Copy, PartialEq, Eq, Structural, Debug)]
pub struct Effects {
    /// What to put on the display.
    pub display: DisplayCmd,
    /// What to do with the actuators.
    pub relays: RelayCmd,
    /// Persist the (new) target temperature.
    pub save_target: bool,
    /// Take a sensor reading and report it through `on_reading`.
    pub read_sensor: bool,
}

/// The process-lifetime state shared by the input task and the regulation
/// task.
#[derive(Clone, Copy, PartialEq, Eq, Structural, Debug)]
pub struct ControlState {
    /// No sensor was found on the previous reading attempt.
    pub no_device: bool,
    /// Latest reading, sixteenths of a degree Celsius.
    pub current_temp: i32,
    /// Regulation target, sixteenths of a degree Celsius.
    pub target_temp: i32,
    /// Target minus current, from when either last changed.
    pub variance: i32,
    /// The variance recorded at the previous successful reading.
    pub last_variance: i32,
    /// PID integral accumulator, sixteenth-degree-seconds.
    pub integral: i64,
    /// An actuator is currently commanded on.
    pub relay_on: bool,
    /// The heating actuator is commanded on.
    pub heating: bool,
    /// The cooling actuator is commanded on.
    pub cooling: bool,
    /// Time at which the actuators are due to switch off.
    pub switch_off_relays: u64,
    /// Time of the previous reading attempt.
    pub last_update: u64,
    /// Time of the last display or button activity.
    pub last_display: u64,
    /// The display is awake.
    pub display_on: bool,
    /// Key0 saw an edge that the regulation task has not handled yet.
    pub key0_pressed: bool,
    /// Key1 saw an edge that the regulation task has not handled yet.
    pub key1_pressed: bool,
    /// Some button edge is pending.
    pub pin_interrupt: bool,
}

/// The target loaded at boot: the persisted value when it is valid, the
/// compiled-in default otherwise.
pub open spec fn initial_target(saved: Option<i32>) -> int {
    match saved {
        Some(t) => if MIN_TEMP <= t <= MAX_TEMP {
            t as int
        } else {
            DEFAULT_TARGET as int
        },
        None => DEFAULT_TARGET as int,
    }
}

/// One raise of the target: up half a degree, clamped to [`MAX_TEMP`]; a
/// no-op at the bound.
pub open spec fn step_up(t: int) -> int {
    if t < MAX_TEMP {
        if t + TEMP_STEP <= MAX_TEMP {
            t + TEMP_STEP
        } else {
            MAX_TEMP as int
        }
    } else {
        t
    }
}

/// One lowering of the target: down half a degree, clamped to
/// [`MIN_TEMP`]; a no-op at the bound.
pub open spec fn step_down(t: int) -> int {
    if t > MIN_TEMP {
        if t - TEMP_STEP >= MIN_TEMP {
            t - TEMP_STEP
        } else {
            MIN_TEMP as int
        }
    } else {
        t
    }
}

/// `n` raises of the target in a row.
pub open spec fn repeated_step_up(t: int, n: nat) -> int
    decreases n,
{
    if n == 0 {
        t
    } else {
        repeated_step_up(step_up(t), (n - 1) as nat)
    }
}

/// `n` lowerings of the target in a row.
pub open spec fn repeated_step_down(t: int, n: nat) -> int
    decreases n,
{
    if n == 0 {
        t
    } else {
        repeated_step_down(step_down(t), (n - 1) as nat)
    }
}

impl ControlState {
    /// The state invariant: the target stays selectable, readings and
    /// variances stay within the sensor's 16-bit raw range, the integral
    /// stays within its saturation bound, and at most one actuator is
    /// commanded on — exactly when the relay flag says so.
    pub open spec fn wf(self) -> bool {
        &&& MIN_TEMP <= self.target_temp <= MAX_TEMP
        &&& -0x8000 <= self.current_temp < 0x8000
        &&& -VARIANCE_BOUND <= self.variance <= VARIANCE_BOUND
        &&& -VARIANCE_BOUND <= self.last_variance <= VARIANCE_BOUND
        &&& -INTEGRAL_LIMIT <= self.integral <= INTEGRAL_LIMIT
        &&& !(self.heating && self.cooling)
        &&& self.relay_on == (self.heating || self.cooling)
    }
}

/// Whether a raise press takes effect: pending, a sensor present, the
/// display awake and the target below the bound.
pub open spec fn key0_adjusts(s: ControlState) -> bool {
    s.key0_pressed && !s.no_device && s.target_temp < MAX_TEMP && s.display_on
}

/// The target after the raise press is handled.
pub open spec fn target_after_key0(s: ControlState) -> int {
    if key0_adjusts(s) {
        step_up(s.target_temp as int)
    } else {
        s.target_temp as int
    }
}

/// Whether a lower press takes effect, judged on the target the raise
/// press left behind.
pub open spec fn key1_adjusts(s: ControlState) -> bool {
    s.key1_pressed && !s.no_device && target_after_key0(s) > MIN_TEMP && s.display_on
}

/// The target after both pending presses are handled.
pub open spec fn target_after_buttons(s: ControlState) -> int {
    if key1_adjusts(s) {
        step_down(target_after_key0(s))
    } else {
        target_after_key0(s)
    }
}

/// `a + b` capped at the end of time.
pub open spec fn sat_add_u64(a: int, b: int) -> int {
    if a + b > u64::MAX {
        u64::MAX as int
    } else {
        a + b
    }
}

/// State and effects of a control wake that finds the interrupt flag set:
/// pending presses adjust the target (with a sensor present and the
/// display awake), the new target is persisted, the display wakes and is
/// refreshed with the readings and no message, and the handled flags
/// clear.
pub open spec fn button_step(s: ControlState) -> (ControlState, Effects) {
    let adjusted = key0_adjusts(s) || key1_adjusts(s);
    let target = target_after_buttons(s);
    let next = ControlState {
        target_temp: target as i32,
        variance: if adjusted {
            (target - s.current_temp) as i32
        } else {
            s.variance
        },
        key0_pressed: s.key0_pressed && s.no_device,
        key1_pressed: s.key1_pressed && s.no_device,
        display_on: true,
        pin_interrupt: false,
        ..s
    };
    let effects = Effects {
        display: if s.no_device {
            DisplayCmd::NotFoundBanner
        } else {
            DisplayCmd::Readings(Message::Empty)
        },
        relays: RelayCmd::Unchanged,
        save_target: adjusted,
        read_sensor: false,
    };
    (next, effects)
}

/// State and effects of a control wake with no interrupt pending: the
/// display goes dark once the timeout has passed, actuators switch off
/// once their deadline has passed, and a reading is requested once the
/// poll interval (shorter while no sensor is present) has passed.
pub open spec fn tick_step(s: ControlState, now: int) -> (ControlState, Effects) {
    let timed_out = now >= s.last_display + DISPLAY_TIMEOUT;
    let relays_due = s.relay_on && now >= s.switch_off_relays;
    let check_seconds = if s.no_device {
        NO_DEVICE_CHECK_IN as int
    } else {
        CHECK_IN as int
    };
    let next = ControlState {
        display_on: s.display_on && !timed_out,
        relay_on: s.relay_on && !relays_due,
        heating: s.heating && !relays_due,
        cooling: s.cooling && !relays_due,
        ..s
    };
    let effects = Effects {
        display: if timed_out {
            DisplayCmd::Blank
        } else if relays_due && s.display_on {
            DisplayCmd::ClearMessage
        } else {
            DisplayCmd::Unchanged
        },
        relays: if relays_due {
            RelayCmd::AllOff
        } else {
            RelayCmd::Unchanged
        },
        save_target: false,
        read_sensor: now - s.last_update > check_seconds,
    };
    (next, effects)
}

/// State and effects of applying one reading attempt at time `now`.
///
/// A failure marks the sensor absent and shows the no-sensor message.  A
/// success updates reading and variance and refreshes the display; when
/// the variance leaves the tolerance band it also runs one PID step and
/// commands the winning actuator — positive output heats, negative cools
/// — until `now` plus the output in seconds (capped at the end of time),
/// overriding any earlier deadline and the opposite actuator.
pub open spec fn reading_step(s: ControlState, now: int, reading: Result<i32, ()>) -> (
    ControlState,
    Effects,
) {
    match reading {
        Err(_) => {
            let next = ControlState { no_device: true, last_update: now as u64, ..s };
            let effects = Effects {
                display: if s.display_on {
                    DisplayCmd::NotFoundMessage
                } else {
                    DisplayCmd::Unchanged
                },
                relays: RelayCmd::Unchanged,
                save_target: false,
                read_sensor: false,
            };
            (next, effects)
        },
        Ok(t) => {
            let variance = s.target_temp - t;
            let elapsed = now - s.last_update;
            if -TOLERANCE <= variance <= TOLERANCE {
                // Inside the tolerance band: no PID step, actuators stay.
                let next = ControlState {
                    no_device: false,
                    current_temp: t,
                    variance: variance as i32,
                    last_variance: variance as i32,
                    last_update: now as u64,
                    ..s
                };
                let effects = Effects {
                    display: if s.display_on {
                        DisplayCmd::Readings(Message::Empty)
                    } else {
                        DisplayCmd::Unchanged
                    },
                    relays: RelayCmd::Unchanged,
                    save_target: false,
                    read_sensor: false,
                };
                (next, effects)
            } else {
                let integral = integral_next(s.integral as int, elapsed, variance);
                let output = pid_output(variance, s.last_variance as int, integral, elapsed);
                let heat = output > 0;
                let cool = output < 0;
                let deadline = sat_add_u64(now, vstd::math::abs(output) as int);
                let next = ControlState {
                    no_device: false,
                    current_temp: t,
                    variance: variance as i32,
                    last_variance: variance as i32,
                    integral: integral as i64,
                    relay_on: heat || cool || s.relay_on,
                    heating: if heat {
                        true
                    } else if cool {
                        false
                    } else {
                        s.heating
                    },
                    cooling: if cool {
                        true
                    } else if heat {
                        false
                    } else {
                        s.cooling
                    },
                    switch_off_relays: if heat || cool {
                        deadline as u64
                    } else {
                        s.switch_off_relays
                    },
                    last_update: now as u64,
                    ..s
                };
                let effects = Effects {
                    display: if s.display_on {
                        DisplayCmd::Readings(
                            if heat {
                                Message::HeatingOn
                            } else if cool {
                                Message::CoolingOn
                            } else {
                                Message::Empty
                            },
                        )
                    } else {
                        DisplayCmd::Unchanged
                    },
                    relays: if heat {
                        RelayCmd::HeatOn
                    } else if cool {
                        RelayCmd::CoolOn
                    } else {
                        RelayCmd::Unchanged
                    },
                    save_target: false,
                    read_sensor: false,
                };
                (next, effects)
            }
        },
    }
}

impl ControlState {
    /// The state at boot: no reading yet, the persisted target or the
    /// default, all clocks at boot time, the display awake, everything
    /// else off.
    pub fn init(saved_target: Option<i32>, boot_time: u64) -> (s: ControlState)
        ensures
            s.wf(),
            s.target_temp as int == initial_target(saved_target),
            s.no_device == false,
            s.current_temp == 0,
            s.variance == 0,
            s.last_variance == 0,
            s.integral == 0,
            s.relay_on == false,
            s.heating == false,
            s.cooling == false,
            s.switch_off_relays == 0,
            s.last_update == boot_time,
            s.last_display == boot_time,
            s.display_on == true,
            s.key0_pressed == false,
            s.key1_pressed == false,
            s.pin_interrupt == false,
    {
        let target: i32 = match saved_target {
            Some(t) => if MIN_TEMP <= t && t <= MAX_TEMP {
                t
            } else {
                DEFAULT_TARGET
            },
            None => DEFAULT_TARGET,
        };
        ControlState {
            no_device: false,
            current_temp: 0,
            target_temp: target,
            variance: 0,
            last_variance: 0,
            integral: 0,
            relay_on: false,
            heating: false,
            cooling: false,
            switch_off_relays: 0,
            last_update: boot_time,
            last_display: boot_time,
            display_on: true,
            key0_pressed: false,
            key1_pressed: false,
            pin_interrupt: false,
        }
    }

    /// Input task: whether the button-edge race should run this cycle
    /// (buttons are inert while the display sleeps).
    pub fn buttons_active(&self) -> (b: bool)
        ensures
            b == self.display_on,
    {
        self.display_on
    }

    /// Input task: latch a pressed edge — the button's pending flag and
    /// the interrupt flag go up, nothing else moves.
    pub fn record_button_press(&mut self, button: Button)
        requires
            old(self).wf(),
        ensures
            final(self).wf(),
            *final(self) == (ControlState {
                pin_interrupt: true,
                key0_pressed: old(self).key0_pressed || button == Button::Key0,
                key1_pressed: old(self).key1_pressed || button == Button::Key1,
                ..*old(self)
            }),
    {
        match button {
            Button::Key0 => {
                self.key0_pressed = true;
            },
            Button::Key1 => {
                self.key1_pressed = true;
            },
        }
        self.pin_interrupt = true;
    }

    /// Input task: stamp the display-activity clock at the end of a
    /// polling cycle.
    pub fn record_display_activity(&mut self, now: u64)
        requires
            old(self).wf(),
        ensures
            final(self).wf(),
            *final(self) == (ControlState { last_display: now, ..*old(self) }),
    {
        self.last_display = now;
    }

    /// One wake of the regulation task at time `now`: handles pending
    /// button presses if the interrupt flag is up ([`button_step`]), and
    /// otherwise the periodic work ([`tick_step`]).  The caller carries
    /// out the returned effects and, when `read_sensor` is set, feeds the
    /// reading back through [`ControlState::on_reading`] with this same
    /// `now`.
    pub fn control_step(&mut self, now: u64) -> (eff: Effects)
        requires
            old(self).wf(),
            old(self).last_update <= now,
        ensures
            final(self).wf(),
            old(self).pin_interrupt ==> (*final(self), eff) == button_step(*old(self)),
            !old(self).pin_interrupt ==> (*final(self), eff) == tick_step(*old(self), now as int),
            // The display goes dark exactly when the timeout has passed;
            // a button wake lights it instead.
            !old(self).pin_interrupt ==> final(self).display_on == (old(self).display_on && now
                < old(self).last_display + DISPLAY_TIMEOUT),
    {
        if self.pin_interrupt {
            let mut adjusted = false;
            if self.key0_pressed && !self.no_device {
                if self.target_temp < MAX_TEMP && self.display_on {
                    self.target_temp = if self.target_temp + TEMP_STEP <= MAX_TEMP {
                        self.target_temp + TEMP_STEP
                    } else {
                        MAX_TEMP
                    };
                    self.variance = self.target_temp - self.current_temp;
                    adjusted = true;
                }
                self.key0_pressed = false;
            }
            if self.key1_pressed && !self.no_device {
                if self.target_temp > MIN_TEMP && self.display_on {
                    self.target_temp = if self.target_temp - TEMP_STEP >= MIN_TEMP {
                        self.target_temp - TEMP_STEP
                    } else {
                        MIN_TEMP
                    };
                    self.variance = self.target_temp - self.current_temp;
                    adjusted = true;
                }
                self.key1_pressed = false;
            }
            let display = if self.no_device {
                DisplayCmd::NotFoundBanner
            } else {
                DisplayCmd::Readings(Message::Empty)
            };
            self.display_on = true;
            self.pin_interrupt = false;
            Effects { display, relays: RelayCmd::Unchanged, save_target: adjusted, read_sensor: false }
        } else {
            let timed_out: bool = now >= DISPLAY_TIMEOUT && now - DISPLAY_TIMEOUT
                >= self.last_display;
            let was_on = self.display_on;
            if timed_out {
                self.display_on = false;
            }
            let relays_due: bool = self.relay_on && now >= self.switch_off_relays;
            if relays_due {
                self.relay_on = false;
                self.heating = false;
                self.cooling = false;
            }
            let check_seconds: u64 = if self.no_device {
                NO_DEVICE_CHECK_IN
            } else {
                CHECK_IN
            };
            let display = if timed_out {
                DisplayCmd::Blank
            } else if relays_due && was_on {
                DisplayCmd::ClearMessage
            } else {
                DisplayCmd::Unchanged
            };
            Effects {
                display,
                relays: if relays_due {
                    RelayCmd::AllOff
                } else {
                    RelayCmd::Unchanged
                },
                save_target: false,
                read_sensor: now - self.last_update > check_seconds,
            }
        }
    }

    /// Applies one reading attempt taken at time `now` ([`reading_step`]):
    /// failure flips to no-device mode, success updates the readings and,
    /// outside the tolerance band, runs one PID step and commands the
    /// winning actuator.
    pub fn on_reading(&mut self, now: u64, reading: Result<i32, ()>) -> (eff: Effects)
        requires
            old(self).wf(),
            old(self).last_update < now,
            reading matches Ok(t) ==> -0x8000 <= t < 0x8000,
        ensures
            final(self).wf(),
            (*final(self), eff) == reading_step(*old(self), now as int, reading),
            // Inside the tolerance band the actuators are left untouched.
            (match reading {
                Ok(t) => -TOLERANCE <= old(self).target_temp - t <= TOLERANCE,
                Err(_) => false,
            }) ==> eff.relays == RelayCmd::Unchanged && final(self).heating == old(self).heating
                && final(self).cooling == old(self).cooling && final(self).relay_on == old(self).relay_on
                && final(self).switch_off_relays == old(self).switch_off_relays,
    {
        match reading {
            Err(_) => {
                self.no_device = true;
                let display = if self.display_on {
                    DisplayCmd::NotFoundMessage
                } else {
                    DisplayCmd::Unchanged
                };
                self.last_update = now;
                Effects {
                    display,
                    relays: RelayCmd::Unchanged,
                    save_target: false,
                    read_sensor: false,
                }
            },
            Ok(t) => {
                self.no_device = false;
                self.current_temp = t;
                self.variance = self.target_temp - t;
                let elapsed: u64 = now - self.last_update;
                let mut relays = RelayCmd::Unchanged;
                let mut message = Message::Empty;
                if self.variance > TOLERANCE || self.variance < -TOLERANCE {
                    self.integral = next_integral(self.integral, elapsed, self.variance);
                    let output = pid_actuation(
                        self.variance,
                        self.last_variance,
                        self.integral,
                        elapsed,
                    );
                    if output > 0 {
                        self.relay_on = true;
                        self.heating = true;
                        self.cooling = false;
                        self.switch_off_relays = saturating_deadline(now, output);
                        relays = RelayCmd::HeatOn;
                        message = Message::HeatingOn;
                    } else if output < 0 {
                        self.relay_on = true;
                        self.cooling = true;
                        self.heating = false;
                        self.switch_off_relays = saturating_deadline(now, output);
                        relays = RelayCmd::CoolOn;
                        message = Message::CoolingOn;
                    }
                }
                self.last_variance = self.variance;
                self.last_update = now;
                let display = if self.display_on {
                    DisplayCmd::Readings(message)
                } else {
                    DisplayCmd::Unchanged
                };
                Effects { display, relays, save_target: false, read_sensor: false }
            },
        }
    }
}

/// `now` plus the magnitude of a PID output, capped at the end of time.
fn saturating_deadline(now: u64, output: i32) -> (r: u64)
    ensures
        r as int == sat_add_u64(now as int, vstd::math::abs(output as int) as int),
{
    let magnitude: u64 = if output < 0 {
        (-(output as i64)) as u64
    } else {
        output as u64
    };
    if magnitude > u64::MAX - now {
        u64::MAX
    } else {
        now + magnitude
    }
}

/// Law: enough raise presses in a row drive any selectable target to
/// [`MAX_TEMP`] exactly, and every further raise is a no-op there.
pub proof fn lemma_raises_converge_to_max(t: int, n: nat)
    requires
        MIN_TEMP <= t <= MAX_TEMP,
        n * TEMP_STEP >= MAX_TEMP - t,
    ensures
        repeated_step_up(t, n) == MAX_TEMP,
        step_up(MAX_TEMP as int) == MAX_TEMP,
    decreases n,
{
    if n == 0 {
    } else {
        lemma_raises_converge_to_max(step_up(t), (n - 1) as nat);
    }
}

/// Law: enough lower presses in a row drive any selectable target to
/// [`MIN_TEMP`] exactly, and every further lowering is a no-op there.
pub proof fn lemma_lowers_converge_to_min(t: int, n: nat)
    requires
        MIN_TEMP <= t <= MAX_TEMP,
        n * TEMP_STEP >= t - MIN_TEMP,
    ensures
        repeated_step_down(t, n) == MIN_TEMP,
        step_down(MIN_TEMP as int) == MIN_TEMP,
    decreases n,
{
    if n == 0 {
    } else {
        lemma_lowers_converge_to_min(step_down(t), (n - 1) as nat);
    }
}

/// Law: a raise press moves the target exactly as [`step_up`] says — and
/// so, at the bound, is a no-op that persists nothing — tying the
/// convergence law to real button handling.
pub proof fn lemma_button_step_moves_target(s: ControlState)
    requires
        s.wf(),
        s.key0_pressed,
        !s.key1_pressed,
        !s.no_device,
        s.display_on,
    ensures
        button_step(s).0.target_temp as int == step_up(s.target_temp as int),
        button_step(s).1.save_target == (s.target_temp < MAX_TEMP),
        s.target_temp == MAX_TEMP ==> button_step(s).0.target_temp == s.target_temp,
{
}

/// Law: a lower press moves the target exactly as [`step_down`] says —
/// and so, at the bound, is a no-op that persists nothing — tying the
/// convergence law to real button handling.
pub proof fn lemma_button_step_lowers_target(s: ControlState)
    requires
        s.wf(),
        s.key1_pressed,
        !s.key0_pressed,
        !s.no_device,
        s.display_on,
    ensures
        button_step(s).0.target_temp as int == step_down(s.target_temp as int),
        button_step(s).1.save_target == (s.target_temp > MIN_TEMP),
        s.target_temp == MIN_TEMP ==> button_step(s).0.target_temp == s.target_temp,
{
}

/// Law: whenever a PID step commands an actuator on, the switch-off
/// deadline it sets lies strictly in the future (short of the clock's end
/// of time, where it saturates).
pub proof fn lemma_new_deadline_is_in_the_future(s: ControlState, now: int, t: i32)
    requires
        s.wf(),
        s.last_update < now,
        -0x8000 <= t < 0x8000,
        now < u64::MAX,
    ensures
        ({
            let (next, eff) = reading_step(s, now, Ok(t));
            (eff.relays == RelayCmd::HeatOn || eff.relays == RelayCmd::CoolOn)
                ==> next.switch_off_relays > now
        }),
{
}

/// Law: the sign convention of a PID step.  Within the tolerance band a
/// reading leaves the actuators untouched; outside it, a positive output
/// drives heating and a negative one cooling, each with the switch-off
/// deadline `now` plus the output's magnitude, and a zero output leaves
/// the actuators as the relay deadline left them.
pub proof fn lemma_pid_sign_convention(s: ControlState, now: int, t: i32)
    requires
        s.wf(),
        s.last_update < now,
        -0x8000 <= t < 0x8000,
    ensures
        ({
            let v = s.target_temp - t;
            let e = now - s.last_update;
            let i = integral_next(s.integral as int, e, v);
            let out = pid_output(v, s.last_variance as int, i, e);
            let (next, eff) = reading_step(s, now, Ok(t));
            &&& (-TOLERANCE <= v <= TOLERANCE ==> eff.relays == RelayCmd::Unchanged
                && next.heating == s.heating && next.cooling == s.cooling && next.relay_on
                == s.relay_on && next.switch_off_relays == s.switch_off_relays)
            &&& (!(-TOLERANCE <= v <= TOLERANCE) && out > 0 ==> eff.relays == RelayCmd::HeatOn
                && next.heating && !next.cooling && next.relay_on && next.switch_off_relays
                == sat_add_u64(now, out))
            &&& (!(-TOLERANCE <= v <= TOLERANCE) && out < 0 ==> eff.relays == RelayCmd::CoolOn
                && next.cooling && !next.heating && next.relay_on && next.switch_off_relays
                == sat_add_u64(now, -out))
            &&& (!(-TOLERANCE <= v <= TOLERANCE) && out == 0 ==> eff.relays
                == RelayCmd::Unchanged && next.heating == s.heating && next.cooling == s.cooling)
        }),
{
}

} // verus!
