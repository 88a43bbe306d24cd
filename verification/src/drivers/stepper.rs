//! Step/direction stepper control: the pulse generator that one control tick
//! advances, and the velocity, direction and enable logic around it.
//!
//! The pins are driven by the caller: each operation returns the level to
//! put on a pin, and the two halves of a step edge (`tick` and
//! `complete_edge`) are separated by the write of the step pin, since the
//! edge only counts once the pin has taken it.

use vstd::prelude::*;
use crate::drivers::motor::StepperData;
use crate::hal::{lemma_ascii_len, message_from, message_text, Condition, DeviceState, Fault, Lane, Severity, State};

verus! {

/// Electrical and mechanical settings of a step/dir motor.
#[derive(Clone, Copy)]
pub struct StepperConfig {
    pub steps_per_rev: u32,
    pub microsteps: u16,
    pub invert_dir: bool,
    pub enable_active_low: bool,
    pub pulse_width_ticks: u32,
}

#[derive(Clone, Copy, Debug, PartialEq, Eq, Structural)]
pub enum StepperError {
    Stall,
    NotAvailable,
    InvalidVelocity,
    HalError,
}

/// The message of each stepper error.
pub open spec fn error_message(e: StepperError) -> Seq<char> {
    match e {
        StepperError::Stall => "Motor stall detected"@,
        StepperError::NotAvailable => "Motor not available"@,
        StepperError::InvalidVelocity => "Invalid velocity command"@,
        StepperError::HalError => "Hardware abstraction layer error"@,
    }
}

impl Condition for StepperError {
    /// Every stepper error is a fault, with its own message.
    fn classify<S: State>(&self, _ctx: &DeviceState<S>) -> (f: Fault)
        ensures
            f.severity == Severity::Fault,
            message_text(f.message) == error_message(*self),
    {
        proof {
            reveal_strlit("Motor stall detected");
            reveal_strlit("Motor not available");
            reveal_strlit("Invalid velocity command");
            reveal_strlit("Hardware abstraction layer error");
            lemma_ascii_len("Motor stall detected");
            lemma_ascii_len("Motor not available");
            lemma_ascii_len("Invalid velocity command");
            lemma_ascii_len("Hardware abstraction layer error");
        }
        let msg_str = match self {
            StepperError::Stall => "Motor stall detected",
            StepperError::NotAvailable => "Motor not available",
            StepperError::InvalidVelocity => "Invalid velocity command",
            StepperError::HalError => "Hardware abstraction layer error",
        };
        Fault { severity: Severity::Fault, message: message_from(msg_str) }
    }
}

/// The level of the enable pin that puts the driver in state `enabled`.
pub open spec fn enable_level(cfg: StepperConfig, enabled: bool) -> bool {
    if cfg.enable_active_low {
        !enabled
    } else {
        enabled
    }
}

/// The level of the direction pin for direction `positive`.
pub open spec fn dir_level(cfg: StepperConfig, positive: bool) -> bool {
    if cfg.invert_dir {
        !positive
    } else {
        positive
    }
}

/// Half a step period in control ticks at `vel` steps per second.
pub open spec fn period_ticks(control_hz: u32, vel: u32) -> u32 {
    let twice: int = 2 * vel;
    let d: int = if twice >= 1 {
        twice
    } else {
        1
    };
    (control_hz as int / d) as u32
}

/// The half period is the control rate over twice the speed (integer
/// division): at `vel` steps per second each step takes two half periods of
/// `control_hz / (2·vel)` ticks; at zero speed it is the control rate.
pub proof fn lemma_half_period(control_hz: u32, vel: u32)
    ensures
        vel > 0 ==> period_ticks(control_hz, vel) as int == control_hz as int / (2 * vel as int),
        vel == 0 ==> period_ticks(control_hz, vel) == control_hz,
{
    if vel > 0 {
        let d = 2 * vel as int;
        assert(0 <= control_hz as int / d <= control_hz as int) by (nonlinear_arith)
            requires
                d >= 2,
        ;
    }
}

/// A higher speed never gives a longer half period.
pub proof fn lemma_half_period_shrinks(control_hz: u32, v1: u32, v2: u32)
    requires
        0 < v1 <= v2,
    ensures
        period_ticks(control_hz, v2) <= period_ticks(control_hz, v1),
{
    lemma_half_period(control_hz, v1);
    lemma_half_period(control_hz, v2);
    let h = control_hz as int;
    let d1 = 2 * v1 as int;
    let d2 = 2 * v2 as int;
    assert(h / d2 <= h / d1) by (nonlinear_arith)
        requires
            0 < d1 <= d2,
            h >= 0,
    ;
}

/// Ticks the step pin stays low after a falling edge.
pub open spec fn low_ticks(period: u32, pulse: u32) -> u32 {
    if period > pulse && period - pulse >= 1 {
        (period - pulse) as u32
    } else {
        1
    }
}

/// The signed velocity of a speed and a direction.
pub open spec fn signed_velocity(dir_positive: bool, vel: u32) -> i32 {
    if dir_positive {
        vel as i32
    } else {
        (-(vel as i32)) as i32
    }
}

/// One control tick of the pulse generator: nothing while disabled or at zero
/// velocity, else the countdown to the next edge, else a toggle of the step
/// line whose new level is the edge to put on the pin.
pub open spec fn tick_model(v: StepperView) -> (StepperView, Option<bool>) {
    if !v.enabled || v.current_vel_steps_s == 0 {
        (v, None)
    } else if v.ticks_until_edge > 0 {
        (StepperView { ticks_until_edge: (v.ticks_until_edge - 1) as u32, ..v }, None)
    } else {
        (StepperView { step_high: !v.step_high, ..v }, Some(!v.step_high))
    }
}

/// One step in the given direction, wrapping.
pub open spec fn step_once(counter: i32, positive: bool) -> i32 {
    if positive {
        counter.wrapping_add(1)
    } else {
        counter.wrapping_sub(1)
    }
}

/// The completion of an edge the step pin has taken: a rising edge holds the
/// line for the pulse width, a falling edge counts a step and waits out the
/// rest of the period.
pub open spec fn complete_model(v: StepperView) -> StepperView {
    if v.step_high {
        StepperView { ticks_until_edge: v.pulse_width_ticks, ..v }
    } else {
        StepperView {
            step_counter: step_once(v.step_counter, v.dir_positive),
            ticks_until_edge: low_ticks(v.step_period_ticks, v.pulse_width_ticks),
            ..v
        }
    }
}

/// The state of the pulse generator and its settings.
pub struct StepperView {
    pub hardware_config: StepperConfig,
    pub enabled: bool,
    pub dir_positive: bool,
    pub step_counter: i32,
    pub current_vel_steps_s: u32,
    pub step_high: bool,
    pub ticks_until_edge: u32,
    pub step_period_ticks: u32,
    pub pulse_width_ticks: u32,
    pub control_hz: u32,
}

/// A step/dir motor's pulse generator. Its state is read through `@` in
/// contracts and through the accessors in code.
pub struct Stepper<STEP, DIR, EN> {
    step: STEP,
    dir: DIR,
    en: EN,
    hardware_config: StepperConfig,
    enabled: bool,
    dir_positive: bool,
    step_counter: i32,
    current_vel_steps_s: u32,
    step_state_high: bool,
    ticks_until_edge: u32,
    step_period_ticks: u32,
    pulse_width_ticks: u32,
    control_hz: u32,
}

impl<STEP, DIR, EN> View for Stepper<STEP, DIR, EN> {
    type V = StepperView;

    closed spec fn view(&self) -> StepperView {
        StepperView {
            hardware_config: self.hardware_config,
            enabled: self.enabled,
            dir_positive: self.dir_positive,
            step_counter: self.step_counter,
            current_vel_steps_s: self.current_vel_steps_s,
            step_high: self.step_state_high,
            ticks_until_edge: self.ticks_until_edge,
            step_period_ticks: self.step_period_ticks,
            pulse_width_ticks: self.pulse_width_ticks,
            control_hz: self.control_hz,
        }
    }
}

impl<STEP, DIR, EN> Stepper<STEP, DIR, EN> {
    pub closed spec fn spec_pins(&self) -> (STEP, DIR, EN) {
        (self.step, self.dir, self.en)
    }

    /// The electrical and mechanical settings.
    pub fn hardware_config(&self) -> (c: StepperConfig)
        ensures
            c == self@.hardware_config,
    {
        self.hardware_config
    }

    /// Whether the motor is enabled.
    pub fn enabled(&self) -> (b: bool)
        ensures
            b == self@.enabled,
    {
        self.enabled
    }

    /// Whether the motor turns in the positive direction.
    pub fn dir_positive(&self) -> (b: bool)
        ensures
            b == self@.dir_positive,
    {
        self.dir_positive
    }

    /// The position in steps.
    pub fn step_counter(&self) -> (n: i32)
        ensures
            n == self@.step_counter,
    {
        self.step_counter
    }

    /// The speed in steps per second.
    pub fn current_vel_steps_s(&self) -> (v: u32)
        ensures
            v == self@.current_vel_steps_s,
    {
        self.current_vel_steps_s
    }

    /// The control tick rate in hertz.
    pub fn control_hz(&self) -> (hz: u32)
        ensures
            hz == self@.control_hz,
    {
        self.control_hz
    }

    /// Everything but the pulse generator's own state is as in `other`.
    pub open spec fn same_settings(&self, other: &Self) -> bool {
        &&& self@.hardware_config == other@.hardware_config
        &&& self@.control_hz == other@.control_hz
        &&& self@.pulse_width_ticks == other@.pulse_width_ticks
        &&& self.spec_pins() == other.spec_pins()
    }

    pub fn new(step: STEP, dir: DIR, en: EN, control_hz: u32, hardware_config: StepperConfig) -> (s:
        Self)
        ensures
            s.spec_pins() == (step, dir, en),
            s@.hardware_config == hardware_config,
            s@.control_hz == control_hz,
            !s@.enabled,
            s@.dir_positive,
            s@.step_counter == 0,
            s@.current_vel_steps_s == 0,
            !s@.step_high,
            s@.ticks_until_edge == 0,
            s@.step_period_ticks == 0,
            s@.pulse_width_ticks == if hardware_config.pulse_width_ticks >= 1 {
                hardware_config.pulse_width_ticks
            } else {
                1
            },
    {
        let pulse = if hardware_config.pulse_width_ticks >= 1 {
            hardware_config.pulse_width_ticks
        } else {
            1
        };
        Self {
            step,
            dir,
            en,
            hardware_config,
            enabled: false,
            dir_positive: true,
            step_counter: 0,
            current_vel_steps_s: 0,
            step_state_high: false,
            ticks_until_edge: 0,
            step_period_ticks: 0,
            pulse_width_ticks: pulse,
            control_hz,
        }
    }

    /// The pins, for applying the levels that the operations return.
    pub fn pins_mut(&mut self) -> (pins: (&mut STEP, &mut DIR, &mut EN))
        ensures
            (*pins.0, *pins.1, *pins.2) == old(self).spec_pins(),
            final(self).spec_pins() == (*final(pins.0), *final(pins.1), *final(pins.2)),
            final(self)@.hardware_config == old(self)@.hardware_config,
            final(self)@.enabled == old(self)@.enabled,
            final(self)@.dir_positive == old(self)@.dir_positive,
            final(self)@.step_counter == old(self)@.step_counter,
            final(self)@.current_vel_steps_s == old(self)@.current_vel_steps_s,
            final(self)@.control_hz == old(self)@.control_hz,
            final(self)@.step_high == old(self)@.step_high,
            final(self)@.ticks_until_edge == old(self)@.ticks_until_edge,
            final(self)@.step_period_ticks == old(self)@.step_period_ticks,
            final(self)@.pulse_width_ticks == old(self)@.pulse_width_ticks,
    {
        (&mut self.step, &mut self.dir, &mut self.en)
    }

    /// Replaces the hardware configuration (the pulse width taken at
    /// construction stays).
    pub fn set_hardware_config(&mut self, config: StepperConfig)
        ensures
            final(self)@ == (StepperView { hardware_config: config, ..old(self)@ }),
            final(self).spec_pins() == old(self).spec_pins(),
    {
        self.hardware_config = config;
    }

    /// Replaces the control rate.
    pub fn set_control_hz(&mut self, control_hz: u32)
        ensures
            final(self)@ == (StepperView { control_hz: control_hz, ..old(self)@ }),
            final(self).spec_pins() == old(self).spec_pins(),
    {
        self.control_hz = control_hz;
    }

    /// The level of the enable pin for state `enabled`.
    pub fn enable_pin_level(&self, enabled: bool) -> (level: bool)
        ensures
            level == enable_level(self@.hardware_config, enabled),
    {
        if self.hardware_config.enable_active_low {
            !enabled
        } else {
            enabled
        }
    }

    /// Sets the signed velocity in steps per second: the sign selects the
    /// direction (left unchanged at zero), the magnitude the speed, and the
    /// half period follows from the control rate. Returns the direction pin
    /// level to apply when the velocity is not zero.
    pub fn set_velocity_steps_s(&mut self, vel_steps_s: i32) -> (dir_pin: Option<bool>)
        requires
            vel_steps_s > i32::MIN,
        ensures
            final(self).same_settings(old(self)),
            final(self)@.enabled == old(self)@.enabled,
            final(self)@.step_counter == old(self)@.step_counter,
            final(self)@.step_high == old(self)@.step_high,
            final(self)@.ticks_until_edge == old(self)@.ticks_until_edge,
            final(self)@.current_vel_steps_s == speed_of(vel_steps_s),
            final(self)@.dir_positive == direction_after(vel_steps_s, old(self)@.dir_positive),
            final(self)@.step_period_ticks == period_ticks(
                old(self)@.control_hz,
                final(self)@.current_vel_steps_s,
            ),
            vel_steps_s > 0 ==> final(self)@.step_period_ticks as int == old(self)@.control_hz as int
                / (2 * vel_steps_s as int),
            vel_steps_s < 0 ==> final(self)@.step_period_ticks as int == old(self)@.control_hz as int
                / (-2 * vel_steps_s as int),
            vel_steps_s == 0 ==> final(self)@.step_period_ticks == old(self)@.control_hz,
            dir_pin == (if vel_steps_s != 0 {
                Some(dir_level(old(self)@.hardware_config, vel_steps_s > 0))
            } else {
                None
            }),
    {
        let mut dir_pin = None;
        if vel_steps_s > 0 {
            dir_pin = Some(self.set_direction(true));
            self.current_vel_steps_s = vel_steps_s as u32;
        } else if vel_steps_s < 0 {
            dir_pin = Some(self.set_direction(false));
            self.current_vel_steps_s = (-vel_steps_s) as u32;
        } else {
            self.current_vel_steps_s = 0;
        }
        let twice = 2 * self.current_vel_steps_s;
        let d = if twice >= 1 {
            twice
        } else {
            1
        };
        self.step_period_ticks = self.control_hz / d;
        dir_pin
    }

    /// Records the direction and returns the direction pin level for it.
    pub fn set_direction(&mut self, positive: bool) -> (level: bool)
        ensures
            final(self).same_settings(old(self)),
            final(self)@.dir_positive == positive,
            final(self)@.enabled == old(self)@.enabled,
            final(self)@.step_counter == old(self)@.step_counter,
            final(self)@.current_vel_steps_s == old(self)@.current_vel_steps_s,
            final(self)@.step_high == old(self)@.step_high,
            final(self)@.ticks_until_edge == old(self)@.ticks_until_edge,
            final(self)@.step_period_ticks == old(self)@.step_period_ticks,
            level == dir_level(old(self)@.hardware_config, positive),
    {
        self.dir_positive = positive;
        if self.hardware_config.invert_dir {
            !positive
        } else {
            positive
        }
    }

    /// Advances the pulse generator by one control tick. Nothing happens
    /// while disabled or at zero velocity; while an edge is pending the
    /// countdown decreases; otherwise the step line toggles and the new level
    /// is returned, to be written to the step pin before `complete_edge`.
    pub fn tick(&mut self) -> (edge: Option<bool>)
        ensures
            final(self).same_settings(old(self)),
            (final(self)@, edge) == tick_model(old(self)@),
            final(self)@.enabled == old(self)@.enabled,
            final(self)@.dir_positive == old(self)@.dir_positive,
            final(self)@.step_counter == old(self)@.step_counter,
            final(self)@.current_vel_steps_s == old(self)@.current_vel_steps_s,
            final(self)@.step_period_ticks == old(self)@.step_period_ticks,
            if !old(self)@.enabled || old(self)@.current_vel_steps_s == 0 {
                &&& edge is None
                &&& final(self)@.step_high == old(self)@.step_high
                &&& final(self)@.ticks_until_edge == old(self)@.ticks_until_edge
            } else if old(self)@.ticks_until_edge > 0 {
                &&& edge is None
                &&& final(self)@.step_high == old(self)@.step_high
                &&& final(self)@.ticks_until_edge == old(self)@.ticks_until_edge - 1
            } else {
                &&& final(self)@.step_high == !old(self)@.step_high
                &&& edge == Some(final(self)@.step_high)
                &&& final(self)@.ticks_until_edge == old(self)@.ticks_until_edge
            },
    {
        if !self.enabled || self.current_vel_steps_s == 0 {
            return None;
        }
        if self.ticks_until_edge > 0 {
            self.ticks_until_edge = self.ticks_until_edge - 1;
            return None;
        }
        self.step_state_high = !self.step_state_high;
        Some(self.step_state_high)
    }

    /// Finishes an edge once the step pin has taken it: a rising edge holds
    /// the line high for the pulse width; a falling edge counts one step in
    /// the current direction (wrapping) and waits out the rest of the period,
    /// at least one tick.
    pub fn complete_edge(&mut self)
        ensures
            final(self).same_settings(old(self)),
            final(self)@ == complete_model(old(self)@),
            final(self)@.enabled == old(self)@.enabled,
            final(self)@.dir_positive == old(self)@.dir_positive,
            final(self)@.current_vel_steps_s == old(self)@.current_vel_steps_s,
            final(self)@.step_high == old(self)@.step_high,
            final(self)@.step_period_ticks == old(self)@.step_period_ticks,
            if old(self)@.step_high {
                &&& final(self)@.step_counter == old(self)@.step_counter
                &&& final(self)@.ticks_until_edge == old(self)@.pulse_width_ticks
            } else {
                &&& final(self)@.step_counter == (if old(self)@.dir_positive {
                    old(self)@.step_counter.wrapping_add(1)
                } else {
                    old(self)@.step_counter.wrapping_sub(1)
                })
                &&& final(self)@.ticks_until_edge == low_ticks(
                    old(self)@.step_period_ticks,
                    old(self)@.pulse_width_ticks,
                )
            },
    {
        if self.step_state_high {
            self.ticks_until_edge = self.pulse_width_ticks;
        } else {
            if self.dir_positive {
                self.step_counter = self.step_counter.wrapping_add(1);
            } else {
                self.step_counter = self.step_counter.wrapping_sub(1);
            }
            let rest = self.step_period_ticks.saturating_sub(self.pulse_width_ticks);
            self.ticks_until_edge = if rest >= 1 {
                rest
            } else {
                1
            };
        }
    }

    /// Enables the motor; returns the enable pin level to apply.
    pub fn enable(&mut self) -> (level: bool)
        ensures
            final(self).same_settings(old(self)),
            final(self)@.enabled,
            final(self)@.dir_positive == old(self)@.dir_positive,
            final(self)@.step_counter == old(self)@.step_counter,
            final(self)@.current_vel_steps_s == old(self)@.current_vel_steps_s,
            final(self)@.step_high == old(self)@.step_high,
            final(self)@.ticks_until_edge == old(self)@.ticks_until_edge,
            final(self)@.step_period_ticks == old(self)@.step_period_ticks,
            level == enable_level(old(self)@.hardware_config, true),
    {
        self.enabled = true;
        self.enable_pin_level(true)
    }

    /// Disables the motor: stops it and leaves the step line low. The step
    /// pin is then to be driven low, and the enable pin set to the returned
    /// level.
    pub fn disable(&mut self) -> (level: bool)
        ensures
            final(self).same_settings(old(self)),
            !final(self)@.enabled,
            final(self)@.current_vel_steps_s == 0,
            !final(self)@.step_high,
            final(self)@.dir_positive == old(self)@.dir_positive,
            final(self)@.step_counter == old(self)@.step_counter,
            final(self)@.ticks_until_edge == old(self)@.ticks_until_edge,
            final(self)@.step_period_ticks == old(self)@.step_period_ticks,
            level == enable_level(old(self)@.hardware_config, false),
    {
        self.enabled = false;
        self.current_vel_steps_s = 0;
        self.step_state_high = false;
        self.enable_pin_level(false)
    }

    /// Position and signed velocity.
    pub fn feedback(&self) -> (d: StepperData)
        requires
            self@.dir_positive || self@.current_vel_steps_s != 0x8000_0000,
        ensures
            d.position_steps == self@.step_counter,
            d.vel_steps_per_s == signed_velocity(self@.dir_positive, self@.current_vel_steps_s),
    {
        let v = self.current_vel_steps_s;
        assert(v != 0x8000_0000 ==> (v as i32) > i32::MIN) by (bit_vector);
        StepperData {
            position_steps: self.step_counter,
            vel_steps_per_s: if self.dir_positive {
                self.current_vel_steps_s as i32
            } else {
                -(self.current_vel_steps_s as i32)
            },
        }
    }
}

/// A control tick as the caller runs it: `tick`, then, when it toggled the
/// step line and the pin took the new level, `complete_edge`.
pub open spec fn cycle_model(v: StepperView) -> (StepperView, Option<bool>) {
    let (w, edge) = tick_model(v);
    if edge is Some {
        (complete_model(w), edge)
    } else {
        (w, edge)
    }
}

/// The state after `n` control ticks, and the levels put on the step pin, in
/// order.
pub open spec fn run_model(v: StepperView, n: nat) -> (StepperView, Seq<bool>)
    decreases n,
{
    if n == 0 {
        (v, Seq::empty())
    } else {
        let (w, edges) = run_model(v, (n - 1) as nat);
        let (x, edge) = cycle_model(w);
        match edge {
            Some(level) => (x, edges.push(level)),
            None => (x, edges),
        }
    }
}

/// `k` steps in the given direction, each wrapping.
pub open spec fn steps_from(counter: i32, positive: bool, k: nat) -> i32
    decreases k,
{
    if k == 0 {
        counter
    } else {
        step_once(steps_from(counter, positive, (k - 1) as nat), positive)
    }
}

/// The number of falling edges (low levels) among the levels written.
pub open spec fn falling_edges(edges: Seq<bool>) -> nat
    decreases edges.len(),
{
    if edges.len() == 0 {
        0
    } else {
        falling_edges(edges.drop_last()) + if edges.last() {
            0nat
        } else {
            1nat
        }
    }
}

/// While enabled at a non-zero velocity, repeated control ticks write at most
/// one level to the step pin each, the levels alternate starting from the
/// opposite of the line's level, the step counter moves by one step in the
/// current direction on each falling edge and on no other tick, and the
/// direction, velocity, enable state and settings stay as they were.
pub proof fn lemma_repeated_ticks(v: StepperView, n: nat)
    requires
        v.enabled,
        v.current_vel_steps_s > 0,
    ensures
        ({
            let (w, edges) = run_model(v, n);
            &&& edges.len() <= n
            &&& forall|k: int| 0 <= k < edges.len() ==> #[trigger] edges[k] == (if k % 2 == 0 {
                !v.step_high
            } else {
                v.step_high
            })
            &&& w.step_high == (if edges.len() % 2 == 0 {
                v.step_high
            } else {
                !v.step_high
            })
            &&& w.step_counter == steps_from(v.step_counter, v.dir_positive, falling_edges(edges))
            &&& w.enabled == v.enabled
            &&& w.dir_positive == v.dir_positive
            &&& w.current_vel_steps_s == v.current_vel_steps_s
            &&& w.hardware_config == v.hardware_config
            &&& w.step_period_ticks == v.step_period_ticks
            &&& w.pulse_width_ticks == v.pulse_width_ticks
            &&& w.control_hz == v.control_hz
        }),
    decreases n,
{
    if n > 0 {
        lemma_repeated_ticks(v, (n - 1) as nat);
        let (w, edges) = run_model(v, (n - 1) as nat);
        let (x, edge) = cycle_model(w);
        if let Some(level) = edge {
            let e2 = edges.push(level);
            assert(e2.drop_last() =~= edges);
            assert(level == !w.step_high);
            assert forall|k: int| 0 <= k < e2.len() implies #[trigger] e2[k] == (if k % 2 == 0 {
                !v.step_high
            } else {
                v.step_high
            }) by {
                if k < edges.len() {
                    assert(e2[k] == edges[k]);
                }
            }
        }
    }
}

/// The direction after setting a signed velocity: its sign, or the old
/// direction at zero.
pub open spec fn direction_after(v: i32, old_positive: bool) -> bool {
    if v > 0 {
        true
    } else if v < 0 {
        false
    } else {
        old_positive
    }
}

/// The speed after setting a signed velocity: its magnitude.
pub open spec fn speed_of(v: i32) -> u32 {
    if v >= 0 {
        v as u32
    } else {
        (-v) as u32
    }
}

/// Feedback gives back the velocity that was set: the signed velocity of
/// the direction and speed that setting `v` leaves, whatever the direction
/// was before.
pub proof fn lemma_velocity_round_trip(v: i32, old_positive: bool)
    requires
        v > i32::MIN,
    ensures
        direction_after(v, old_positive) || speed_of(v) != 0x8000_0000,
        signed_velocity(direction_after(v, old_positive), speed_of(v)) == v,
{
    let s = speed_of(v);
    if v < 0 {
        assert(s as int == -v);
        assert(s < 0x8000_0000);
        assert(-(s as i32) == v);
    }
}

// ─── StepperBackend ─────────────────────────────────────────────────────────

/// The configuration a `StepperBackend` builds its stepper with.
pub open spec fn backend_stepper_config() -> StepperConfig {
    StepperConfig {
        steps_per_rev: 200,
        microsteps: 16,
        invert_dir: true,
        enable_active_low: true,
        pulse_width_ticks: 100,
    }
}

/// A stepper exchanging its velocity command and its feedback over a lane.
pub struct StepperBackend<STEP, DIR, EN, L: Lane<StepperData> + 'static> {
    pub(crate) stepper: Stepper<STEP, DIR, EN>,
    bus: &'static L,
}

impl<STEP, DIR, EN, L: Lane<StepperData> + 'static> StepperBackend<STEP, DIR, EN, L> {
    pub closed spec fn spec_stepper(&self) -> Stepper<STEP, DIR, EN> {
        self.stepper
    }

    pub closed spec fn spec_bus(&self) -> &'static L {
        self.bus
    }

    /// A backend whose stepper has 200 steps per revolution, 16 microsteps,
    /// inverted direction, an active-low enable and a pulse width of 100
    /// ticks.
    pub fn new(step: STEP, dir: DIR, en: EN, control_hz: u32, bus: &'static L) -> (b: Self)
        ensures
            b.spec_bus() == bus,
            b.spec_stepper().spec_pins() == (step, dir, en),
            b.spec_stepper()@ == (StepperView {
                hardware_config: backend_stepper_config(),
                enabled: false,
                dir_positive: true,
                step_counter: 0,
                current_vel_steps_s: 0,
                step_high: false,
                ticks_until_edge: 0,
                step_period_ticks: 0,
                pulse_width_ticks: 100,
                control_hz: control_hz,
            }),
    {
        let cfg = StepperConfig {
            steps_per_rev: 200,
            microsteps: 16,
            invert_dir: true,
            enable_active_low: true,
            pulse_width_ticks: 100,
        };
        Self { stepper: Stepper::new(step, dir, en, control_hz, cfg), bus }
    }

    pub fn bus(&self) -> (b: &'static L)
        ensures
            b == self.spec_bus(),
    {
        self.bus
    }

    /// The stepper, for its pins and pulse generator.
    pub fn stepper_mut(&mut self) -> (s: &mut Stepper<STEP, DIR, EN>)
        ensures
            *s == old(self).spec_stepper(),
            final(self).spec_stepper() == *final(s),
            final(self).spec_bus() == old(self).spec_bus(),
    {
        &mut self.stepper
    }

    /// Enables the stepper; returns the enable pin level to apply.
    pub fn enable(&mut self) -> (level: bool)
        ensures
            final(self).spec_stepper()@ == (StepperView { enabled: true, ..old(self).spec_stepper()@ }),
            final(self).spec_stepper().spec_pins() == old(self).spec_stepper().spec_pins(),
            final(self).spec_bus() == old(self).spec_bus(),
            level == enable_level(old(self).spec_stepper()@.hardware_config, true),
    {
        self.stepper.enable()
    }

    /// Position and signed velocity of the stepper.
    pub fn feedback(&self) -> (d: StepperData)
        requires
            self.spec_stepper()@.dir_positive || self.spec_stepper()@.current_vel_steps_s
                != 0x8000_0000,
        ensures
            d.position_steps == self.spec_stepper()@.step_counter,
            d.vel_steps_per_s == signed_velocity(
                self.spec_stepper()@.dir_positive,
                self.spec_stepper()@.current_vel_steps_s,
            ),
    {
        self.stepper.feedback()
    }

    /// Stops and disables the stepper; the step pin is then to be driven
    /// low and the enable pin set to the returned level.
    pub fn disable(&mut self) -> (level: bool)
        ensures
            final(self).spec_stepper()@ == (StepperView {
                enabled: false,
                current_vel_steps_s: 0,
                step_high: false,
                ..old(self).spec_stepper()@
            }),
            final(self).spec_stepper().spec_pins() == old(self).spec_stepper().spec_pins(),
            final(self).spec_bus() == old(self).spec_bus(),
            level == enable_level(old(self).spec_stepper()@.hardware_config, false),
    {
        self.stepper.disable()
    }
}

} // verus!
