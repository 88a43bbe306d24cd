//! Motor-level data and the plain step/dir backend.

use vstd::prelude::*;
use crate::hal::{lemma_ascii_len, message_from, message_text, Condition, DeviceState, Fault, Severity, State};
use crate::drivers::stepper::{enable_level, signed_velocity, Stepper, StepperConfig};

verus! {

/// Position and velocity of a stepper, in (micro)steps.
#[derive(Clone, Copy, Default)]
pub struct StepperData {
    pub position_steps: i32,
    pub vel_steps_per_s: i32,
}

#[derive(Clone, Copy)]
pub struct MotorCondition {
    pub stalled: bool,
    pub overtemp: bool,
    pub overtemp_warning: bool,
}

impl Condition for MotorCondition {
    /// Priority: stall, then overtemperature shutdown (both faults), then
    /// overtemperature warning, then healthy.
    fn classify<S: State>(&self, _ctx: &DeviceState<S>) -> (f: Fault)
        ensures
            self.stalled ==> f.severity == Severity::Fault && message_text(f.message)
                == "motor stalled"@,
            !self.stalled && self.overtemp ==> f.severity == Severity::Fault && message_text(
                f.message,
            ) == "motor overtemp"@,
            !self.stalled && !self.overtemp && self.overtemp_warning ==> f.severity
                == Severity::Warning && message_text(f.message) == "motor overtemp warning"@,
            !self.stalled && !self.overtemp && !self.overtemp_warning ==> f.severity
                == Severity::Healthy && message_text(f.message) == "ok"@,
    {
        proof {
            reveal_strlit("motor stalled");
            reveal_strlit("motor overtemp");
            reveal_strlit("motor overtemp warning");
            reveal_strlit("ok");
            lemma_ascii_len("motor stalled");
            lemma_ascii_len("motor overtemp");
            lemma_ascii_len("motor overtemp warning");
            lemma_ascii_len("ok");
        }
        let (severity, message) = if self.stalled {
            (Severity::Fault, "motor stalled")
        } else if self.overtemp {
            (Severity::Fault, "motor overtemp")
        } else if self.overtemp_warning {
            (Severity::Warning, "motor overtemp warning")
        } else {
            (Severity::Healthy, "ok")
        };
        Fault { severity, message: message_from(message) }
    }
}

/// A stepper driven directly through step/dir pins.
pub struct StepDirBackend<STEP, DIR, EN> {
    stepper: Stepper<STEP, DIR, EN>,
}

impl<STEP, DIR, EN> StepDirBackend<STEP, DIR, EN> {
    pub closed spec fn spec_stepper(&self) -> Stepper<STEP, DIR, EN> {
        self.stepper
    }

    /// The stepper, for its pins and pulse generator.
    pub fn stepper_mut(&mut self) -> (s: &mut Stepper<STEP, DIR, EN>)
        ensures
            *s == old(self).spec_stepper(),
            final(self).spec_stepper() == *final(s),
    {
        &mut self.stepper
    }

    /// Applies a configuration: the control rate becomes one tick per
    /// microstep of a revolution.
    pub fn config(&mut self, config: StepperConfig)
        requires
            config.steps_per_rev * config.microsteps <= u32::MAX,
        ensures
            final(self).spec_stepper()@.hardware_config == config,
            final(self).spec_stepper()@.control_hz == config.steps_per_rev * config.microsteps,
            final(self).spec_stepper()@.enabled == old(self).spec_stepper()@.enabled,
            final(self).spec_stepper()@.step_counter == old(self).spec_stepper()@.step_counter,
            final(self).spec_stepper()@.current_vel_steps_s == old(
                self,
            ).spec_stepper()@.current_vel_steps_s,
            final(self).spec_stepper()@.dir_positive == old(self).spec_stepper()@.dir_positive,
    {
        self.stepper.set_hardware_config(config);
        self.stepper.set_control_hz(config.steps_per_rev * config.microsteps as u32);
    }

    /// Applies a configuration and enables the motor; returns the enable pin
    /// level to apply.
    pub fn init(&mut self, config: StepperConfig) -> (level: bool)
        ensures
            final(self).spec_stepper()@.hardware_config == config,
            final(self).spec_stepper()@.enabled,
            level == enable_level(config, true),
    {
        self.stepper.set_hardware_config(config);
        self.stepper.enable()
    }

    /// What a tick reports once the pulse generator has advanced.
    pub fn output(&self) -> (d: StepperData)
        requires
            self.spec_stepper()@.dir_positive || self.spec_stepper()@.current_vel_steps_s
                != 0x8000_0000,
        ensures
            d.position_steps == self.spec_stepper()@.step_counter,
            d.vel_steps_per_s == signed_velocity(
                self.spec_stepper()@.dir_positive,
                self.spec_stepper()@.current_vel_steps_s,
            ),
    {
        self.stepper.feedback()
    }
}

} // verus!
