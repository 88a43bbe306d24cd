//! An LED behind an active-low output pin, driven from a bus lane.

use vstd::prelude::*;
use crate::hal::{lemma_ascii_len, message_from, message_text, Condition, DeviceState, Fault, Severity, State};

verus! {

#[derive(Clone, Copy, Debug, PartialEq, Eq, Default, Structural)]
pub struct LedData {
    pub enabled: bool,
}

#[derive(Clone, Copy, Debug, PartialEq, Eq, Structural)]
pub struct LedState {
    pub on: bool,
}

impl Default for LedState {
    fn default() -> (s: Self)
        ensures
            !s.on,
    {
        Self { on: false }
    }
}

#[derive(Clone, Copy, Debug, PartialEq, Eq, Structural)]
pub enum LedError {
    PinError,
}

impl Condition for LedError {
    fn classify<S: State>(&self, _ctx: &DeviceState<S>) -> (f: Fault)
        ensures
            f.severity == Severity::Fault,
            message_text(f.message) == "LED error"@,
    {
        proof {
            reveal_strlit("LED error");
            lemma_ascii_len("LED error");
        }
        Fault { severity: Severity::Fault, message: message_from("LED error") }
    }
}

/// The level of the (active-low) pin that shows `on`.
pub open spec fn led_level(on: bool) -> bool {
    !on
}

pub struct LedBackend<PIN, L: 'static> {
    pin: PIN,
    state: LedState,
    bus: &'static L,
}

impl<PIN, L: 'static> LedBackend<PIN, L> {
    pub closed spec fn spec_state(&self) -> LedState {
        self.state
    }

    pub closed spec fn spec_pin(&self) -> PIN {
        self.pin
    }

    pub closed spec fn spec_bus(&self) -> &'static L {
        self.bus
    }

    /// A backend with the LED recorded as off.
    pub fn new(pin: PIN, bus: &'static L) -> (b: Self)
        ensures
            b.spec_pin() == pin,
            b.spec_bus() == bus,
            !b.spec_state().on,
    {
        Self { pin, state: LedState::default(), bus }
    }

    pub fn state(&self) -> (s: LedState)
        ensures
            s == self.spec_state(),
    {
        self.state
    }

    pub fn bus(&self) -> (b: &'static L)
        ensures
            b == self.spec_bus(),
    {
        self.bus
    }

    /// The pin, for applying a level.
    pub fn pin_mut(&mut self) -> (p: &mut PIN)
        ensures
            *p == old(self).spec_pin(),
            final(self).spec_pin() == *final(p),
            final(self).spec_state() == old(self).spec_state(),
            final(self).spec_bus() == old(self).spec_bus(),
    {
        &mut self.pin
    }

    /// The pin level that shows `on`: low for on, high for off.
    pub fn level_for(on: bool) -> (level: bool)
        ensures
            level == led_level(on),
    {
        !on
    }

    /// Records the LED state once its pin has been written.
    pub fn record(&mut self, on: bool)
        ensures
            final(self).spec_state().on == on,
            final(self).spec_pin() == old(self).spec_pin(),
            final(self).spec_bus() == old(self).spec_bus(),
    {
        self.state.on = on;
    }

    /// The state that a toggle switches to.
    pub fn toggle_target(&self) -> (on: bool)
        ensures
            on == !self.spec_state().on,
    {
        !self.state.on
    }

    /// The state a tick switches to, from what the bus lane held: the LED
    /// follows the `enabled` request when it differs from the recorded state;
    /// without data, or when they agree, nothing changes.
    pub fn tick_target(&self, data: Option<LedData>) -> (target: Option<bool>)
        ensures
            target == (match data {
                Some(d) => if d.enabled != self.spec_state().on {
                    Some(d.enabled)
                } else {
                    None
                },
                None => None,
            }),
    {
        match data {
            Some(d) => {
                if d.enabled && !self.state.on {
                    Some(true)
                } else if !d.enabled && self.state.on {
                    Some(false)
                } else {
                    None
                }
            },
            None => None,
        }
    }
}

} // verus!
