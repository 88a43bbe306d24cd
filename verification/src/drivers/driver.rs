//! The generic stepper-driver backend: what it reports each tick and how a
//! driver condition is classified.

use vstd::prelude::*;
use crate::hal::{message_from, message_text, Condition, DeviceState, Fault, Severity, State};
use crate::hal::{empty_message, lemma_ascii_len};

verus! {

/// What the driver backend reports each tick.
#[derive(Copy, Clone, Default)]
pub struct DriverData {
    pub stalled: bool,
    pub otp: bool,
    pub otpw: bool,
    pub sg_result: u16,
}

/// The part of a driver's status that the backend uses.
#[derive(Default, Clone, Copy)]
pub struct RawDriverStatus {
    pub over_temp_shutdown: bool,
    pub over_temp_prewarning: bool,
}

pub struct DriverCondition {
    pub stalled: bool,
    pub overtemp: bool,
    pub overtemp_warning: bool,
}

impl Condition for DriverCondition {
    /// Overtemperature is a fault, a stall a warning, anything else healthy.
    fn classify<S: State>(&self, _ctx: &DeviceState<S>) -> (f: Fault)
        ensures
            self.overtemp ==> f.severity == Severity::Fault && message_text(f.message)
                == "driver overtemperature"@,
            !self.overtemp && self.stalled ==> f.severity == Severity::Warning && message_text(
                f.message,
            ) == "stall detected"@,
            !self.overtemp && !self.stalled ==> f.severity == Severity::Healthy && message_text(
                f.message,
            ) == Seq::<char>::empty(),
    {
        if self.overtemp {
            proof {
                reveal_strlit("driver overtemperature");
                lemma_ascii_len("driver overtemperature");
            }
            return Fault { severity: Severity::Fault, message: message_from("driver overtemperature") };
        }
        if self.stalled {
            proof {
                reveal_strlit("stall detected");
                lemma_ascii_len("stall detected");
            }
            return Fault { severity: Severity::Warning, message: message_from("stall detected") };
        }
        Fault { severity: Severity::Healthy, message: empty_message() }
    }
}

/// Backend around a stepper driver `D`.
pub struct DriverBackend<D> {
    driver: D,
}

impl<D> DriverBackend<D> {
    pub closed spec fn spec_driver(&self) -> D {
        self.driver
    }

    pub fn new(driver: D) -> (b: Self)
        ensures
            b.spec_driver() == driver,
    {
        Self { driver }
    }

    /// The driver, for performing its operations.
    pub fn driver_mut(&mut self) -> (d: &mut D)
        ensures
            *d == old(self).spec_driver(),
            final(self).spec_driver() == *final(d),
    {
        &mut self.driver
    }

    /// The data of one tick from what the driver answered: a failed status
    /// read counts as no flag raised, a failed stallGuard read as 0, and a
    /// stallGuard result of 0 as a stall.
    pub fn tick_data<E1, E2>(status: Result<RawDriverStatus, E1>, sg: Result<u16, E2>) -> (d:
        DriverData)
        ensures
            d.sg_result == (match sg {
                Ok(v) => v,
                Err(_) => 0,
            }),
            d.stalled == (d.sg_result == 0),
            d.otp == (status matches Ok(s) && s.over_temp_shutdown),
            d.otpw == (status matches Ok(s) && s.over_temp_prewarning),
    {
        let status = match status {
            Ok(s) => s,
            Err(_) => RawDriverStatus { over_temp_shutdown: false, over_temp_prewarning: false },
        };
        let sg = match sg {
            Ok(v) => v,
            Err(_) => 0,
        };
        DriverData {
            stalled: sg == 0,
            otp: status.over_temp_shutdown,
            otpw: status.over_temp_prewarning,
            sg_result: sg,
        }
    }
}

} // verus!
