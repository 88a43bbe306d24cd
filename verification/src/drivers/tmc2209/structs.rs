//! Configuration and status types of the TMC2209 driver.

use vstd::prelude::*;
use crate::bits::{bit, read_bit};
use super::registers::DRV_STATUS;

verus! {

/// User-facing configuration of a TMC2209.
#[derive(Clone, Copy)]
pub struct Tmc2209Config {
    pub run_current_ma: u16,
    pub hold_current_ma: u16,
    pub sense_resistor_mohm: u16,
    pub microsteps: u16,
    pub interpolation: bool,
    pub shaft_reverse: bool,
    pub stealthchop: bool,
    pub stealthchop_threshold: Option<u32>,
    pub stallguard: Option<StallGuardConfig>,
    pub advanced: AdvancedConfig,
}

impl Default for Tmc2209Config {
    fn default() -> (c: Self)
        ensures
            c.run_current_ma == 800,
            c.hold_current_ma == 400,
            c.sense_resistor_mohm == 110,
            c.microsteps == 16,
            c.interpolation,
            !c.shaft_reverse,
            c.stealthchop,
            c.stealthchop_threshold is None,
            c.stallguard is None,
            c.advanced == AdvancedConfig::spec_default(),
    {
        Self {
            run_current_ma: 800,
            hold_current_ma: 400,
            sense_resistor_mohm: 110,
            microsteps: 16,
            interpolation: true,
            shaft_reverse: false,
            stealthchop: true,
            stealthchop_threshold: None,
            stallguard: None,
            advanced: AdvancedConfig::default(),
        }
    }
}

impl Tmc2209Config {
    pub fn with_run_current_ma(self, ma: u16) -> (r: Self)
        ensures
            r == (Self { run_current_ma: ma, ..self }),
    {
        let mut s = self;
        s.run_current_ma = ma;
        s
    }

    pub fn with_hold_current_ma(self, ma: u16) -> (r: Self)
        ensures
            r == (Self { hold_current_ma: ma, ..self }),
    {
        let mut s = self;
        s.hold_current_ma = ma;
        s
    }

    pub fn with_sense_resistor_mohm(self, mohm: u16) -> (r: Self)
        ensures
            r == (Self { sense_resistor_mohm: mohm, ..self }),
    {
        let mut s = self;
        s.sense_resistor_mohm = mohm;
        s
    }

    pub fn with_microsteps(self, microsteps: u16) -> (r: Self)
        ensures
            r == (Self { microsteps: microsteps, ..self }),
    {
        let mut s = self;
        s.microsteps = microsteps;
        s
    }

    pub fn with_interpolation(self, enabled: bool) -> (r: Self)
        ensures
            r == (Self { interpolation: enabled, ..self }),
    {
        let mut s = self;
        s.interpolation = enabled;
        s
    }

    pub fn with_shaft_reverse(self, reversed: bool) -> (r: Self)
        ensures
            r == (Self { shaft_reverse: reversed, ..self }),
    {
        let mut s = self;
        s.shaft_reverse = reversed;
        s
    }

    pub fn with_stealthchop(self, enabled: bool) -> (r: Self)
        ensures
            r == (Self { stealthchop: enabled, ..self }),
    {
        let mut s = self;
        s.stealthchop = enabled;
        s
    }

    pub fn with_stealthchop_threshold(self, threshold: u32) -> (r: Self)
        ensures
            r == (Self { stealthchop_threshold: Some(threshold), ..self }),
    {
        let mut s = self;
        s.stealthchop_threshold = Some(threshold);
        s
    }

    pub fn with_stallguard(self, config: StallGuardConfig) -> (r: Self)
        ensures
            r == (Self { stallguard: Some(config), ..self }),
    {
        let mut s = self;
        s.stallguard = Some(config);
        s
    }

    pub fn with_advanced(self, config: AdvancedConfig) -> (r: Self)
        ensures
            r == (Self { advanced: config, ..self }),
    {
        let mut s = self;
        s.advanced = config;
        s
    }
}

/// stallGuard4 settings: threshold, velocity threshold and optional coolStep.
#[derive(Clone, Copy)]
pub struct StallGuardConfig {
    pub threshold: u8,
    pub velocity_threshold: u32,
    pub coolstep: Option<CoolStepConfig>,
}

impl Default for StallGuardConfig {
    fn default() -> (c: Self)
        ensures
            c.threshold == 10,
            c.velocity_threshold == 0,
            c.coolstep is None,
    {
        Self { threshold: 10, velocity_threshold: 0, coolstep: None }
    }
}

impl StallGuardConfig {
    pub fn with_threshold(self, threshold: u8) -> (r: Self)
        ensures
            r == (Self { threshold: threshold, ..self }),
    {
        let mut s = self;
        s.threshold = threshold;
        s
    }

    pub fn with_velocity_threshold(self, tstep: u32) -> (r: Self)
        ensures
            r == (Self { velocity_threshold: tstep, ..self }),
    {
        let mut s = self;
        s.velocity_threshold = tstep;
        s
    }

    pub fn with_coolstep(self, config: CoolStepConfig) -> (r: Self)
        ensures
            r == (Self { coolstep: Some(config), ..self }),
    {
        let mut s = self;
        s.coolstep = Some(config);
        s
    }
}

/// coolStep (smart current) settings.
#[derive(Clone, Copy)]
pub struct CoolStepConfig {
    pub semin: u8,
    pub semax: u8,
    pub seup: u8,
    pub sedn: u8,
    pub quarter_current: bool,
}

impl Default for CoolStepConfig {
    fn default() -> (c: Self)
        ensures
            c.semin == 5,
            c.semax == 2,
            c.seup == 0,
            c.sedn == 0,
            !c.quarter_current,
    {
        Self { semin: 5, semax: 2, seup: 0, sedn: 0, quarter_current: false }
    }
}

/// Chopper, timing and PWM settings.
#[derive(Clone, Copy)]
pub struct AdvancedConfig {
    pub toff: u8,
    pub hstrt: u8,
    pub hend: u8,
    pub tbl: u8,
    pub iholddelay: u8,
    pub tpowerdown: u8,
    pub freewheel: FreewheelMode,
    pub pwm_freq: u8,
    pub pwm_autoscale: bool,
    pub pwm_autograd: bool,
    pub pwm_reg: u8,
    pub pwm_ofs: u8,
    pub pwm_grad: u8,
    pub multistep_filt: bool,
}

impl AdvancedConfig {
    pub open spec fn spec_default() -> Self {
        AdvancedConfig {
            toff: 3,
            hstrt: 4,
            hend: 1,
            tbl: 2,
            iholddelay: 8,
            tpowerdown: 20,
            freewheel: FreewheelMode::Normal,
            pwm_freq: 1,
            pwm_autoscale: true,
            pwm_autograd: true,
            pwm_reg: 8,
            pwm_ofs: 36,
            pwm_grad: 14,
            multistep_filt: true,
        }
    }
}

impl Default for AdvancedConfig {
    fn default() -> (c: Self)
        ensures
            c == Self::spec_default(),
    {
        Self {
            toff: 3,
            hstrt: 4,
            hend: 1,
            tbl: 2,
            iholddelay: 8,
            tpowerdown: 20,
            freewheel: FreewheelMode::Normal,
            pwm_freq: 1,
            pwm_autoscale: true,
            pwm_autograd: true,
            pwm_reg: 8,
            pwm_ofs: 36,
            pwm_grad: 14,
            multistep_filt: true,
        }
    }
}

/// Standstill behaviour when the hold current is zero.
#[derive(Clone, Copy, PartialEq, Eq, Structural)]
pub enum FreewheelMode {
    Normal,
    Freewheel,
    CoilShortLS,
    CoilShortHS,
}

impl FreewheelMode {
    /// The two-bit register encoding of the mode.
    pub open spec fn spec_bits(self) -> u8 {
        match self {
            FreewheelMode::Normal => 0,
            FreewheelMode::Freewheel => 1,
            FreewheelMode::CoilShortLS => 2,
            FreewheelMode::CoilShortHS => 3,
        }
    }

    pub fn bits(&self) -> (b: u8)
        ensures
            b == self.spec_bits(),
            b < 4,
    {
        match self {
            FreewheelMode::Normal => 0,
            FreewheelMode::Freewheel => 1,
            FreewheelMode::CoilShortLS => 2,
            FreewheelMode::CoilShortHS => 3,
        }
    }
}

/// Errors of the driver; `E` is the transport's error.
pub enum Tmc2209Error<E> {
    Transport(E),
    NoReply,
    CrcMismatch,
    InvalidMicrosteps,
    CurrentOutOfRange,
    InvalidParameter,
}

/// Decoded DRV_STATUS register.
#[derive(Clone, Copy, Default)]
pub struct DriverStatus {
    pub standstill: bool,
    pub stealth_active: bool,
    pub cs_actual: u8,
    pub over_temp_prewarning: bool,
    pub over_temp_shutdown: bool,
    pub temp_flag_120: bool,
    pub temp_flag_143: bool,
    pub temp_flag_150: bool,
    pub temp_flag_157: bool,
    pub short_to_gnd_a: bool,
    pub short_to_gnd_b: bool,
    pub short_low_a: bool,
    pub short_low_b: bool,
    pub open_load_a: bool,
    pub open_load_b: bool,
}

/// The status that a DRV_STATUS word encodes: flags at bits 0..=11, the
/// actual current scale at bits 16..=20, stealthChop at 30, standstill at 31.
pub open spec fn status_of(raw: u32) -> DriverStatus {
    DriverStatus {
        over_temp_prewarning: bit(raw, 0),
        over_temp_shutdown: bit(raw, 1),
        short_to_gnd_a: bit(raw, 2),
        short_to_gnd_b: bit(raw, 3),
        short_low_a: bit(raw, 4),
        short_low_b: bit(raw, 5),
        open_load_a: bit(raw, 6),
        open_load_b: bit(raw, 7),
        temp_flag_120: bit(raw, 8),
        temp_flag_143: bit(raw, 9),
        temp_flag_150: bit(raw, 10),
        temp_flag_157: bit(raw, 11),
        cs_actual: ((raw >> 16) & 0x1f) as u8,
        stealth_active: bit(raw, 30),
        standstill: bit(raw, 31),
    }
}

impl DriverStatus {
    /// Decodes a DRV_STATUS register.
    pub fn from_raw(reg: DRV_STATUS) -> (s: Self)
        ensures
            s == status_of(reg.raw_value),
    {
        let raw = reg.raw_value;
        #[verifier::truncate]
        let cs = ((raw >> 16) & 0x1f) as u8;
        Self {
            stealth_active: read_bit(raw, 30),
            cs_actual: cs,
            over_temp_prewarning: read_bit(raw, 0),
            standstill: read_bit(raw, 31),
            temp_flag_120: read_bit(raw, 8),
            temp_flag_143: read_bit(raw, 9),
            temp_flag_150: read_bit(raw, 10),
            temp_flag_157: read_bit(raw, 11),
            short_low_a: read_bit(raw, 4),
            short_low_b: read_bit(raw, 5),
            short_to_gnd_a: read_bit(raw, 2),
            short_to_gnd_b: read_bit(raw, 3),
            open_load_a: read_bit(raw, 6),
            open_load_b: read_bit(raw, 7),
            over_temp_shutdown: read_bit(raw, 1),
        }
    }
}

/// Decoded GSTAT register.
pub struct GlobalStatus {
    pub reset: bool,
    pub driver_error: bool,
    pub undervoltage: bool,
}

} // verus!
