//! Configuration and status types of the TMC2160 driver.

use vstd::prelude::*;
use crate::bits::{bit, read_bit};
use super::registers::DRV_STATUS;

verus! {

/// User-facing configuration of a TMC2160.
#[derive(Clone, Copy)]
pub struct Tmc2160Config {
    pub run_current_ma: u16,
    pub hold_current_ma: u16,
    pub sense_resistor_mohm: u16,
    /// Global current scaler: 0 = full scale (256/256), 32–255 = (value/256) × I_max
    pub global_scaler: u8,
    pub microsteps: u16,
    pub interpolation: bool,
    pub shaft_reverse: bool,
    pub stealthchop: bool,
    pub stealthchop_threshold: Option<u32>,
    pub stallguard: Option<StallGuardConfig>,
    pub advanced: AdvancedConfig,
}

impl Default for Tmc2160Config {
    fn default() -> (c: Self)
        ensures
            c.run_current_ma == 800,
            c.hold_current_ma == 200,
            c.sense_resistor_mohm == 110,
            c.global_scaler == 0,
            c.microsteps == 16,
            c.interpolation,
            !c.shaft_reverse,
            c.stealthchop,
            c.stealthchop_threshold is None,
            c.stallguard is None,
            c.advanced == AdvancedConfig::spec_default(),
    {
        Self {
            run_current_ma: 800,
            hold_current_ma: 200,
            sense_resistor_mohm: 110,
            global_scaler: 0,
            microsteps: 16,
            interpolation: true,
            shaft_reverse: false,
            stealthchop: true,
            stealthchop_threshold: None,
            stallguard: None,
            advanced: AdvancedConfig::default(),
        }
    }
}

impl Tmc2160Config {
    pub fn with_run_current_ma(self, ma: u16) -> (r: Self)
        ensures
            r == (Self { run_current_ma: ma, ..self }),
    {
        let mut s = self;
        s.run_current_ma = ma;
        s
    }

    pub fn with_hold_current_ma(self, ma: u16) -> (r: Self)
        ensures
            r == (Self { hold_current_ma: ma, ..self }),
    {
        let mut s = self;
        s.hold_current_ma = ma;
        s
    }

    pub fn with_sense_resistor_mohm(self, mohm: u16) -> (r: Self)
        ensures
            r == (Self { sense_resistor_mohm: mohm, ..self }),
    {
        let mut s = self;
        s.sense_resistor_mohm = mohm;
        s
    }

    pub fn with_global_scaler(self, scaler: u8) -> (r: Self)
        ensures
            r == (Self { global_scaler: scaler, ..self }),
    {
        let mut s = self;
        s.global_scaler = scaler;
        s
    }

    pub fn with_microsteps(self, microsteps: u16) -> (r: Self)
        ensures
            r == (Self { microsteps: microsteps, ..self }),
    {
        let mut s = self;
        s.microsteps = microsteps;
        s
    }

    pub fn with_interpolation(self, enabled: bool) -> (r: Self)
        ensures
            r == (Self { interpolation: enabled, ..self }),
    {
        let mut s = self;
        s.interpolation = enabled;
        s
    }

    pub fn with_shaft_reverse(self, reversed: bool) -> (r: Self)
        ensures
            r == (Self { shaft_reverse: reversed, ..self }),
    {
        let mut s = self;
        s.shaft_reverse = reversed;
        s
    }

    pub fn with_stealthchop(self, enabled: bool) -> (r: Self)
        ensures
            r == (Self { stealthchop: enabled, ..self }),
    {
        let mut s = self;
        s.stealthchop = enabled;
        s
    }

    pub fn with_stealthchop_threshold(self, threshold: u32) -> (r: Self)
        ensures
            r == (Self { stealthchop_threshold: Some(threshold), ..self }),
    {
        let mut s = self;
        s.stealthchop_threshold = Some(threshold);
        s
    }

    pub fn with_stallguard(self, config: StallGuardConfig) -> (r: Self)
        ensures
            r == (Self { stallguard: Some(config), ..self }),
    {
        let mut s = self;
        s.stallguard = Some(config);
        s
    }

    pub fn with_advanced(self, config: AdvancedConfig) -> (r: Self)
        ensures
            r == (Self { advanced: config, ..self }),
    {
        let mut s = self;
        s.advanced = config;
        s
    }
}

/// stallGuard2 settings.
#[derive(Clone, Copy)]
pub struct StallGuardConfig {
    /// stallGuard2 threshold (−64 to +63; higher = less sensitive)
    pub threshold: i8,
    /// TSTEP value below which stallGuard and coolStep are enabled
    pub velocity_threshold: u32,
    pub coolstep: Option<CoolStepConfig>,
}

impl Default for StallGuardConfig {
    fn default() -> (c: Self)
        ensures
            c.threshold == 10,
            c.velocity_threshold == 0,
            c.coolstep is None,
    {
        Self { threshold: 10, velocity_threshold: 0, coolstep: None }
    }
}

impl StallGuardConfig {
    pub fn with_threshold(self, threshold: i8) -> (r: Self)
        ensures
            r == (Self { threshold: threshold, ..self }),
    {
        let mut s = self;
        s.threshold = threshold;
        s
    }

    pub fn with_velocity_threshold(self, tstep: u32) -> (r: Self)
        ensures
            r == (Self { velocity_threshold: tstep, ..self }),
    {
        let mut s = self;
        s.velocity_threshold = tstep;
        s
    }

    pub fn with_coolstep(self, config: CoolStepConfig) -> (r: Self)
        ensures
            r == (Self { coolstep: Some(config), ..self }),
    {
        let mut s = self;
        s.coolstep = Some(config);
        s
    }
}

/// coolStep (smart current) settings.
#[derive(Clone, Copy)]
pub struct CoolStepConfig {
    pub semin: u8,
    pub semax: u8,
    pub seup: u8,
    pub sedn: u8,
    pub quarter_current: bool,
}

impl Default for CoolStepConfig {
    fn default() -> (c: Self)
        ensures
            c.semin == 5,
            c.semax == 2,
            c.seup == 0,
            c.sedn == 0,
            !c.quarter_current,
    {
        Self { semin: 5, semax: 2, seup: 0, sedn: 0, quarter_current: false }
    }
}

/// Chopper, timing, PWM, gate-driver and short-detection settings.
#[derive(Clone, Copy)]
pub struct AdvancedConfig {
    // Chopper
    pub toff: u8,
    pub hstrt: u8,
    pub hend: u8,
    pub tbl: u8,
    /// false = spreadCycle, true = classic constant off-time
    pub chm: bool,
    // Timing
    pub iholddelay: u8,
    pub tpowerdown: u8,
    // PWM (stealthChop)
    pub freewheel: FreewheelMode,
    pub pwm_freq: u8,
    pub pwm_autoscale: bool,
    pub pwm_autograd: bool,
    pub pwm_reg: u8,
    pub pwm_lim: u8,
    pub pwm_ofs: u8,
    pub pwm_grad: u8,
    // Driver
    pub drvstrength: u8,
    pub bbmtime: u8,
    pub bbmclks: u8,
    pub filt_isense: u8,
    // Short-circuit detection
    pub s2vs_level: u8,
    pub s2gnd_level: u8,
    pub multistep_filt: bool,
}

impl AdvancedConfig {
    pub open spec fn spec_default() -> Self {
        AdvancedConfig {
            toff: 3,
            hstrt: 4,
            hend: 1,
            tbl: 2,
            chm: false,
            iholddelay: 8,
            tpowerdown: 20,
            freewheel: FreewheelMode::Normal,
            pwm_freq: 1,
            pwm_autoscale: true,
            pwm_autograd: true,
            pwm_reg: 8,
            pwm_lim: 12,
            pwm_ofs: 36,
            pwm_grad: 14,
            drvstrength: 2,
            bbmtime: 0,
            bbmclks: 4,
            filt_isense: 0,
            s2vs_level: 6,
            s2gnd_level: 6,
            multistep_filt: true,
        }
    }
}

impl Default for AdvancedConfig {
    fn default() -> (c: Self)
        ensures
            c == Self::spec_default(),
    {
        Self {
            toff: 3,
            hstrt: 4,
            hend: 1,
            tbl: 2,
            chm: false,
            iholddelay: 8,
            tpowerdown: 20,
            freewheel: FreewheelMode::Normal,
            pwm_freq: 1,
            pwm_autoscale: true,
            pwm_autograd: true,
            pwm_reg: 8,
            pwm_lim: 12,
            pwm_ofs: 36,
            pwm_grad: 14,
            drvstrength: 2,
            bbmtime: 0,
            bbmclks: 4,
            filt_isense: 0,
            s2vs_level: 6,
            s2gnd_level: 6,
            multistep_filt: true,
        }
    }
}

/// Standstill behaviour when the hold current is zero.
#[derive(Clone, Copy, PartialEq, Eq, Structural)]
pub enum FreewheelMode {
    Normal,
    Freewheel,
    CoilShortLS,
    CoilShortHS,
}

impl FreewheelMode {
    /// The two-bit register encoding of the mode.
    pub open spec fn spec_bits(self) -> u8 {
        match self {
            FreewheelMode::Normal => 0,
            FreewheelMode::Freewheel => 1,
            FreewheelMode::CoilShortLS => 2,
            FreewheelMode::CoilShortHS => 3,
        }
    }

    pub fn bits(&self) -> (b: u8)
        ensures
            b == self.spec_bits(),
            b < 4,
    {
        match self {
            FreewheelMode::Normal => 0,
            FreewheelMode::Freewheel => 1,
            FreewheelMode::CoilShortLS => 2,
            FreewheelMode::CoilShortHS => 3,
        }
    }
}

/// Errors of the driver; `E` is the transport's error.
pub enum Tmc2160Error<E> {
    Transport(E),
    NoReply,
    InvalidMicrosteps,
    CurrentOutOfRange,
    InvalidParameter,
}

/// Decoded DRV_STATUS register.
#[derive(Clone, Copy, Default)]
pub struct DriverStatus {
    pub standstill: bool,
    pub stealth_active: bool,
    pub fullstep_active: bool,
    pub cs_actual: u8,
    pub sg_result: u16,
    pub stall_detected: bool,
    pub over_temp_prewarning: bool,
    pub over_temp_shutdown: bool,
    pub short_to_supply_a: bool,
    pub short_to_supply_b: bool,
    pub short_to_gnd_a: bool,
    pub short_to_gnd_b: bool,
    pub open_load_a: bool,
    pub open_load_b: bool,
}

/// The status that a DRV_STATUS word encodes: stallGuard2 result at bits
/// 0..=9, short-to-supply at 10 and 11, stealthChop at 12, fullstep at 13,
/// current scale at 16..=20, then stall, overtemperature, prewarning,
/// short-to-ground A/B, open load A/B and standstill at 24..=31.
pub open spec fn status_of(raw: u32) -> DriverStatus {
    DriverStatus {
        sg_result: (raw & 0x3FF) as u16,
        short_to_supply_a: bit(raw, 10),
        short_to_supply_b: bit(raw, 11),
        stealth_active: bit(raw, 12),
        fullstep_active: bit(raw, 13),
        cs_actual: ((raw >> 16) & 0x1f) as u8,
        stall_detected: bit(raw, 24),
        over_temp_shutdown: bit(raw, 25),
        over_temp_prewarning: bit(raw, 26),
        short_to_gnd_a: bit(raw, 27),
        short_to_gnd_b: bit(raw, 28),
        open_load_a: bit(raw, 29),
        open_load_b: bit(raw, 30),
        standstill: bit(raw, 31),
    }
}

impl DriverStatus {
    /// Decodes a DRV_STATUS register.
    pub fn from_raw(reg: DRV_STATUS) -> (s: Self)
        ensures
            s == status_of(reg.raw_value),
    {
        let raw = reg.raw_value;
        #[verifier::truncate]
        let cs = ((raw >> 16) & 0x1f) as u8;
        assert(raw & 0x3FF < 0x400) by (bit_vector);
        let sg = (raw & 0x3FF) as u16;
        Self {
            standstill: read_bit(raw, 31),
            stealth_active: read_bit(raw, 12),
            fullstep_active: read_bit(raw, 13),
            cs_actual: cs,
            sg_result: sg,
            stall_detected: read_bit(raw, 24),
            over_temp_prewarning: read_bit(raw, 26),
            over_temp_shutdown: read_bit(raw, 25),
            short_to_supply_a: read_bit(raw, 10),
            short_to_supply_b: read_bit(raw, 11),
            short_to_gnd_a: read_bit(raw, 27),
            short_to_gnd_b: read_bit(raw, 28),
            open_load_a: read_bit(raw, 29),
            open_load_b: read_bit(raw, 30),
        }
    }
}

/// Decoded GSTAT register.
pub struct GlobalStatus {
    pub reset: bool,
    pub driver_error: bool,
    pub undervoltage: bool,
}

} // verus!
