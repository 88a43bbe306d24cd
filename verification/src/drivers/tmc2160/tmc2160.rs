//! The TMC2160 driver: which registers it writes, with which values and in
//! which order, and how it decodes what it reads back. The SPI transfers run
//! outside this crate; every operation here yields the register operations
//! to perform and the result it returns once they have all succeeded.

use vstd::prelude::*;
use super::registers::{
    drvconf_value, gconf_value, short_conf_value, spec_drvconf, spec_gconf, spec_short_conf,
    write_frame, Frame, WriteFrame, CHOPCONF, COOLCONF, DRVCONF, DRV_STATUS, GCONF, GLOBALSCALER,
    IHOLDIRUN, PWMCONF, SHORT_CONF, TCOOLTHRS, TPOWERDOWN, TPWMTHRS,
};
use super::structs::{
    status_of, CoolStepConfig, DriverStatus, StallGuardConfig, Tmc2160Config, Tmc2160Error,
};
use crate::drivers::regfields::{
    chopconf_value, coolconf_sgt_value, coolconf_with_coolstep, ihold_irun_value, pwmconf_value,
    spec_chopconf, spec_coolconf_sgt, spec_coolconf_with_coolstep, spec_ihold_irun, spec_pwmconf,
};
use crate::drivers::tmc2209::tmc2209::spec_mres;

verus! {

/// One step of a register sequence.
#[derive(Clone, Copy)]
pub enum Tmc2160Op {
    /// Write `data` to the register at `address`.
    Write { address: u8, data: u32 },
    /// Read COOLCONF, put the coolStep fields of `coolstep` into the word
    /// read (see `Tmc2160::merge_coolstep`) and write it back.
    MergeCoolStep { coolstep: CoolStepConfig },
}

/// A register sequence and the result it ends with: the operations are
/// performed in order, stopping at the first transport failure; when all of
/// them succeed the operation returns `outcome`.
pub struct Tmc2160Plan<E> {
    pub ops: Vec<Tmc2160Op>,
    pub outcome: Result<(), Tmc2160Error<E>>,
}

pub open spec fn write_op(address: u8, data: u32) -> Tmc2160Op {
    Tmc2160Op::Write { address, data }
}

// ─── Current scale ──────────────────────────────────────────────────────────

/// The divisor of the global scaler: 256 for 0, the scaler itself otherwise.
pub open spec fn scale_of(global_scaler: u8) -> int {
    if global_scaler == 0 {
        256
    } else {
        global_scaler as int
    }
}

/// Current scale: `CS = ⌊I·32·1414·(R+20)·256 / (325·10⁶·scale)⌋ − 1`
/// (saturating at 0), `None` above 31.
pub open spec fn spec_ma_to_cs(current_ma: u16, sense_resistor_mohm: u16, global_scaler: u8) -> Option<
    u8,
> {
    let q = (current_ma * 32 * 1414 * (sense_resistor_mohm + 20) * 256) / (325_000_000
        * scale_of(global_scaler));
    let cs = if q >= 1 {
        q - 1
    } else {
        0
    };
    if cs > 31 {
        None
    } else {
        Some(cs as u8)
    }
}

// ─── Register words and steps ───────────────────────────────────────────────

pub open spec fn run_cs(c: Tmc2160Config) -> Option<u8> {
    spec_ma_to_cs(c.run_current_ma, c.sense_resistor_mohm, c.global_scaler)
}

pub open spec fn hold_cs(c: Tmc2160Config) -> Option<u8> {
    spec_ma_to_cs(c.hold_current_ma, c.sense_resistor_mohm, c.global_scaler)
}

pub open spec fn current_ok(c: Tmc2160Config) -> bool {
    run_cs(c) is Some && hold_cs(c) is Some
}

pub open spec fn gconf_ops(c: Tmc2160Config) -> Seq<Tmc2160Op> {
    seq![write_op(GCONF, spec_gconf(c.stealthchop, c.shaft_reverse, c.advanced.multistep_filt))]
}

pub open spec fn short_conf_ops(c: Tmc2160Config) -> Seq<Tmc2160Op> {
    seq![write_op(SHORT_CONF, spec_short_conf(c.advanced.s2vs_level, c.advanced.s2gnd_level))]
}

pub open spec fn driver_conf_ops(c: Tmc2160Config) -> Seq<Tmc2160Op> {
    seq![
        write_op(
            DRVCONF,
            spec_drvconf(
                c.advanced.bbmtime,
                c.advanced.bbmclks,
                c.advanced.drvstrength,
                c.advanced.filt_isense,
            ),
        ),
    ]
}

pub open spec fn global_scaler_ops(c: Tmc2160Config) -> Seq<Tmc2160Op> {
    seq![write_op(GLOBALSCALER, c.global_scaler as u32)]
}

pub open spec fn chopper_ops(c: Tmc2160Config) -> Seq<Tmc2160Op> {
    if spec_mres(c.microsteps) is Some {
        seq![
            write_op(
                CHOPCONF,
                spec_chopconf(
                    c.advanced.toff,
                    c.advanced.hstrt,
                    c.advanced.hend,
                    c.advanced.chm,
                    c.advanced.tbl,
                    spec_mres(c.microsteps)->0,
                    c.interpolation,
                ),
            ),
        ]
    } else {
        seq![]
    }
}

pub open spec fn current_ops(c: Tmc2160Config) -> Seq<Tmc2160Op> {
    if current_ok(c) {
        seq![
            write_op(
                IHOLDIRUN,
                spec_ihold_irun(hold_cs(c)->0, run_cs(c)->0, c.advanced.iholddelay),
            ),
        ]
    } else {
        seq![]
    }
}

pub open spec fn standstill_ops(c: Tmc2160Config) -> Seq<Tmc2160Op> {
    seq![write_op(TPOWERDOWN, c.advanced.tpowerdown as u32)]
}

pub open spec fn stealthchop_ops(c: Tmc2160Config) -> Seq<Tmc2160Op> {
    let threshold = match c.stealthchop_threshold {
        Some(t) => seq![write_op(TPWMTHRS, t)],
        None => seq![],
    };
    threshold.push(
        write_op(
            PWMCONF,
            spec_pwmconf(
                c.advanced.pwm_ofs,
                c.advanced.pwm_grad,
                c.advanced.pwm_freq,
                c.advanced.pwm_autoscale,
                c.advanced.pwm_autograd,
                c.advanced.freewheel.spec_bits(),
                c.advanced.pwm_reg,
                c.advanced.pwm_lim,
            ),
        ),
    )
}

/// The seven-bit two's complement encoding of the stallGuard2 threshold.
pub open spec fn sgt_bits(threshold: i8) -> u8 {
    ((threshold as u8) & 0x7F) as u8
}

pub open spec fn stall_detection_ops(sg: StallGuardConfig) -> Seq<Tmc2160Op> {
    seq![
        write_op(TCOOLTHRS, sg.velocity_threshold),
        write_op(COOLCONF, spec_coolconf_sgt(sgt_bits(sg.threshold))),
    ]
}

pub open spec fn stallguard_ops(c: Tmc2160Config) -> Seq<Tmc2160Op> {
    match c.stallguard {
        Some(sg) => stall_detection_ops(sg) + match sg.coolstep {
            Some(cs) => seq![Tmc2160Op::MergeCoolStep { coolstep: cs }],
            None => seq![],
        },
        None => seq![],
    }
}

/// The register sequence of `init`: SHORT_CONF, DRV_CONF, GLOBALSCALER,
/// GCONF, CHOPCONF, IHOLD_IRUN, TPOWERDOWN, the stealthChop registers and
/// the stallGuard registers; it stops before CHOPCONF when the microstep
/// resolution is invalid and before IHOLD_IRUN when a current is out of
/// range.
pub open spec fn spec_init_ops(c: Tmc2160Config) -> Seq<Tmc2160Op> {
    let a = short_conf_ops(c) + driver_conf_ops(c) + global_scaler_ops(c) + gconf_ops(c);
    if spec_mres(c.microsteps) is None {
        a
    } else if !current_ok(c) {
        a + chopper_ops(c)
    } else {
        a + chopper_ops(c) + current_ops(c) + standstill_ops(c) + stealthchop_ops(c)
            + stallguard_ops(c)
    }
}

pub open spec fn spec_init_outcome<E>(c: Tmc2160Config) -> Result<(), Tmc2160Error<E>> {
    if spec_mres(c.microsteps) is None {
        Err(Tmc2160Error::InvalidMicrosteps)
    } else if !current_ok(c) {
        Err(Tmc2160Error::CurrentOutOfRange)
    } else {
        Ok(())
    }
}

/// Field values fit their registers on every step that `init` reaches.
pub open spec fn preamble_fits(c: Tmc2160Config) -> bool {
    &&& c.advanced.s2vs_level < 16
    &&& c.advanced.s2gnd_level < 16
    &&& c.advanced.bbmtime < 32
    &&& c.advanced.bbmclks < 16
    &&& c.advanced.drvstrength < 4
    &&& c.advanced.filt_isense < 4
}

pub open spec fn chopper_fits(c: Tmc2160Config) -> bool {
    spec_mres(c.microsteps) is Some ==> {
        &&& c.advanced.toff < 16
        &&& c.advanced.hstrt < 8
        &&& c.advanced.hend < 16
        &&& c.advanced.tbl < 4
    }
}

pub open spec fn current_fits(c: Tmc2160Config) -> bool {
    current_ok(c) ==> c.advanced.iholddelay < 16
}

pub open spec fn stealthchop_fits(c: Tmc2160Config) -> bool {
    c.advanced.pwm_freq < 4 && c.advanced.pwm_reg < 16 && c.advanced.pwm_lim < 16
}

pub open spec fn coolstep_fits(cs: CoolStepConfig) -> bool {
    cs.semin < 16 && cs.semax < 16 && cs.seup < 4 && cs.sedn < 4
}

pub open spec fn init_fits(c: Tmc2160Config) -> bool {
    &&& preamble_fits(c)
    &&& chopper_fits(c)
    &&& spec_mres(c.microsteps) is Some ==> current_fits(c)
    &&& (spec_mres(c.microsteps) is Some && current_ok(c)) ==> stealthchop_fits(c)
}

/// TMC2160 over an SPI transport `T`.
pub struct Tmc2160<T> {
    transport: T,
    config: Option<Tmc2160Config>,
}

impl<T> Tmc2160<T> {
    pub closed spec fn spec_transport(&self) -> T {
        self.transport
    }

    /// The configuration applied by the last successful `init`, as updated
    /// by the runtime setters.
    pub closed spec fn spec_config(&self) -> Option<Tmc2160Config> {
        self.config
    }

    pub fn new(transport: T) -> (s: Self)
        ensures
            s.spec_transport() == transport,
            s.spec_config() is None,
    {
        Self { transport, config: None }
    }

    pub fn config(&self) -> (c: Option<Tmc2160Config>)
        ensures
            c == self.spec_config(),
    {
        self.config
    }

    /// The transport, for performing the transfers of a plan.
    pub fn transport_mut(&mut self) -> (t: &mut T)
        ensures
            *t == old(self).spec_transport(),
            final(self).spec_transport() == *final(t),
            final(self).spec_config() == old(self).spec_config(),
    {
        &mut self.transport
    }

    /// The register sequence and result of `init(config)`.
    pub fn init_plan<E>(config: &Tmc2160Config) -> (p: Tmc2160Plan<E>)
        requires
            init_fits(*config),
        ensures
            p.ops@ == spec_init_ops(*config),
            p.outcome == spec_init_outcome::<E>(*config),
    {
        let mut ops: Vec<Tmc2160Op> = Vec::new();
        Self::apply_short_conf(config, &mut ops);
        Self::apply_driver_conf(config, &mut ops);
        Self::apply_global_scaler(config, &mut ops);
        Self::apply_gconf(config, &mut ops);
        if let Err(e) = Self::apply_chopper::<E>(config, &mut ops) {
            return Tmc2160Plan { ops, outcome: Err(e) };
        }
        if let Err(e) = Self::apply_current::<E>(config, &mut ops) {
            return Tmc2160Plan { ops, outcome: Err(e) };
        }
        Self::apply_standstill(config, &mut ops);
        Self::apply_stealthchop(config, &mut ops);
        if let Some(sg) = config.stallguard {
            Self::apply_stall_detection(&sg, &mut ops);
            if let Some(cs) = sg.coolstep {
                ops.push(Tmc2160Op::MergeCoolStep { coolstep: cs });
            }
        }
        let ghost c = *config;
        assert(ops@ =~= spec_init_ops(c));
        Tmc2160Plan { ops, outcome: Ok(()) }
    }

    /// Records the configuration once every step of `init` has succeeded.
    pub fn finish_init(&mut self, config: Tmc2160Config)
        ensures
            final(self).spec_config() == Some(config),
            final(self).spec_transport() == old(self).spec_transport(),
    {
        self.config = Some(config);
    }

    // ── Public runtime methods ──

    /// Sets the run current in the recorded configuration and yields the
    /// IHOLD_IRUN write for it; without a recorded configuration it fails
    /// with `InvalidParameter` and changes nothing.
    pub fn set_run_current_ma<E>(&mut self, ma: u16) -> (r: Result<Tmc2160Plan<E>, Tmc2160Error<E>>)
        requires
            old(self).spec_config() matches Some(c) ==> current_fits(
                Tmc2160Config { run_current_ma: ma, ..c },
            ),
        ensures
            final(self).spec_transport() == old(self).spec_transport(),
            match old(self).spec_config() {
                None => {
                    &&& r matches Err(Tmc2160Error::InvalidParameter)
                    &&& final(self).spec_config() is None
                },
                Some(c) => {
                    let n = Tmc2160Config { run_current_ma: ma, ..c };
                    &&& final(self).spec_config() == Some(n)
                    &&& r matches Ok(p) && p.ops@ == current_ops(n) && p.outcome == (if current_ok(
                        n,
                    ) {
                        Ok(())
                    } else {
                        Err(Tmc2160Error::<E>::CurrentOutOfRange)
                    })
                },
            },
    {
        let mut config = match self.config {
            Some(c) => c,
            None => return Err(Tmc2160Error::InvalidParameter),
        };
        config.run_current_ma = ma;
        self.config = Some(config);
        let mut ops: Vec<Tmc2160Op> = Vec::new();
        let outcome = Self::apply_current::<E>(&config, &mut ops);
        assert(ops@ =~= current_ops(config));
        Ok(Tmc2160Plan { ops, outcome })
    }

    /// Sets the microstep resolution in the recorded configuration and
    /// yields the CHOPCONF write for it; without a recorded configuration it
    /// fails with `InvalidParameter` and changes nothing.
    pub fn set_microsteps<E>(&mut self, microsteps: u16) -> (r: Result<
        Tmc2160Plan<E>,
        Tmc2160Error<E>,
    >)
        requires
            old(self).spec_config() matches Some(c) ==> chopper_fits(
                Tmc2160Config { microsteps: microsteps, ..c },
            ),
        ensures
            final(self).spec_transport() == old(self).spec_transport(),
            match old(self).spec_config() {
                None => {
                    &&& r matches Err(Tmc2160Error::InvalidParameter)
                    &&& final(self).spec_config() is None
                },
                Some(c) => {
                    let n = Tmc2160Config { microsteps: microsteps, ..c };
                    &&& final(self).spec_config() == Some(n)
                    &&& r matches Ok(p) && p.ops@ == chopper_ops(n) && p.outcome == (if spec_mres(
                        microsteps,
                    ) is Some {
                        Ok(())
                    } else {
                        Err(Tmc2160Error::<E>::InvalidMicrosteps)
                    })
                },
            },
    {
        let mut config = match self.config {
            Some(c) => c,
            None => return Err(Tmc2160Error::InvalidParameter),
        };
        config.microsteps = microsteps;
        self.config = Some(config);
        let mut ops: Vec<Tmc2160Op> = Vec::new();
        let outcome = Self::apply_chopper::<E>(&config, &mut ops);
        assert(ops@ =~= chopper_ops(config));
        Ok(Tmc2160Plan { ops, outcome })
    }

    /// Sets the shaft direction in the recorded configuration and yields the
    /// GCONF write for it; without a recorded configuration it fails with
    /// `InvalidParameter` and changes nothing.
    pub fn reverse_shaft<E>(&mut self, reversed: bool) -> (r: Result<
        Tmc2160Plan<E>,
        Tmc2160Error<E>,
    >)
        ensures
            final(self).spec_transport() == old(self).spec_transport(),
            match old(self).spec_config() {
                None => {
                    &&& r matches Err(Tmc2160Error::InvalidParameter)
                    &&& final(self).spec_config() is None
                },
                Some(c) => {
                    let n = Tmc2160Config { shaft_reverse: reversed, ..c };
                    &&& final(self).spec_config() == Some(n)
                    &&& r matches Ok(p) && p.ops@ == gconf_ops(n) && p.outcome is Ok
                },
            },
    {
        let mut config = match self.config {
            Some(c) => c,
            None => return Err(Tmc2160Error::InvalidParameter),
        };
        config.shaft_reverse = reversed;
        self.config = Some(config);
        let mut ops: Vec<Tmc2160Op> = Vec::new();
        Self::apply_gconf(&config, &mut ops);
        assert(ops@ =~= gconf_ops(config));
        Ok(Tmc2160Plan { ops, outcome: Ok(()) })
    }

    // ── Register IO ──

    /// The SPI write datagram for `data` at `address`.
    pub fn write_frame(address: u8, data: u32) -> (f: [u8; 5])
        requires
            address < 0x80,
        ensures
            f@ == write_frame(data, address),
    {
        <WriteFrame as Frame>::make_frame(data, address)
    }

    /// The first datagram of a register read: the address with the write
    /// bit cleared, then four zero bytes.
    pub fn read_request(address: u8) -> (f: [u8; 5])
        ensures
            f@ == seq![address & 0x7F, 0u8, 0u8, 0u8, 0u8],
    {
        let f: [u8; 5] = [address & 0x7F, 0, 0, 0, 0];
        assert(f@ =~= seq![address & 0x7F, 0u8, 0u8, 0u8, 0u8]);
        f
    }

    /// The second datagram of a register read, which clocks the data out.
    pub fn dummy_frame() -> (f: [u8; 5])
        ensures
            f@ == seq![0u8, 0u8, 0u8, 0u8, 0u8],
    {
        let f: [u8; 5] = [0, 0, 0, 0, 0];
        assert(f@ =~= seq![0u8, 0u8, 0u8, 0u8, 0u8]);
        f
    }

    /// The register value in the reply to the dummy datagram: bytes 1..=4,
    /// most significant first; no reply gives `NoReply`.
    pub fn decode_reply<E>(reply: Option<[u8; 5]>) -> (r: Result<u32, Tmc2160Error<E>>)
        ensures
            match reply {
                None => r matches Err(Tmc2160Error::NoReply),
                Some(b) => r == Ok::<u32, Tmc2160Error<E>>(
                    ((b[1] as u32) << 24) | ((b[2] as u32) << 16) | ((b[3] as u32) << 8) | (
                    b[4] as u32),
                ),
            },
    {
        let reply = match reply {
            Some(b) => b,
            None => return Err(Tmc2160Error::NoReply),
        };
        let raw = ((reply[1] as u32) << 24) | ((reply[2] as u32) << 16) | ((reply[3] as u32) << 8)
            | (reply[4] as u32);
        Ok(raw)
    }

    /// The COOLCONF word written back by a coolStep merge: the word read
    /// with its coolStep fields replaced.
    pub fn merge_coolstep(current: u32, cs: &CoolStepConfig) -> (r: u32)
        requires
            coolstep_fits(*cs),
        ensures
            r == spec_coolconf_with_coolstep(
                current,
                cs.semin,
                cs.seup,
                cs.semax,
                cs.sedn,
                cs.quarter_current,
            ),
    {
        coolconf_with_coolstep(current, cs.semin, cs.seup, cs.semax, cs.sedn, cs.quarter_current)
    }

    /// The status that a DRV_STATUS read returned.
    pub fn status_from(raw: u32) -> (s: DriverStatus)
        ensures
            s == status_of(raw),
    {
        DriverStatus::from_raw(DRV_STATUS::new_with_raw_value(raw))
    }

    /// The stallGuard2 result in a DRV_STATUS word: its low ten bits.
    pub fn stall_result_from(raw: u32) -> (sg: u16)
        ensures
            sg == raw & 0x3FF,
    {
        assert((raw & 0x3FF) < 0x400) by (bit_vector);
        (raw & 0x3FF) as u16
    }

    /// The interface counter in an IFCNT word: its low byte.
    pub fn heartbeat_from(raw: u32) -> (count: u8)
        ensures
            count == raw as u8,
    {
        raw as u8
    }

    // ── Register writers ──

    fn apply_gconf(config: &Tmc2160Config, ops: &mut Vec<Tmc2160Op>)
        ensures
            final(ops)@ == old(ops)@ + gconf_ops(*config),
    {
        let payload = gconf_value(
            config.stealthchop,
            config.shaft_reverse,
            config.advanced.multistep_filt,
        );
        ops.push(Tmc2160Op::Write { address: GCONF, data: payload });
        assert(ops@ =~= old(ops)@ + gconf_ops(*config));
    }

    fn apply_short_conf(config: &Tmc2160Config, ops: &mut Vec<Tmc2160Op>)
        requires
            preamble_fits(*config),
        ensures
            final(ops)@ == old(ops)@ + short_conf_ops(*config),
    {
        let payload = short_conf_value(config.advanced.s2vs_level, config.advanced.s2gnd_level);
        ops.push(Tmc2160Op::Write { address: SHORT_CONF, data: payload });
        assert(ops@ =~= old(ops)@ + short_conf_ops(*config));
    }

    fn apply_driver_conf(config: &Tmc2160Config, ops: &mut Vec<Tmc2160Op>)
        requires
            preamble_fits(*config),
        ensures
            final(ops)@ == old(ops)@ + driver_conf_ops(*config),
    {
        let payload = drvconf_value(
            config.advanced.bbmtime,
            config.advanced.bbmclks,
            config.advanced.drvstrength,
            config.advanced.filt_isense,
        );
        ops.push(Tmc2160Op::Write { address: DRVCONF, data: payload });
        assert(ops@ =~= old(ops)@ + driver_conf_ops(*config));
    }

    fn apply_global_scaler(config: &Tmc2160Config, ops: &mut Vec<Tmc2160Op>)
        ensures
            final(ops)@ == old(ops)@ + global_scaler_ops(*config),
    {
        ops.push(Tmc2160Op::Write { address: GLOBALSCALER, data: config.global_scaler as u32 });
        assert(ops@ =~= old(ops)@ + global_scaler_ops(*config));
    }

    fn apply_chopper<E>(config: &Tmc2160Config, ops: &mut Vec<Tmc2160Op>) -> (r: Result<
        (),
        Tmc2160Error<E>,
    >)
        requires
            chopper_fits(*config),
        ensures
            final(ops)@ == old(ops)@ + chopper_ops(*config),
            r == (if spec_mres(config.microsteps) is Some {
                Ok(())
            } else {
                Err(Tmc2160Error::<E>::InvalidMicrosteps)
            }),
    {
        let mres = match crate::drivers::tmc2209::tmc2209::Tmc2209::<()>::mres_from_microsteps(
            config.microsteps,
        ) {
            Some(m) => m,
            None => {
                assert(old(ops)@ + chopper_ops(*config) =~= old(ops)@);
                return Err(Tmc2160Error::InvalidMicrosteps);
            },
        };
        let payload = chopconf_value(
            config.advanced.toff,
            config.advanced.hstrt,
            config.advanced.hend,
            config.advanced.chm,
            config.advanced.tbl,
            mres,
            config.interpolation,
        );
        ops.push(Tmc2160Op::Write { address: CHOPCONF, data: payload });
        assert(ops@ =~= old(ops)@ + chopper_ops(*config));
        Ok(())
    }

    fn apply_current<E>(config: &Tmc2160Config, ops: &mut Vec<Tmc2160Op>) -> (r: Result<
        (),
        Tmc2160Error<E>,
    >)
        requires
            current_fits(*config),
        ensures
            final(ops)@ == old(ops)@ + current_ops(*config),
            r == (if current_ok(*config) {
                Ok(())
            } else {
                Err(Tmc2160Error::<E>::CurrentOutOfRange)
            }),
    {
        let irun = match Self::ma_to_cs(
            config.run_current_ma,
            config.sense_resistor_mohm,
            config.global_scaler,
        ) {
            Some(v) => v,
            None => {
                assert(old(ops)@ + current_ops(*config) =~= old(ops)@);
                return Err(Tmc2160Error::CurrentOutOfRange);
            },
        };
        let ihold = match Self::ma_to_cs(
            config.hold_current_ma,
            config.sense_resistor_mohm,
            config.global_scaler,
        ) {
            Some(v) => v,
            None => {
                assert(old(ops)@ + current_ops(*config) =~= old(ops)@);
                return Err(Tmc2160Error::CurrentOutOfRange);
            },
        };
        let payload = ihold_irun_value(ihold, irun, config.advanced.iholddelay);
        ops.push(Tmc2160Op::Write { address: IHOLDIRUN, data: payload });
        assert(ops@ =~= old(ops)@ + current_ops(*config));
        Ok(())
    }

    fn apply_standstill(config: &Tmc2160Config, ops: &mut Vec<Tmc2160Op>)
        ensures
            final(ops)@ == old(ops)@ + standstill_ops(*config),
    {
        ops.push(Tmc2160Op::Write { address: TPOWERDOWN, data: config.advanced.tpowerdown as u32 });
        assert(ops@ =~= old(ops)@ + standstill_ops(*config));
    }

    fn apply_stealthchop(config: &Tmc2160Config, ops: &mut Vec<Tmc2160Op>)
        requires
            stealthchop_fits(*config),
        ensures
            final(ops)@ == old(ops)@ + stealthchop_ops(*config),
    {
        if let Some(threshold) = config.stealthchop_threshold {
            ops.push(Tmc2160Op::Write { address: TPWMTHRS, data: threshold });
        }
        let payload = pwmconf_value(
            config.advanced.pwm_ofs,
            config.advanced.pwm_grad,
            config.advanced.pwm_freq,
            config.advanced.pwm_autoscale,
            config.advanced.pwm_autograd,
            config.advanced.freewheel.bits(),
            config.advanced.pwm_reg,
            config.advanced.pwm_lim,
        );
        ops.push(Tmc2160Op::Write { address: PWMCONF, data: payload });
        assert(ops@ =~= old(ops)@ + stealthchop_ops(*config));
    }

    fn apply_stall_detection(sg: &StallGuardConfig, ops: &mut Vec<Tmc2160Op>)
        ensures
            final(ops)@ == old(ops)@ + stall_detection_ops(*sg),
    {
        ops.push(Tmc2160Op::Write { address: TCOOLTHRS, data: sg.velocity_threshold });
        let raw = sg.threshold as u8;
        let sgt = raw & 0x7F;
        assert(sgt < 128) by (bit_vector)
            requires
                sgt == raw & 0x7F,
        ;
        let payload = coolconf_sgt_value(sgt);
        ops.push(Tmc2160Op::Write { address: COOLCONF, data: payload });
        assert(ops@ =~= old(ops)@ + stall_detection_ops(*sg));
    }

    // ── Helpers ──

    pub fn mres_from_microsteps(microsteps: u16) -> (r: Option<u8>)
        ensures
            r == spec_mres(microsteps),
    {
        crate::drivers::tmc2209::tmc2209::Tmc2209::<()>::mres_from_microsteps(microsteps)
    }

    pub fn ma_to_cs(current_ma: u16, sense_resistor_mohm: u16, global_scaler: u8) -> (r: Option<u8>)
        ensures
            r == spec_ma_to_cs(current_ma, sense_resistor_mohm, global_scaler),
    {
        let scale: u64 = if global_scaler == 0 {
            256
        } else {
            global_scaler as u64
        };
        proof {
            lemma_2160_numerator_fits(current_ma, sense_resistor_mohm);
        }
        let numerator: u64 = (current_ma as u64) * 32 * 1414 * (sense_resistor_mohm as u64 + 20)
            * 256;
        let denominator: u64 = 325 * 1000 * 1000 * scale;
        let cs = (numerator / denominator).saturating_sub(1);
        if cs > 31 {
            None
        } else {
            Some(cs as u8)
        }
    }
}

/// The numerator of the current computation and each of its partial
/// products fit in 64 bits for every input.
proof fn lemma_2160_numerator_fits(ma: u16, r: u16)
    ensures
        (ma as u64) * 32 <= u64::MAX,
        (ma as u64) * 32 * 1414 <= u64::MAX,
        (ma as u64) * 32 * 1414 * (r as u64 + 20) <= u64::MAX,
        (ma as u64) * 32 * 1414 * (r as u64 + 20) * 256 <= u64::MAX,
{
    let a = (ma as int) * 32 * 1414;
    let b = r as int + 20;
    assert(a <= 2_965_327_680);
    assert(b <= 65_555);
    assert(a * b <= 2_965_327_680 * 65_555) by (nonlinear_arith)
        requires
            0 <= a <= 2_965_327_680,
            0 <= b <= 65_555,
    ;
}

/// The COOLCONF word that stall detection writes holds the threshold in
/// SGT (bits 16–22) as a seven-bit two's complement number: read back, it
/// is the threshold itself, for every threshold from −64 to 63; no other bit
/// is set. It follows the TCOOLTHRS write of the velocity threshold.
pub proof fn lemma_stall_threshold_read_back(sg: StallGuardConfig)
    requires
        -64 <= sg.threshold <= 63,
    ensures
        stall_detection_ops(sg)[0] == (Tmc2160Op::Write { address: 0x14, data: sg.velocity_threshold }),
        stall_detection_ops(sg)[1] matches Tmc2160Op::Write { address, data } && address == 0x6D && ({
            let f = (data >> 16) & 0x7F;
            &&& (if f >= 64 {
                f - 128
            } else {
                f as int
            }) == sg.threshold
            &&& data & !0x007F_0000u32 == 0
        }),
{
    let t = sg.threshold;
    let b = sgt_bits(t);
    let data = spec_coolconf_sgt(b);
    assert(b < 128 && (t >= 0 ==> b == t) && (t < 0 ==> b == t + 128)) by (bit_vector)
        requires
            -64 <= t <= 63,
            b == ((t as u8) & 0x7F) as u8,
    ;
    assert((data >> 16) & 0x7F == b as u32 && data & !0x007F_0000u32 == 0) by (bit_vector)
        requires
            b < 128,
            data == (b as u32) << 16,
    ;
}

// ── Field ranges ────────────────────────────────────────────────────────────

/// Whether the driver, short-protection and chopper fields fit their
/// registers (the register constructors refuse a value that does not fit).
fn preamble_fits_registers(c: &Tmc2160Config) -> (b: bool)
    ensures
        b == preamble_fits(*c),
{
    let a = &c.advanced;
    a.s2vs_level < 16 && a.s2gnd_level < 16 && a.bbmtime < 32 && a.bbmclks < 16 && a.drvstrength
        < 4 && a.filt_isense < 4
}

/// Whether the microstep resolution's chopper fields fit their registers.
pub fn chopper_fits_registers(c: &Tmc2160Config) -> (b: bool)
    ensures
        b == chopper_fits(*c),
{
    let a = &c.advanced;
    Tmc2160::<()>::mres_from_microsteps(c.microsteps).is_none() || (a.toff < 16 && a.hstrt < 8
        && a.hend < 16 && a.tbl < 4)
}

/// Whether both currents have a current scale.
fn currents_ok(c: &Tmc2160Config) -> (b: bool)
    ensures
        b == current_ok(*c),
{
    Tmc2160::<()>::ma_to_cs(c.run_current_ma, c.sense_resistor_mohm, c.global_scaler).is_some()
        && Tmc2160::<()>::ma_to_cs(c.hold_current_ma, c.sense_resistor_mohm, c.global_scaler).is_some()
}

/// Whether the current register's fields fit.
pub fn current_fits_registers(c: &Tmc2160Config) -> (b: bool)
    ensures
        b == current_fits(*c),
{
    !currents_ok(c) || c.advanced.iholddelay < 16
}

/// Whether every field value that `init` writes fits its register.
pub fn init_fits_registers(c: &Tmc2160Config) -> (b: bool)
    ensures
        b == init_fits(*c),
{
    if !preamble_fits_registers(c) || !chopper_fits_registers(c) {
        return false;
    }
    if Tmc2160::<()>::mres_from_microsteps(c.microsteps).is_none() {
        return true;
    }
    if !current_fits_registers(c) {
        return false;
    }
    let ok = currents_ok(c);
    let a = &c.advanced;
    !ok || (a.pwm_freq < 4 && a.pwm_reg < 16 && a.pwm_lim < 16)
}

} // verus!

