//! The TMC2209 driver: which registers it writes, with which values and in
//! which order, and how it decodes what it reads back. The transfers
//! themselves are asynchronous and run outside this crate; every operation
//! here yields the list of register operations to perform and the result
//! that the operation returns once they have all succeeded.

use vstd::prelude::*;
use super::registers::{
    compute_crc8, gconf_value, le_u64, read_frame, reply_data, spec_compute_crc8, spec_gconf,
    u64_from_le_bytes, write_frame, Frame, ReadFrame, ReadReplyFrame, Writeframe, DRV_STATUS,
    CHOPCONF, COOLCONF, GCONF, IHOLD_IRUN, PWMCONF, SGTHRS, TCOOLTHRS,
    TPOWERDOWN, TPWMTHRS,
};
use super::structs::{
    status_of, CoolStepConfig, DriverStatus, StallGuardConfig, Tmc2209Config, Tmc2209Error,
};
use crate::drivers::regfields::{
    chopconf_value, coolconf_with_coolstep, ihold_irun_value, pwmconf_value, spec_chopconf,
    spec_coolconf_with_coolstep, spec_ihold_irun, spec_pwmconf,
};

verus! {

/// One step of a register sequence.
#[derive(Clone, Copy, PartialEq, Eq, Structural)]
pub enum Tmc2209Op {
    /// Write `data` to the register at `address`.
    Write { address: u8, data: u32 },
    /// Wait this many milliseconds.
    DelayMs(u32),
}

/// A register sequence and the result it ends with: the operations are
/// performed in order, stopping at the first transport failure; when all of
/// them succeed the operation returns `outcome`.
pub struct Tmc2209Plan<E> {
    pub ops: Vec<Tmc2209Op>,
    pub outcome: Result<(), Tmc2209Error<E>>,
}

/// The settle time the driver waits between configuration steps.
pub const SETTLE_MS: u32 = 100;

pub open spec fn write_op(address: u8, data: u32) -> Tmc2209Op {
    Tmc2209Op::Write { address, data }
}

pub open spec fn settle() -> Tmc2209Op {
    Tmc2209Op::DelayMs(100)
}

// ─── Conversions ────────────────────────────────────────────────────────────

/// MRES encoding of a microstep resolution: 256 → 0, 128 → 1, …, 1 → 8.
pub open spec fn spec_mres(microsteps: u16) -> Option<u8> {
    if microsteps == 256 {
        Some(0u8)
    } else if microsteps == 128 {
        Some(1u8)
    } else if microsteps == 64 {
        Some(2u8)
    } else if microsteps == 32 {
        Some(3u8)
    } else if microsteps == 16 {
        Some(4u8)
    } else if microsteps == 8 {
        Some(5u8)
    } else if microsteps == 4 {
        Some(6u8)
    } else if microsteps == 2 {
        Some(7u8)
    } else if microsteps == 1 {
        Some(8u8)
    } else {
        None
    }
}

/// Current scale for a run or hold current:
/// `CS = ⌊I·32·1414·(R+20) / 325·10⁶⌋ − 1` (saturating at 0), with `None`
/// when it exceeds 31.
pub open spec fn spec_ma_to_cs(current_ma: u16, sense_resistor_mohm: u16) -> Option<u8> {
    let q = (current_ma * 32 * 1414 * (sense_resistor_mohm + 20)) / 325_000_000int;
    let cs = if q >= 1 {
        q - 1
    } else {
        0
    };
    if cs > 31 {
        None
    } else {
        Some(cs as u8)
    }
}

// ─── Register words ─────────────────────────────────────────────────────────

pub open spec fn uart_mode_word(c: Tmc2209Config) -> u32 {
    spec_gconf(c.stealthchop, c.shaft_reverse, c.advanced.multistep_filt)
}

pub open spec fn chopper_word(c: Tmc2209Config) -> u32 {
    spec_chopconf(
        c.advanced.toff,
        c.advanced.hstrt,
        c.advanced.hend,
        false,
        c.advanced.tbl,
        spec_mres(c.microsteps)->0,
        c.interpolation,
    )
}

pub open spec fn current_word(c: Tmc2209Config) -> u32 {
    spec_ihold_irun(
        spec_ma_to_cs(c.hold_current_ma, c.sense_resistor_mohm)->0,
        spec_ma_to_cs(c.run_current_ma, c.sense_resistor_mohm)->0,
        c.advanced.iholddelay,
    )
}

pub open spec fn pwm_word(c: Tmc2209Config) -> u32 {
    spec_pwmconf(
        c.advanced.pwm_ofs,
        c.advanced.pwm_grad,
        c.advanced.pwm_freq,
        c.advanced.pwm_autoscale,
        c.advanced.pwm_autograd,
        c.advanced.freewheel.spec_bits(),
        c.advanced.pwm_reg,
        0,
    )
}

pub open spec fn coolstep_word(cs: CoolStepConfig) -> u32 {
    spec_coolconf_with_coolstep(0, cs.semin, cs.seup, cs.semax, cs.sedn, cs.quarter_current)
}

// ─── Register steps ─────────────────────────────────────────────────────────

pub open spec fn current_ok(c: Tmc2209Config) -> bool {
    &&& spec_ma_to_cs(c.run_current_ma, c.sense_resistor_mohm) is Some
    &&& spec_ma_to_cs(c.hold_current_ma, c.sense_resistor_mohm) is Some
}

pub open spec fn uart_mode_ops(c: Tmc2209Config) -> Seq<Tmc2209Op> {
    seq![write_op(GCONF, uart_mode_word(c))]
}

pub open spec fn chopper_ops(c: Tmc2209Config) -> Seq<Tmc2209Op> {
    if spec_mres(c.microsteps) is Some {
        seq![write_op(CHOPCONF, chopper_word(c))]
    } else {
        seq![]
    }
}

pub open spec fn current_ops(c: Tmc2209Config) -> Seq<Tmc2209Op> {
    if current_ok(c) {
        seq![write_op(IHOLD_IRUN, current_word(c))]
    } else {
        seq![]
    }
}

pub open spec fn standstill_ops(c: Tmc2209Config) -> Seq<Tmc2209Op> {
    seq![write_op(TPOWERDOWN, c.advanced.tpowerdown as u32)]
}

pub open spec fn stealthchop_ops(c: Tmc2209Config) -> Seq<Tmc2209Op> {
    let threshold = match c.stealthchop_threshold {
        Some(t) => seq![write_op(TPWMTHRS, t)],
        None => seq![],
    };
    threshold.push(write_op(PWMCONF, pwm_word(c)))
}

pub open spec fn stall_detection_ops(sg: StallGuardConfig) -> Seq<Tmc2209Op> {
    seq![write_op(SGTHRS, sg.threshold as u32), write_op(TCOOLTHRS, sg.velocity_threshold)]
}

pub open spec fn adaptive_current_ops(cs: CoolStepConfig) -> Seq<Tmc2209Op> {
    seq![write_op(COOLCONF, coolstep_word(cs))]
}

pub open spec fn stallguard_ops(c: Tmc2209Config) -> Seq<Tmc2209Op> {
    match c.stallguard {
        Some(sg) => stall_detection_ops(sg) + match sg.coolstep {
            Some(cs) => adaptive_current_ops(cs),
            None => seq![],
        },
        None => seq![],
    }
}

/// The register sequence of `init`: GCONF, CHOPCONF, IHOLD_IRUN, TPOWERDOWN,
/// the stealthChop registers and the stallGuard registers, with a settle
/// delay after each group; it stops after GCONF when the microstep
/// resolution is invalid, and after CHOPCONF when a current is out of range.
pub open spec fn spec_init_ops(c: Tmc2209Config) -> Seq<Tmc2209Op> {
    let a = uart_mode_ops(c).push(settle());
    if spec_mres(c.microsteps) is None {
        a
    } else {
        let b = a + chopper_ops(c).push(settle());
        if !current_ok(c) {
            b
        } else {
            b + current_ops(c).push(settle()) + standstill_ops(c).push(settle()) + stealthchop_ops(
                c,
            ).push(settle()).push(settle()) + stallguard_ops(c).push(settle())
        }
    }
}

/// The result `init` returns when every transfer succeeds.
pub open spec fn spec_init_outcome<E>(c: Tmc2209Config) -> Result<(), Tmc2209Error<E>> {
    if spec_mres(c.microsteps) is None {
        Err(Tmc2209Error::InvalidMicrosteps)
    } else if !current_ok(c) {
        Err(Tmc2209Error::CurrentOutOfRange)
    } else {
        Ok(())
    }
}

/// The field values fit their registers on every step that `init` reaches
/// (the driver's register constructors reject values that do not fit).
pub open spec fn chopper_fits(c: Tmc2209Config) -> bool {
    spec_mres(c.microsteps) is Some ==> {
        &&& c.advanced.toff < 16
        &&& c.advanced.hstrt < 8
        &&& c.advanced.hend < 16
        &&& c.advanced.tbl < 4
    }
}

pub open spec fn current_fits(c: Tmc2209Config) -> bool {
    current_ok(c) ==> c.advanced.iholddelay < 16
}

pub open spec fn stealthchop_fits(c: Tmc2209Config) -> bool {
    c.advanced.pwm_freq < 4 && c.advanced.pwm_reg < 16
}

pub open spec fn coolstep_fits(cs: CoolStepConfig) -> bool {
    cs.semin < 16 && cs.semax < 16 && cs.seup < 4 && cs.sedn < 4
}

pub open spec fn stallguard_fits(c: Tmc2209Config) -> bool {
    c.stallguard matches Some(sg) ==> (sg.coolstep matches Some(cs) ==> coolstep_fits(cs))
}

pub open spec fn init_fits(c: Tmc2209Config) -> bool {
    &&& chopper_fits(c)
    &&& (spec_mres(c.microsteps) is Some && current_ok(c)) ==> {
        &&& current_fits(c)
        &&& stealthchop_fits(c)
        &&& stallguard_fits(c)
    }
}

/// TMC2209 over a single-wire UART transport `T`.
pub struct Tmc2209<T> {
    transport: T,
    tmc_id: u8,
    config: Option<Tmc2209Config>,
}

impl<T> Tmc2209<T> {
    pub closed spec fn spec_transport(&self) -> T {
        self.transport
    }

    pub closed spec fn spec_tmc_id(&self) -> u8 {
        self.tmc_id
    }

    /// The configuration applied by the last successful `init`, as updated
    /// by the runtime setters.
    pub closed spec fn spec_config(&self) -> Option<Tmc2209Config> {
        self.config
    }

    pub fn new(transport: T, tmc_id: u8) -> (s: Self)
        ensures
            s.spec_transport() == transport,
            s.spec_tmc_id() == tmc_id,
            s.spec_config() is None,
    {
        Self { tmc_id, transport, config: None }
    }

    pub fn tmc_id(&self) -> (id: u8)
        ensures
            id == self.spec_tmc_id(),
    {
        self.tmc_id
    }

    pub fn config(&self) -> (c: Option<Tmc2209Config>)
        ensures
            c == self.spec_config(),
    {
        self.config
    }

    /// The transport, for performing the transfers of a plan.
    pub fn transport_mut(&mut self) -> (t: &mut T)
        ensures
            *t == old(self).spec_transport(),
            final(self).spec_transport() == *final(t),
            final(self).spec_tmc_id() == old(self).spec_tmc_id(),
            final(self).spec_config() == old(self).spec_config(),
    {
        &mut self.transport
    }

    /// The register sequence and result of `init(config)`.
    pub fn init_plan<E>(config: &Tmc2209Config) -> (p: Tmc2209Plan<E>)
        requires
            init_fits(*config),
        ensures
            p.ops@ == spec_init_ops(*config),
            p.outcome == spec_init_outcome::<E>(*config),
    {
        let mut ops: Vec<Tmc2209Op> = Vec::new();
        Self::apply_uart_mode(config, &mut ops);
        ops.push(Tmc2209Op::DelayMs(SETTLE_MS));
        if let Err(e) = Self::apply_chopper::<E>(config, &mut ops) {
            return Tmc2209Plan { ops, outcome: Err(e) };
        }
        ops.push(Tmc2209Op::DelayMs(SETTLE_MS));
        if let Err(e) = Self::apply_current::<E>(config, &mut ops) {
            return Tmc2209Plan { ops, outcome: Err(e) };
        }
        ops.push(Tmc2209Op::DelayMs(SETTLE_MS));
        Self::apply_standstill(config, &mut ops);
        ops.push(Tmc2209Op::DelayMs(SETTLE_MS));
        Self::apply_stealthchop(config, &mut ops);
        ops.push(Tmc2209Op::DelayMs(SETTLE_MS));
        ops.push(Tmc2209Op::DelayMs(SETTLE_MS));
        if let Some(sg) = config.stallguard {
            Self::apply_stall_detection(&sg, &mut ops);
            if let Some(cs) = sg.coolstep {
                Self::apply_adaptive_current(&cs, &mut ops);
            }
        }
        ops.push(Tmc2209Op::DelayMs(SETTLE_MS));
        let ghost c = *config;
        assert(ops@ =~= spec_init_ops(c));
        Tmc2209Plan { ops, outcome: Ok(()) }
    }

    /// Records the configuration once every step of `init` has succeeded.
    pub fn finish_init(&mut self, config: Tmc2209Config)
        ensures
            final(self).spec_config() == Some(config),
            final(self).spec_transport() == old(self).spec_transport(),
            final(self).spec_tmc_id() == old(self).spec_tmc_id(),
    {
        self.config = Some(config);
    }

    // ── Public runtime methods ──

    /// Sets the run current in the recorded configuration and yields the
    /// GCONF and IHOLD_IRUN writes for it; without a recorded configuration
    /// it fails with `InvalidParameter` and changes nothing.
    pub fn set_run_current_ma<E>(&mut self, ma: u16) -> (r: Result<Tmc2209Plan<E>, Tmc2209Error<E>>)
        requires
            old(self).spec_config() matches Some(c) ==> current_fits(
                Tmc2209Config { run_current_ma: ma, ..c },
            ),
        ensures
            final(self).spec_transport() == old(self).spec_transport(),
            final(self).spec_tmc_id() == old(self).spec_tmc_id(),
            match old(self).spec_config() {
                None => {
                    &&& r matches Err(Tmc2209Error::InvalidParameter)
                    &&& final(self).spec_config() is None
                },
                Some(c) => {
                    let n = Tmc2209Config { run_current_ma: ma, ..c };
                    &&& final(self).spec_config() == Some(n)
                    &&& r matches Ok(p) && p.ops@ == uart_mode_ops(n) + current_ops(n) && p.outcome
                        == (if current_ok(n) {
                        Ok(())
                    } else {
                        Err(Tmc2209Error::<E>::CurrentOutOfRange)
                    })
                },
            },
    {
        let mut config = match self.config {
            Some(c) => c,
            None => return Err(Tmc2209Error::InvalidParameter),
        };
        config.run_current_ma = ma;
        self.config = Some(config);
        let mut ops: Vec<Tmc2209Op> = Vec::new();
        Self::apply_uart_mode(&config, &mut ops);
        let outcome = Self::apply_current::<E>(&config, &mut ops);
        assert(ops@ =~= uart_mode_ops(config) + current_ops(config));
        Ok(Tmc2209Plan { ops, outcome })
    }

    /// Sets the microstep resolution in the recorded configuration and
    /// yields the GCONF and CHOPCONF writes for it; without a recorded
    /// configuration it fails with `InvalidParameter` and changes nothing.
    pub fn set_microsteps<E>(&mut self, microsteps: u16) -> (r: Result<
        Tmc2209Plan<E>,
        Tmc2209Error<E>,
    >)
        requires
            old(self).spec_config() matches Some(c) ==> chopper_fits(
                Tmc2209Config { microsteps: microsteps, ..c },
            ),
        ensures
            final(self).spec_transport() == old(self).spec_transport(),
            final(self).spec_tmc_id() == old(self).spec_tmc_id(),
            match old(self).spec_config() {
                None => {
                    &&& r matches Err(Tmc2209Error::InvalidParameter)
                    &&& final(self).spec_config() is None
                },
                Some(c) => {
                    let n = Tmc2209Config { microsteps: microsteps, ..c };
                    &&& final(self).spec_config() == Some(n)
                    &&& r matches Ok(p) && p.ops@ == uart_mode_ops(n) + chopper_ops(n) && p.outcome
                        == (if spec_mres(microsteps) is Some {
                        Ok(())
                    } else {
                        Err(Tmc2209Error::<E>::InvalidMicrosteps)
                    })
                },
            },
    {
        let mut config = match self.config {
            Some(c) => c,
            None => return Err(Tmc2209Error::InvalidParameter),
        };
        config.microsteps = microsteps;
        self.config = Some(config);
        let mut ops: Vec<Tmc2209Op> = Vec::new();
        Self::apply_uart_mode(&config, &mut ops);
        let outcome = Self::apply_chopper::<E>(&config, &mut ops);
        assert(ops@ =~= uart_mode_ops(config) + chopper_ops(config));
        Ok(Tmc2209Plan { ops, outcome })
    }

    /// Sets the shaft direction in the recorded configuration and yields the
    /// GCONF write for it; without a recorded configuration it fails with
    /// `InvalidParameter` and changes nothing.
    pub fn reverse_shaft<E>(&mut self, reversed: bool) -> (r: Result<
        Tmc2209Plan<E>,
        Tmc2209Error<E>,
    >)
        ensures
            final(self).spec_transport() == old(self).spec_transport(),
            final(self).spec_tmc_id() == old(self).spec_tmc_id(),
            match old(self).spec_config() {
                None => {
                    &&& r matches Err(Tmc2209Error::InvalidParameter)
                    &&& final(self).spec_config() is None
                },
                Some(c) => {
                    let n = Tmc2209Config { shaft_reverse: reversed, ..c };
                    &&& final(self).spec_config() == Some(n)
                    &&& r matches Ok(p) && p.ops@ == uart_mode_ops(n) && p.outcome is Ok
                },
            },
    {
        let mut config = match self.config {
            Some(c) => c,
            None => return Err(Tmc2209Error::InvalidParameter),
        };
        config.shaft_reverse = reversed;
        self.config = Some(config);
        let mut ops: Vec<Tmc2209Op> = Vec::new();
        Self::apply_uart_mode(&config, &mut ops);
        assert(ops@ =~= uart_mode_ops(config));
        Ok(Tmc2209Plan { ops, outcome: Ok(()) })
    }

    // ── Register IO ──

    /// The write datagram for `data` at `address`, addressed to this node.
    pub fn write_frame(&self, address: u8, data: u32) -> (f: [u8; 8])
        ensures
            f@ == write_frame(data, self.spec_tmc_id(), address),
    {
        Writeframe::make_frame(data, self.tmc_id, address)
    }

    /// The read request for the register at `address`, addressed to this node.
    pub fn read_request(&self, address: u8) -> (f: [u8; 8])
        ensures
            f@ == read_frame(self.spec_tmc_id(), address),
    {
        <ReadFrame as Frame>::make_frame(0, self.tmc_id, address)
    }

    /// Checks a reply datagram and extracts its data word: no reply gives
    /// `NoReply`, a CRC over the first seven bytes that differs from the
    /// eighth gives `CrcMismatch`.
    pub fn decode_reply<E>(reply: Option<[u8; 8]>) -> (r: Result<u32, Tmc2209Error<E>>)
        ensures
            match reply {
                None => r matches Err(Tmc2209Error::NoReply),
                Some(b) => if spec_compute_crc8(b@.take(7)) != b@[7] {
                    r matches Err(Tmc2209Error::CrcMismatch)
                } else {
                    r == Ok::<u32, Tmc2209Error<E>>(reply_data(le_u64(b@)))
                },
            },
    {
        let reply = match reply {
            Some(b) => b,
            None => return Err(Tmc2209Error::NoReply),
        };
        let head: [u8; 7] = [reply[0], reply[1], reply[2], reply[3], reply[4], reply[5], reply[6]];
        assert(head@ =~= reply@.take(7));
        if compute_crc8(head.as_slice()) != reply[7] {
            return Err(Tmc2209Error::CrcMismatch);
        }
        let parsed = ReadReplyFrame::read_frame(u64_from_le_bytes(reply));
        Ok(parsed)
    }

    /// The status that a DRV_STATUS read returned.
    pub fn status_from(raw: u32) -> (s: DriverStatus)
        ensures
            s == status_of(raw),
    {
        let register_data = DRV_STATUS::new_with_raw_value(raw);
        DriverStatus::from_raw(register_data)
    }

    /// The stallGuard result in an SG_RESULT word: its low ten bits.
    pub fn stall_result_from(raw: u32) -> (sg: u16)
        ensures
            sg == raw & 0x3FF,
    {
        assert((raw & 0x3FF) < 0x400) by (bit_vector);
        (raw & 0x3FF) as u16
    }

    /// The interface counter in an IFCNT word: its low byte.
    pub fn heartbeat_from(raw: u32) -> (count: u8)
        ensures
            count == raw as u8,
    {
        raw as u8
    }

    // ── Register writers ──

    fn apply_uart_mode(config: &Tmc2209Config, ops: &mut Vec<Tmc2209Op>)
        ensures
            final(ops)@ == old(ops)@ + uart_mode_ops(*config),
    {
        let payload = gconf_value(
            config.stealthchop,
            config.shaft_reverse,
            config.advanced.multistep_filt,
        );
        ops.push(Tmc2209Op::Write { address: GCONF, data: payload });
        assert(ops@ =~= old(ops)@ + uart_mode_ops(*config));
    }

    fn apply_chopper<E>(config: &Tmc2209Config, ops: &mut Vec<Tmc2209Op>) -> (r: Result<
        (),
        Tmc2209Error<E>,
    >)
        requires
            chopper_fits(*config),
        ensures
            final(ops)@ == old(ops)@ + chopper_ops(*config),
            r == (if spec_mres(config.microsteps) is Some {
                Ok(())
            } else {
                Err(Tmc2209Error::<E>::InvalidMicrosteps)
            }),
    {
        let mres = match Self::mres_from_microsteps(config.microsteps) {
            Some(m) => m,
            None => {
                assert(old(ops)@ + chopper_ops(*config) =~= old(ops)@);
                return Err(Tmc2209Error::InvalidMicrosteps);
            },
        };
        let payload = chopconf_value(
            config.advanced.toff,
            config.advanced.hstrt,
            config.advanced.hend,
            false,
            config.advanced.tbl,
            mres,
            config.interpolation,
        );
        ops.push(Tmc2209Op::Write { address: CHOPCONF, data: payload });
        assert(ops@ =~= old(ops)@ + chopper_ops(*config));
        Ok(())
    }

    fn apply_current<E>(config: &Tmc2209Config, ops: &mut Vec<Tmc2209Op>) -> (r: Result<
        (),
        Tmc2209Error<E>,
    >)
        requires
            current_fits(*config),
        ensures
            final(ops)@ == old(ops)@ + current_ops(*config),
            r == (if current_ok(*config) {
                Ok(())
            } else {
                Err(Tmc2209Error::<E>::CurrentOutOfRange)
            }),
    {
        let irun = match Self::ma_to_cs(config.run_current_ma, config.sense_resistor_mohm) {
            Some(v) => v,
            None => {
                assert(old(ops)@ + current_ops(*config) =~= old(ops)@);
                return Err(Tmc2209Error::CurrentOutOfRange);
            },
        };
        let ihold = match Self::ma_to_cs(config.hold_current_ma, config.sense_resistor_mohm) {
            Some(v) => v,
            None => {
                assert(old(ops)@ + current_ops(*config) =~= old(ops)@);
                return Err(Tmc2209Error::CurrentOutOfRange);
            },
        };
        let payload = ihold_irun_value(ihold, irun, config.advanced.iholddelay);
        ops.push(Tmc2209Op::Write { address: IHOLD_IRUN, data: payload });
        assert(ops@ =~= old(ops)@ + current_ops(*config));
        Ok(())
    }

    fn apply_standstill(config: &Tmc2209Config, ops: &mut Vec<Tmc2209Op>)
        ensures
            final(ops)@ == old(ops)@ + standstill_ops(*config),
    {
        ops.push(Tmc2209Op::Write { address: TPOWERDOWN, data: config.advanced.tpowerdown as u32 });
        assert(ops@ =~= old(ops)@ + standstill_ops(*config));
    }

    fn apply_stealthchop(config: &Tmc2209Config, ops: &mut Vec<Tmc2209Op>)
        requires
            stealthchop_fits(*config),
        ensures
            final(ops)@ == old(ops)@ + stealthchop_ops(*config),
    {
        if let Some(threshold) = config.stealthchop_threshold {
            ops.push(Tmc2209Op::Write { address: TPWMTHRS, data: threshold });
        }
        let payload = pwmconf_value(
            config.advanced.pwm_ofs,
            config.advanced.pwm_grad,
            config.advanced.pwm_freq,
            config.advanced.pwm_autoscale,
            config.advanced.pwm_autograd,
            config.advanced.freewheel.bits(),
            config.advanced.pwm_reg,
            0,
        );
        ops.push(Tmc2209Op::Write { address: PWMCONF, data: payload });
        assert(ops@ =~= old(ops)@ + stealthchop_ops(*config));
    }

    fn apply_stall_detection(sg: &StallGuardConfig, ops: &mut Vec<Tmc2209Op>)
        ensures
            final(ops)@ == old(ops)@ + stall_detection_ops(*sg),
    {
        ops.push(Tmc2209Op::Write { address: SGTHRS, data: sg.threshold as u32 });
        ops.push(Tmc2209Op::Write { address: TCOOLTHRS, data: sg.velocity_threshold });
        assert(ops@ =~= old(ops)@ + stall_detection_ops(*sg));
    }

    fn apply_adaptive_current(cs: &CoolStepConfig, ops: &mut Vec<Tmc2209Op>)
        requires
            coolstep_fits(*cs),
        ensures
            final(ops)@ == old(ops)@ + adaptive_current_ops(*cs),
    {
        let payload = coolconf_with_coolstep(
            0,
            cs.semin,
            cs.seup,
            cs.semax,
            cs.sedn,
            cs.quarter_current,
        );
        ops.push(Tmc2209Op::Write { address: COOLCONF, data: payload });
        assert(ops@ =~= old(ops)@ + adaptive_current_ops(*cs));
    }

    // ── Helpers ──

    pub fn mres_from_microsteps(microsteps: u16) -> (r: Option<u8>)
        ensures
            r == spec_mres(microsteps),
    {
        match microsteps {
            256 => Some(0),
            128 => Some(1),
            64 => Some(2),
            32 => Some(3),
            16 => Some(4),
            8 => Some(5),
            4 => Some(6),
            2 => Some(7),
            1 => Some(8),
            _ => None,
        }
    }

    pub fn ma_to_cs(current_ma: u16, sense_resistor_mohm: u16) -> (r: Option<u8>)
        ensures
            r == spec_ma_to_cs(current_ma, sense_resistor_mohm),
    {
        proof {
            lemma_2209_numerator_fits(current_ma, sense_resistor_mohm);
        }
        let numerator: u64 = (current_ma as u64) * 32 * 1414 * (sense_resistor_mohm as u64 + 20);
        let denominator: u64 = 325 * 1000 * 1000;
        let cs = (numerator / denominator).saturating_sub(1);
        if cs > 31 {
            None
        } else {
            Some(cs as u8)
        }
    }
}

proof fn lemma_2209_numerator_fits(ma: u16, r: u16)
    ensures
        (ma as u64) * 32 <= u64::MAX,
        (ma as u64) * 32 * 1414 <= u64::MAX,
        (ma as u64) * 32 * 1414 * (r as u64 + 20) <= u64::MAX,
{
    let a = (ma as int) * 32 * 1414;
    let b = r as int + 20;
    assert(a <= 2_965_327_680);
    assert(b <= 65_555);
    assert(a * b <= 2_965_327_680 * 65_555) by (nonlinear_arith)
        requires
            0 <= a <= 2_965_327_680,
            0 <= b <= 65_555,
    ;
}

// ── Laws ────────────────────────────────────────────────────────────────────

/// Two to the power `k`.
pub open spec fn two_pow(k: nat) -> nat
    decreases k,
{
    if k == 0 {
        1
    } else {
        2 * two_pow((k - 1) as nat)
    }
}

proof fn lemma_two_pow_small()
    ensures
        two_pow(0) == 1,
        two_pow(1) == 2,
        two_pow(2) == 4,
        two_pow(3) == 8,
        two_pow(4) == 16,
        two_pow(5) == 32,
        two_pow(6) == 64,
        two_pow(7) == 128,
        two_pow(8) == 256,
{
    reveal_with_fuel(two_pow, 9);
}

/// The MRES code of a microstep resolution is its distance in halvings from
/// 256: a code `k` (at most 8) stands for `m` microsteps with `m·2^k = 256`,
/// every such resolution has its code, and no other resolution has one.
pub proof fn lemma_mres_halvings()
    ensures
        forall|m: u16| #[trigger] spec_mres(m) is Some ==> spec_mres(m)->0 <= 8 && m * two_pow(
            spec_mres(m)->0 as nat,
        ) == 256,
        forall|k: nat, m: u16|
            k <= 8 && m * #[trigger] two_pow(k) == 256 ==> #[trigger] spec_mres(m) == Some(k as u8),
{
    lemma_two_pow_small();
    assert forall|k: nat, m: u16| k <= 8 && m * #[trigger] two_pow(k) == 256 implies #[trigger] spec_mres(
        m,
    ) == Some(k as u8) by {
        let t = two_pow(k);
        if k == 0 {
            assert(t == 1);
            assert(m == 256) by (nonlinear_arith)
                requires
                    m * t == 256,
                    t == 1,
            ;
        } else if k == 1 {
            assert(t == 2);
            assert(m == 128) by (nonlinear_arith)
                requires
                    m * t == 256,
                    t == 2,
            ;
        } else if k == 2 {
            assert(t == 4);
            assert(m == 64) by (nonlinear_arith)
                requires
                    m * t == 256,
                    t == 4,
            ;
        } else if k == 3 {
            assert(t == 8);
            assert(m == 32) by (nonlinear_arith)
                requires
                    m * t == 256,
                    t == 8,
            ;
        } else if k == 4 {
            assert(t == 16);
            assert(m == 16) by (nonlinear_arith)
                requires
                    m * t == 256,
                    t == 16,
            ;
        } else if k == 5 {
            assert(t == 32);
            assert(m == 8) by (nonlinear_arith)
                requires
                    m * t == 256,
                    t == 32,
            ;
        } else if k == 6 {
            assert(t == 64);
            assert(m == 4) by (nonlinear_arith)
                requires
                    m * t == 256,
                    t == 64,
            ;
        } else if k == 7 {
            assert(t == 128);
            assert(m == 2) by (nonlinear_arith)
                requires
                    m * t == 256,
                    t == 128,
            ;
        } else {
            assert(k == 8 && t == 256);
            assert(m == 1) by (nonlinear_arith)
                requires
                    m * t == 256,
                    t == 256,
            ;
        }
    }
}

/// The IHOLD_IRUN word that `init` and the current setters write: IRUN
/// (bits 8–12) is the current scale of the run current and IHOLD (bits
/// 0–4) that of the hold current, each `⌊I·32·1414·(R+20) / 325·10⁶⌋ − 1`
/// (at least 0), and IHOLDDELAY (bits 16–19) the configured delay; no other
/// bit is set. `init` writes it as its fifth step, after GCONF, CHOPCONF and
/// their settle delays.
pub proof fn lemma_current_word_fields(c: Tmc2209Config)
    requires
        current_ok(c),
        c.advanced.iholddelay < 16,
    ensures
        ({
            let w = current_word(c);
            let run_q = (c.run_current_ma * 32 * 1414 * (c.sense_resistor_mohm + 20))
                / 325_000_000int;
            let hold_q = (c.hold_current_ma * 32 * 1414 * (c.sense_resistor_mohm + 20))
                / 325_000_000int;
            &&& current_ops(c) == seq![Tmc2209Op::Write { address: 0x10, data: w }]
            &&& (w >> 8) & 0x1F == (if run_q >= 1 {
                run_q - 1
            } else {
                0
            })
            &&& w & 0x1F == (if hold_q >= 1 {
                hold_q - 1
            } else {
                0
            })
            &&& (w >> 16) & 0xF == c.advanced.iholddelay
            &&& w & !0x000F_1F1Fu32 == 0
            &&& spec_mres(c.microsteps) is Some ==> spec_init_ops(c)[4] == Tmc2209Op::Write {
                address: 0x10,
                data: w,
            }
        }),
{
    let h = spec_ma_to_cs(c.hold_current_ma, c.sense_resistor_mohm)->0;
    let r = spec_ma_to_cs(c.run_current_ma, c.sense_resistor_mohm)->0;
    let d = c.advanced.iholddelay;
    let w = current_word(c);
    assert(h < 32 && r < 32);
    assert(w == (h as u32) | ((r as u32) << 8) | ((d as u32) << 16));
    assert({
        &&& (w >> 8) & 0x1F == r as u32
        &&& w & 0x1F == h as u32
        &&& (w >> 16) & 0xF == d as u32
        &&& w & !0x000F_1F1Fu32 == 0
    }) by (bit_vector)
        requires
            h < 32,
            r < 32,
            d < 16,
            w == (h as u32) | ((r as u32) << 8) | ((d as u32) << 16),
    ;
    if spec_mres(c.microsteps) is Some {
        let a = uart_mode_ops(c).push(settle());
        let b = a + chopper_ops(c).push(settle());
        assert(b.len() == 4);
        let rest = current_ops(c).push(settle()) + standstill_ops(c).push(settle()) + stealthchop_ops(
            c,
        ).push(settle()).push(settle()) + stallguard_ops(c).push(settle());
        assert(spec_init_ops(c) =~= b + rest);
        assert(rest[0] == current_ops(c)[0]);
    }
}

// ── Field ranges ────────────────────────────────────────────────────────────

/// Whether the microstep resolution's chopper fields fit their registers
/// (the register constructors refuse a value that does not fit).
pub fn chopper_fits_registers(c: &Tmc2209Config) -> (b: bool)
    ensures
        b == chopper_fits(*c),
{
    let a = &c.advanced;
    Tmc2209::<()>::mres_from_microsteps(c.microsteps).is_none() || (a.toff < 16 && a.hstrt < 8
        && a.hend < 16 && a.tbl < 4)
}

/// Whether both currents have a current scale.
fn currents_ok(c: &Tmc2209Config) -> (b: bool)
    ensures
        b == current_ok(*c),
{
    Tmc2209::<()>::ma_to_cs(c.run_current_ma, c.sense_resistor_mohm).is_some()
        && Tmc2209::<()>::ma_to_cs(c.hold_current_ma, c.sense_resistor_mohm).is_some()
}

/// Whether the current register's fields fit.
pub fn current_fits_registers(c: &Tmc2209Config) -> (b: bool)
    ensures
        b == current_fits(*c),
{
    !currents_ok(c) || c.advanced.iholddelay < 16
}

/// Whether every field value that `init` writes fits its register.
pub fn init_fits_registers(c: &Tmc2209Config) -> (b: bool)
    ensures
        b == init_fits(*c),
{
    let a = &c.advanced;
    let mres_ok = Tmc2209::<()>::mres_from_microsteps(c.microsteps).is_some();
    let stall = match c.stallguard {
        Some(sg) => match sg.coolstep {
            Some(cs) => cs.semin < 16 && cs.semax < 16 && cs.seup < 4 && cs.sedn < 4,
            None => true,
        },
        None => true,
    };
    chopper_fits_registers(c) && (!(mres_ok && currents_ok(c)) || (current_fits_registers(c)
        && a.pwm_freq < 4 && a.pwm_reg < 16 && stall))
}

} // verus!

