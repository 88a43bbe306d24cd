//! SPI datagrams and register words of the TMC2160.

use vstd::prelude::*;
use crate::bits::{bit, field, flag};

verus! {

// ─── SPI frames ─────────────────────────────────────────────────────────────

/// Frames of five bytes.
pub trait Frame {
    fn make_frame(payload: u32, register_addr: u8) -> [u8; 5]
        requires
            register_addr < 0x80,
    ;
}

/// A 40-bit reply word: status byte in bits 0..=7, data in bits 8..=39.
pub struct ReadFrame {
    pub raw_value: u64,
}

/// The data field of a 40-bit reply word.
pub open spec fn reply_data(data: u64) -> u32 {
    ((data >> 8) & 0xffff_ffff) as u32
}

impl ReadFrame {
    /// Extracts bits 8..=39 of a 40-bit reply word.
    pub fn read_frame(data: u64) -> (r: u32)
        requires
            data < 0x100_0000_0000,
        ensures
            r == reply_data(data),
    {
        ((data >> 8) & 0xffff_ffff) as u32
    }
}

/// A 40-bit write word: register address in bits 0..=6, write flag in bit 7,
/// data in bits 8..=39.
pub struct WriteFrame {
    pub raw_value: u64,
}

/// The bytes of the write word as the driver sends them: the word taken
/// big-endian over eight bytes, keeping the last five, i.e. the data word
/// most significant byte first followed by the address byte with the write
/// flag set.
pub open spec fn write_frame(payload: u32, register_addr: u8) -> Seq<u8> {
    seq![
        ((payload >> 24) & 0xff) as u8,
        ((payload >> 16) & 0xff) as u8,
        ((payload >> 8) & 0xff) as u8,
        (payload & 0xff) as u8,
        register_addr | 0x80,
    ]
}

impl Frame for WriteFrame {
    fn make_frame(payload: u32, register_addr: u8) -> (f: [u8; 5])
        ensures
            f@ == write_frame(payload, register_addr),
    {
        let raw: u64 = ((payload as u64) << 8) | 0x80 | (register_addr as u64);
        #[verifier::truncate]
        let b3 = ((raw >> 32) & 0xff) as u8;
        #[verifier::truncate]
        let b4 = ((raw >> 24) & 0xff) as u8;
        #[verifier::truncate]
        let b5 = ((raw >> 16) & 0xff) as u8;
        #[verifier::truncate]
        let b6 = ((raw >> 8) & 0xff) as u8;
        #[verifier::truncate]
        let b7 = (raw & 0xff) as u8;
        let f: [u8; 5] = [b3, b4, b5, b6, b7];
        proof {
            let p = payload;
            let a = register_addr;
            assert({
                &&& b3 == ((p >> 24) & 0xff) as u8
                &&& b4 == ((p >> 16) & 0xff) as u8
                &&& b5 == ((p >> 8) & 0xff) as u8
                &&& b6 == (p & 0xff) as u8
                &&& b7 == a | 0x80
            }) by (bit_vector)
                requires
                    a < 0x80,
                    raw == ((p as u64) << 8) | 0x80 | (a as u64),
                    b3 == ((raw >> 32) & 0xff) as u8,
                    b4 == ((raw >> 24) & 0xff) as u8,
                    b5 == ((raw >> 16) & 0xff) as u8,
                    b6 == ((raw >> 8) & 0xff) as u8,
                    b7 == (raw & 0xff) as u8,
            ;
        }
        assert(f@ =~= write_frame(payload, register_addr));
        f
    }
}

// ─── Registers ──────────────────────────────────────────────────────────────

/// Register addresses.
pub const GCONF: u8 = 0x00;
pub const GSTAT: u8 = 0x01;
pub const IFCNT: u8 = 0x02;
pub const IOIN: u8 = 0x04;
pub const OTP_PROG: u8 = 0x06;
pub const OTP_READ: u8 = 0x07;
pub const FACTORY_CONF: u8 = 0x08;
pub const SHORT_CONF: u8 = 0x09;
pub const DRVCONF: u8 = 0x0A;
pub const GLOBALSCALER: u8 = 0x0B;
pub const OFFSETREAD: u8 = 0x0C;
pub const IHOLDIRUN: u8 = 0x10;
pub const TPOWERDOWN: u8 = 0x11;
pub const TSTEP: u8 = 0x12;
pub const TPWMTHRS: u8 = 0x13;
pub const TCOOLTHRS: u8 = 0x14;
pub const THIGH: u8 = 0x15;
pub const XDIRECT: u8 = 0x2D;
pub const VDCMIN: u8 = 0x33;
pub const MSLUT0: u8 = 0x60;
pub const MSLUTSEL: u8 = 0x68;
pub const MSLUTSTART: u8 = 0x69;
pub const MSCNT: u8 = 0x6A;
pub const MSCURACT: u8 = 0x6B;
pub const CHOPCONF: u8 = 0x6C;
pub const COOLCONF: u8 = 0x6D;
pub const DCCTRL: u8 = 0x6E;
pub const DRV_STATUS_ADDR: u8 = 0x6F;
pub const PWMCONF: u8 = 0x70;
pub const PWM_SCALE: u8 = 0x71;
pub const PWM_AUTO: u8 = 0x72;
pub const LOST_STEPS: u8 = 0x73;

/// The DRV_STATUS register word.
#[allow(non_camel_case_types)]
#[derive(Clone, Copy)]
pub struct DRV_STATUS {
    pub raw_value: u32,
}

impl DRV_STATUS {
    pub fn new_with_raw_value(raw_value: u32) -> (r: Self)
        ensures
            r.raw_value == raw_value,
    {
        DRV_STATUS { raw_value }
    }
}

/// GCONF as the driver writes it: en_pwm_mode (bit 2), multistep_filt
/// (bit 3), shaft (bit 4), every other bit clear.
pub open spec fn spec_gconf(en_pwm_mode: bool, shaft: bool, multistep_filt: bool) -> u32 {
    (flag(en_pwm_mode) << 2) | (flag(multistep_filt) << 3) | (flag(shaft) << 4)
}

pub open spec fn gconf_fields(r: u32, en_pwm_mode: bool, shaft: bool, multistep_filt: bool) -> bool {
    &&& bit(r, 2) == en_pwm_mode
    &&& bit(r, 3) == multistep_filt
    &&& bit(r, 4) == shaft
    &&& r & !0x1Cu32 == 0
}

pub fn gconf_value(en_pwm_mode: bool, shaft: bool, multistep_filt: bool) -> (r: u32)
    ensures
        r == spec_gconf(en_pwm_mode, shaft, multistep_filt),
        gconf_fields(r, en_pwm_mode, shaft, multistep_filt),
{
    let e = if en_pwm_mode { 1u32 } else { 0u32 };
    let m = if multistep_filt { 1u32 } else { 0u32 };
    let s = if shaft { 1u32 } else { 0u32 };
    let r: u32 = (e << 2) | (m << 3) | (s << 4);
    assert({
        &&& (r >> 2) & 1 == e
        &&& (r >> 3) & 1 == m
        &&& (r >> 4) & 1 == s
        &&& r & !0x1Cu32 == 0
    }) by (bit_vector)
        requires
            e < 2,
            m < 2,
            s < 2,
            r == (e << 2) | (m << 3) | (s << 4),
    ;
    r
}

/// SHORT_CONF: s2vs_level at bits 0..=3, s2gnd_level at 8..=11.
pub open spec fn spec_short_conf(s2vs_level: u8, s2gnd_level: u8) -> u32 {
    (s2vs_level as u32) | ((s2gnd_level as u32) << 8)
}

pub open spec fn short_conf_fields(r: u32, s2vs_level: u8, s2gnd_level: u8) -> bool {
    &&& field(r, 0, 0xF) == s2vs_level
    &&& field(r, 8, 0xF) == s2gnd_level
    &&& r & !0x0F0Fu32 == 0
}

pub fn short_conf_value(s2vs_level: u8, s2gnd_level: u8) -> (r: u32)
    requires
        s2vs_level < 16,
        s2gnd_level < 16,
    ensures
        r == spec_short_conf(s2vs_level, s2gnd_level),
        short_conf_fields(r, s2vs_level, s2gnd_level),
{
    let v = s2vs_level as u32;
    let g = s2gnd_level as u32;
    let r: u32 = v | (g << 8);
    assert({
        &&& (r >> 0) & 0xF == v
        &&& (r >> 8) & 0xF == g
        &&& r & !0x0F0Fu32 == 0
    }) by (bit_vector)
        requires
            v < 16,
            g < 16,
            r == v | (g << 8),
    ;
    r
}

/// DRV_CONF: bbmtime 0..=4, bbmclks 8..=11, drvstrength 18..=19,
/// filt_isense 20..=21.
pub open spec fn spec_drvconf(bbmtime: u8, bbmclks: u8, drvstrength: u8, filt_isense: u8) -> u32 {
    (bbmtime as u32) | ((bbmclks as u32) << 8) | ((drvstrength as u32) << 18) | ((
    filt_isense as u32) << 20)
}

pub open spec fn drvconf_fields(
    r: u32,
    bbmtime: u8,
    bbmclks: u8,
    drvstrength: u8,
    filt_isense: u8,
) -> bool {
    &&& field(r, 0, 0x1F) == bbmtime
    &&& field(r, 8, 0xF) == bbmclks
    &&& field(r, 18, 0x3) == drvstrength
    &&& field(r, 20, 0x3) == filt_isense
    &&& r & !0x003C_0F1Fu32 == 0
}

pub fn drvconf_value(bbmtime: u8, bbmclks: u8, drvstrength: u8, filt_isense: u8) -> (r: u32)
    requires
        bbmtime < 32,
        bbmclks < 16,
        drvstrength < 4,
        filt_isense < 4,
    ensures
        r == spec_drvconf(bbmtime, bbmclks, drvstrength, filt_isense),
        drvconf_fields(r, bbmtime, bbmclks, drvstrength, filt_isense),
{
    let t = bbmtime as u32;
    let c = bbmclks as u32;
    let d = drvstrength as u32;
    let f = filt_isense as u32;
    let r: u32 = t | (c << 8) | (d << 18) | (f << 20);
    assert({
        &&& (r >> 0) & 0x1F == t
        &&& (r >> 8) & 0xF == c
        &&& (r >> 18) & 0x3 == d
        &&& (r >> 20) & 0x3 == f
        &&& r & !0x003C_0F1Fu32 == 0
    }) by (bit_vector)
        requires
            t < 32,
            c < 16,
            d < 4,
            f < 4,
            r == t | (c << 8) | (d << 18) | (f << 20),
    ;
    r
}


/// A write frame carries what was written: the data word most significant
/// byte first, then the register with the write flag set.
pub proof fn lemma_write_frame_round_trip(payload: u32, register_addr: u8)
    ensures
        ({
            let f = write_frame(payload, register_addr);
            &&& f.len() == 5
            &&& crate::bits::be_u32(f.take(4)) == payload
            &&& f[4] & 0x80 == 0x80
            &&& f[4] & 0x7f == register_addr & 0x7f
        }),
{
    let f = write_frame(payload, register_addr);
    assert(f.take(4) =~= seq![
        ((payload >> 24) & 0xff) as u8,
        ((payload >> 16) & 0xff) as u8,
        ((payload >> 8) & 0xff) as u8,
        (payload & 0xff) as u8,
    ]);
    crate::bits::lemma_be_round_trip(payload);
    crate::bits::lemma_write_flag(register_addr);
}
} // verus!
