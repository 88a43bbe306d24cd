//! Encoders of the configuration registers that the TMC2209 and TMC2160
//! share (same bit layout on both chips). Each encoder states the value of
//! every field it writes and that all other bits are zero (or, for the
//! read-modify-write of COOLCONF, unchanged).

use vstd::prelude::*;
use crate::bits::{bit, field, flag};

verus! {

// ─── CHOPCONF ───────────────────────────────────────────────────────────────

/// Bits of CHOPCONF that the driver writes: toff 0..=3, hstrt 4..=6,
/// hend 7..=10, chm 14, tbl 15..=16, mres 24..=27, intpol 28.
pub open spec fn chopconf_mask() -> u32 {
    0x1F01_C7FF
}

pub open spec fn chopconf_fields(
    r: u32,
    toff: u8,
    hstrt: u8,
    hend: u8,
    chm: bool,
    tbl: u8,
    mres: u8,
    intpol: bool,
) -> bool {
    &&& field(r, 0, 0xF) == toff
    &&& field(r, 4, 0x7) == hstrt
    &&& field(r, 7, 0xF) == hend
    &&& bit(r, 14) == chm
    &&& field(r, 15, 0x3) == tbl
    &&& field(r, 24, 0xF) == mres
    &&& bit(r, 28) == intpol
    &&& r & !chopconf_mask() == 0
}

pub open spec fn spec_chopconf(
    toff: u8,
    hstrt: u8,
    hend: u8,
    chm: bool,
    tbl: u8,
    mres: u8,
    intpol: bool,
) -> u32 {
    (toff as u32) | ((hstrt as u32) << 4) | ((hend as u32) << 7) | (flag(chm) << 14) | ((
    tbl as u32) << 15) | ((mres as u32) << 24) | (flag(intpol) << 28)
}

/// Builds a CHOPCONF word.
pub fn chopconf_value(
    toff: u8,
    hstrt: u8,
    hend: u8,
    chm: bool,
    tbl: u8,
    mres: u8,
    intpol: bool,
) -> (r: u32)
    requires
        toff < 16,
        hstrt < 8,
        hend < 16,
        tbl < 4,
        mres < 16,
    ensures
        r == spec_chopconf(toff, hstrt, hend, chm, tbl, mres, intpol),
        chopconf_fields(r, toff, hstrt, hend, chm, tbl, mres, intpol),
{
    let t = toff as u32;
    let hs = hstrt as u32;
    let he = hend as u32;
    let c = if chm { 1u32 } else { 0u32 };
    let tb = tbl as u32;
    let m = mres as u32;
    let ip = if intpol { 1u32 } else { 0u32 };
    let r: u32 = t | (hs << 4) | (he << 7) | (c << 14) | (tb << 15) | (m << 24) | (ip << 28);
    assert({
        &&& (r >> 0) & 0xF == t
        &&& (r >> 4) & 0x7 == hs
        &&& (r >> 7) & 0xF == he
        &&& (r >> 14) & 1 == c
        &&& (r >> 15) & 0x3 == tb
        &&& (r >> 24) & 0xF == m
        &&& (r >> 28) & 1 == ip
        &&& r & !0x1F01_C7FFu32 == 0
    }) by (bit_vector)
        requires
            t < 16,
            hs < 8,
            he < 16,
            c < 2,
            tb < 4,
            m < 16,
            ip < 2,
            r == t | (hs << 4) | (he << 7) | (c << 14) | (tb << 15) | (m << 24) | (ip << 28),
    ;
    r
}

// ─── IHOLD_IRUN ─────────────────────────────────────────────────────────────

/// ihold 0..=4, irun 8..=12, iholddelay 16..=19.
pub open spec fn ihold_irun_fields(r: u32, ihold: u8, irun: u8, iholddelay: u8) -> bool {
    &&& field(r, 0, 0x1F) == ihold
    &&& field(r, 8, 0x1F) == irun
    &&& field(r, 16, 0xF) == iholddelay
    &&& r & !0x000F_1F1Fu32 == 0
}

pub open spec fn spec_ihold_irun(ihold: u8, irun: u8, iholddelay: u8) -> u32 {
    (ihold as u32) | ((irun as u32) << 8) | ((iholddelay as u32) << 16)
}

/// Builds an IHOLD_IRUN word.
pub fn ihold_irun_value(ihold: u8, irun: u8, iholddelay: u8) -> (r: u32)
    requires
        ihold < 32,
        irun < 32,
        iholddelay < 16,
    ensures
        r == spec_ihold_irun(ihold, irun, iholddelay),
        ihold_irun_fields(r, ihold, irun, iholddelay),
{
    let h = ihold as u32;
    let ru = irun as u32;
    let d = iholddelay as u32;
    let r: u32 = h | (ru << 8) | (d << 16);
    assert({
        &&& (r >> 0) & 0x1F == h
        &&& (r >> 8) & 0x1F == ru
        &&& (r >> 16) & 0xF == d
        &&& r & !0x000F_1F1Fu32 == 0
    }) by (bit_vector)
        requires
            h < 32,
            ru < 32,
            d < 16,
            r == h | (ru << 8) | (d << 16),
    ;
    r
}

// ─── PWMCONF ────────────────────────────────────────────────────────────────

/// pwm_ofs 0..=7, pwm_grad 8..=15, pwm_freq 16..=17, pwm_autoscale 18,
/// pwm_autograd 19, freewheel 20..=21, pwm_reg 24..=27, pwm_lim 28..=31.
pub open spec fn pwmconf_fields(
    r: u32,
    ofs: u8,
    grad: u8,
    freq: u8,
    autoscale: bool,
    autograd: bool,
    freewheel: u8,
    reg: u8,
    lim: u8,
) -> bool {
    &&& field(r, 0, 0xFF) == ofs
    &&& field(r, 8, 0xFF) == grad
    &&& field(r, 16, 0x3) == freq
    &&& bit(r, 18) == autoscale
    &&& bit(r, 19) == autograd
    &&& field(r, 20, 0x3) == freewheel
    &&& field(r, 24, 0xF) == reg
    &&& field(r, 28, 0xF) == lim
    &&& r & !0xFF3F_FFFFu32 == 0
}

pub open spec fn spec_pwmconf(
    ofs: u8,
    grad: u8,
    freq: u8,
    autoscale: bool,
    autograd: bool,
    freewheel: u8,
    reg: u8,
    lim: u8,
) -> u32 {
    (ofs as u32) | ((grad as u32) << 8) | ((freq as u32) << 16) | (flag(autoscale) << 18) | (
    flag(autograd) << 19) | ((freewheel as u32) << 20) | ((reg as u32) << 24) | ((lim as u32)
        << 28)
}

/// Builds a PWMCONF word.
pub fn pwmconf_value(
    ofs: u8,
    grad: u8,
    freq: u8,
    autoscale: bool,
    autograd: bool,
    freewheel: u8,
    reg: u8,
    lim: u8,
) -> (r: u32)
    requires
        freq < 4,
        freewheel < 4,
        reg < 16,
        lim < 16,
    ensures
        r == spec_pwmconf(ofs, grad, freq, autoscale, autograd, freewheel, reg, lim),
        pwmconf_fields(r, ofs, grad, freq, autoscale, autograd, freewheel, reg, lim),
{
    let o = ofs as u32;
    let g = grad as u32;
    let f = freq as u32;
    let a = if autoscale { 1u32 } else { 0u32 };
    let ag = if autograd { 1u32 } else { 0u32 };
    let fw = freewheel as u32;
    let rg = reg as u32;
    let l = lim as u32;
    let r: u32 = o | (g << 8) | (f << 16) | (a << 18) | (ag << 19) | (fw << 20) | (rg << 24) | (l
        << 28);
    assert({
        &&& (r >> 0) & 0xFF == o
        &&& (r >> 8) & 0xFF == g
        &&& (r >> 16) & 0x3 == f
        &&& (r >> 18) & 1 == a
        &&& (r >> 19) & 1 == ag
        &&& (r >> 20) & 0x3 == fw
        &&& (r >> 24) & 0xF == rg
        &&& (r >> 28) & 0xF == l
        &&& r & !0xFF3F_FFFFu32 == 0
    }) by (bit_vector)
        requires
            o < 256,
            g < 256,
            f < 4,
            a < 2,
            ag < 2,
            fw < 4,
            rg < 16,
            l < 16,
            r == o | (g << 8) | (f << 16) | (a << 18) | (ag << 19) | (fw << 20) | (rg << 24) | (l
                << 28),
    ;
    r
}

// ─── COOLCONF ───────────────────────────────────────────────────────────────

/// The coolStep fields of COOLCONF: semin 0..=3, seup 5..=6, semax 8..=11,
/// sedn 13..=14, seimin 15.
pub open spec fn coolstep_mask() -> u32 {
    0xEF6F
}

pub open spec fn coolstep_fields(
    r: u32,
    semin: u8,
    seup: u8,
    semax: u8,
    sedn: u8,
    seimin: bool,
) -> bool {
    &&& field(r, 0, 0xF) == semin
    &&& field(r, 5, 0x3) == seup
    &&& field(r, 8, 0xF) == semax
    &&& field(r, 13, 0x3) == sedn
    &&& bit(r, 15) == seimin
}

pub open spec fn spec_coolconf_with_coolstep(
    base: u32,
    semin: u8,
    seup: u8,
    semax: u8,
    sedn: u8,
    seimin: bool,
) -> u32 {
    (base & !0xEF6Fu32) | (semin as u32) | ((seup as u32) << 5) | ((semax as u32) << 8) | ((
    sedn as u32) << 13) | (flag(seimin) << 15)
}

/// Writes the coolStep fields into `base`, keeping every other bit of it.
pub fn coolconf_with_coolstep(
    base: u32,
    semin: u8,
    seup: u8,
    semax: u8,
    sedn: u8,
    seimin: bool,
) -> (r: u32)
    requires
        semin < 16,
        seup < 4,
        semax < 16,
        sedn < 4,
    ensures
        r == spec_coolconf_with_coolstep(base, semin, seup, semax, sedn, seimin),
        coolstep_fields(r, semin, seup, semax, sedn, seimin),
        r & !coolstep_mask() == base & !coolstep_mask(),
{
    let mn = semin as u32;
    let up = seup as u32;
    let mx = semax as u32;
    let dn = sedn as u32;
    let im = if seimin { 1u32 } else { 0u32 };
    let r: u32 = (base & !0xEF6Fu32) | mn | (up << 5) | (mx << 8) | (dn << 13) | (im << 15);
    assert({
        &&& (r >> 0) & 0xF == mn
        &&& (r >> 5) & 0x3 == up
        &&& (r >> 8) & 0xF == mx
        &&& (r >> 13) & 0x3 == dn
        &&& (r >> 15) & 1 == im
        &&& r & !0xEF6Fu32 == base & !0xEF6Fu32
    }) by (bit_vector)
        requires
            mn < 16,
            up < 4,
            mx < 16,
            dn < 4,
            im < 2,
            r == (base & !0xEF6Fu32) | mn | (up << 5) | (mx << 8) | (dn << 13) | (im << 15),
    ;
    r
}

/// COOLCONF with only the stallGuard2 threshold (7 bits at 16..=22) set.
pub open spec fn coolconf_sgt_fields(r: u32, sgt: u8) -> bool {
    &&& field(r, 16, 0x7F) == sgt
    &&& r & !0x007F_0000u32 == 0
}

pub open spec fn spec_coolconf_sgt(sgt: u8) -> u32 {
    (sgt as u32) << 16
}

/// Builds a COOLCONF word holding only the stallGuard2 threshold.
pub fn coolconf_sgt_value(sgt: u8) -> (r: u32)
    requires
        sgt < 128,
    ensures
        r == spec_coolconf_sgt(sgt),
        coolconf_sgt_fields(r, sgt),
{
    let s = sgt as u32;
    let r: u32 = s << 16;
    assert((r >> 16) & 0x7F == s && r & !0x007F_0000u32 == 0) by (bit_vector)
        requires
            s < 128,
            r == s << 16,
    ;
    r
}

} // verus!
