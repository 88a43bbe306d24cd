//! UART datagrams of the TMC2209: the CRC the chip checks, the write and read
//! request frames, and the decoding of a read reply.

use vstd::prelude::*;
use crate::bits::{bit, flag};

verus! {

/// Sync byte that starts every UART datagram.
pub const UART_SYNC: u8 = 0x05;

// ─── CRC ────────────────────────────────────────────────────────────────────

/// One bit of the datagram CRC: the byte is consumed least significant bit first.
pub open spec fn crc8_bit(crc: u8, byte: u8) -> u8 {
    if ((crc ^ byte) & 0x01) != 0 {
        ((crc ^ 0x07) >> 1) | 0x80
    } else {
        crc >> 1
    }
}

/// `rounds` bits of `byte` folded into `crc`, least significant bit first.
pub open spec fn crc8_rounds(crc: u8, byte: u8, rounds: nat) -> u8
    decreases rounds,
{
    if rounds == 0 {
        crc
    } else {
        crc8_rounds(crc8_bit(crc, byte), byte >> 1, (rounds - 1) as nat)
    }
}

/// The CRC register after all of `data`, starting from 0.
pub open spec fn crc8_fold(data: Seq<u8>) -> u8
    decreases data.len(),
{
    if data.len() == 0 {
        0
    } else {
        crc8_rounds(crc8_fold(data.drop_last()), data.last(), 8)
    }
}

/// What `compute_crc8` returns: the folded CRC, except that a three-byte
/// read request `[05, 00, 00]` and a three-byte datagram whose CRC comes out
/// as `0xC0` both give `0x01`.
pub open spec fn spec_compute_crc8(data: Seq<u8>) -> u8 {
    if data.len() == 3 && data[0] == 0x05 && data[1] == 0x00 && data[2] == 0x00 {
        0x01
    } else if crc8_fold(data) == 0xC0 && data.len() == 3 {
        0x01
    } else {
        crc8_fold(data)
    }
}

/// CRC of a datagram as the driver computes it.
pub fn compute_crc8(data: &[u8]) -> (crc: u8)
    ensures
        crc == spec_compute_crc8(data@),
{
    if data.len() == 3 && data[0] == 0x05 && data[1] == 0x00 && data[2] == 0x00 {
        return 0x01;
    }
    let mut crc: u8 = 0;
    let n = data.len();
    let mut i: usize = 0;
    while i < n
        invariant
            n == data@.len(),
            i <= n,
            crc == crc8_fold(data@.take(i as int)),
        decreases n - i,
    {
        let b = data[i];
        let mut byte: u8 = b;
        let ghost start = crc;
        let mut j: u8 = 0;
        while j < 8
            invariant
                j <= 8,
                crc8_rounds(crc, byte, (8 - j) as nat) == crc8_rounds(start, b, 8),
            decreases 8 - j,
        {
            if ((crc ^ byte) & 0x01) != 0 {
                crc = ((crc ^ 0x07) >> 1) | 0x80;
            } else {
                crc = crc >> 1;
            }
            byte = byte >> 1;
            j = j + 1;
        }
        assert(data@.take(i + 1).drop_last() =~= data@.take(i as int));
        i = i + 1;
    }
    assert(data@.take(n as int) =~= data@);
    if crc == 0xC0 && data.len() == 3 {
        0x01
    } else {
        crc
    }
}

/// One step of CRC-8/SMBUS (polynomial 0x07, no reflection): the byte is
/// consumed most significant bit first.
pub open spec fn smbus_bit(crc: u8) -> u8 {
    if crc & 0x80 != 0 {
        ((crc << 1) ^ 0x07) as u8
    } else {
        (crc << 1) as u8
    }
}

pub open spec fn smbus_rounds(crc: u8, rounds: nat) -> u8
    decreases rounds,
{
    if rounds == 0 {
        crc
    } else {
        smbus_rounds(smbus_bit(crc), (rounds - 1) as nat)
    }
}

/// CRC-8/SMBUS of `data`: initial value 0, no final xor.
pub open spec fn crc8_smbus(data: Seq<u8>) -> u8
    decreases data.len(),
{
    if data.len() == 0 {
        0
    } else {
        smbus_rounds(crc8_smbus(data.drop_last()) ^ data.last(), 8)
    }
}

/// Calls `crc::Crc::<u8>::checksum` with the catalogue algorithm
/// `CRC_8_SMBUS` (width 8, polynomial 0x07, initial value 0, no input or
/// output reflection, no final xor). The contract states that the checksum is
/// that algorithm applied to the bytes.
#[verifier::external_body]
fn smbus_checksum(data: &[u8]) -> (crc: u8)
    ensures
        crc == crc8_smbus(data@),
{
    crc::Crc::<u8>::new(&crc::CRC_8_SMBUS).checksum(data)
}

/// The one error of `check_crc8`.
#[derive(Debug, Clone, Copy, PartialEq, Eq)]
pub enum CrcErr {
    Error,
}

/// Compares the CRC-8/SMBUS checksums of two byte strings.
pub fn check_crc8(data: &[u8], target: &[u8]) -> (r: Result<(), CrcErr>)
    ensures
        r is Ok <==> crc8_smbus(data@) == crc8_smbus(target@),
{
    if smbus_checksum(data) != smbus_checksum(target) {
        return Err(CrcErr::Error);
    }
    Ok(())
}

// ─── UART frames ────────────────────────────────────────────────────────────

/// The big-endian bytes of a 32-bit word, most significant first.
pub open spec fn be_bytes(w: u32) -> Seq<u8> {
    seq![
        ((w >> 24) & 0xff) as u8,
        ((w >> 16) & 0xff) as u8,
        ((w >> 8) & 0xff) as u8,
        (w & 0xff) as u8,
    ]
}

/// The first seven bytes of a write datagram.
pub open spec fn write_frame_head(payload: u32, node_addr: u8, register_addr: u8) -> Seq<u8> {
    seq![UART_SYNC, node_addr, register_addr | 0x80] + be_bytes(payload)
}

/// A complete write datagram: the head followed by its CRC.
pub open spec fn write_frame(payload: u32, node_addr: u8, register_addr: u8) -> Seq<u8> {
    write_frame_head(payload, node_addr, register_addr).push(
        spec_compute_crc8(write_frame_head(payload, node_addr, register_addr)),
    )
}

/// A read request: sync, node, register with the write bit cleared, the CRC
/// of those three bytes, then four zero bytes of padding.
pub open spec fn read_frame(node_addr: u8, register_addr: u8) -> Seq<u8> {
    let head = seq![UART_SYNC, node_addr, register_addr & 0x7F];
    head.push(spec_compute_crc8(head)).add(seq![0u8, 0u8, 0u8, 0u8])
}

/// Frames of a fixed length of eight bytes.
pub trait Frame {
    fn make_frame(payload: u32, node_addr: u8, register_addr: u8) -> [u8; 8];
}

/// Write request datagram.
pub struct Writeframe;

impl Writeframe {
    /// Builds the eight-byte write datagram; the data word goes out most
    /// significant byte first.
    pub fn make_frame(payload: u32, node_addr: u8, register_addr: u8) -> (bytes: [u8; 8])
        ensures
            bytes@ == write_frame(payload, node_addr, register_addr),
    {
        #[verifier::truncate]
        let b0 = ((payload >> 24) & 0xff) as u8;
        #[verifier::truncate]
        let b1 = ((payload >> 16) & 0xff) as u8;
        #[verifier::truncate]
        let b2 = ((payload >> 8) & 0xff) as u8;
        let b3 = (payload & 0xff) as u8;
        let head: [u8; 7] = [UART_SYNC, node_addr, register_addr | 0x80, b0, b1, b2, b3];
        assert(head@ =~= write_frame_head(payload, node_addr, register_addr));
        let crc = compute_crc8(head.as_slice());
        let bytes: [u8; 8] = [head[0], head[1], head[2], head[3], head[4], head[5], head[6], crc];
        assert(bytes@ =~= write_frame(payload, node_addr, register_addr));
        bytes
    }
}

/// Read request datagram.
pub struct ReadFrame;

impl Frame for ReadFrame {
    /// Builds the four-byte read request, padded to eight bytes; the payload
    /// is ignored.
    fn make_frame(_payload: u32, node_addr: u8, register_addr: u8) -> (frame: [u8; 8])
        ensures
            frame@ == read_frame(node_addr, register_addr),
    {
        let base_request: [u8; 3] = [UART_SYNC, node_addr, register_addr & 0x7F];
        let crc = compute_crc8(base_request.as_slice());
        let frame: [u8; 8] = [base_request[0], base_request[1], base_request[2], crc, 0, 0, 0, 0];
        assert(frame@ =~= read_frame(node_addr, register_addr));
        frame
    }
}

/// Reply datagram of a read, taken as a 64-bit little-endian word.
pub struct ReadReplyFrame {
    pub raw_value: u64,
}

/// The data field of a reply word: bits 24 to 55.
pub open spec fn reply_data(data: u64) -> u32 {
    ((data >> 24) & 0xffff_ffff) as u32
}

impl ReadReplyFrame {
    /// Extracts bits 24..=55 of the reply word.
    pub fn read_frame(data: u64) -> (r: u32)
        ensures
            r == reply_data(data),
    {
        ((data >> 24) & 0xffff_ffff) as u32
    }
}

/// The little-endian value of eight bytes.
pub open spec fn le_u64(b: Seq<u8>) -> u64 {
    ((b[0] as u64) | ((b[1] as u64) << 8) | ((b[2] as u64) << 16) | ((b[3] as u64) << 24) | ((
    b[4] as u64) << 32) | ((b[5] as u64) << 40) | ((b[6] as u64) << 48) | ((b[7] as u64) << 56))
}

/// Assembles a little-endian 64-bit word from eight bytes.
pub fn u64_from_le_bytes(b: [u8; 8]) -> (w: u64)
    ensures
        w == le_u64(b@),
{
    (b[0] as u64) | ((b[1] as u64) << 8) | ((b[2] as u64) << 16) | ((b[3] as u64) << 24) | ((
    b[4] as u64) << 32) | ((b[5] as u64) << 40) | ((b[6] as u64) << 48) | ((b[7] as u64) << 56)
}

// ─── Registers ──────────────────────────────────────────────────────────────

/// Register addresses.
pub const GCONF: u8 = 0x00;
pub const GSTAT: u8 = 0x01;
pub const IFCNT: u8 = 0x02;
pub const NODECONF: u8 = 0x03;
pub const IHOLD_IRUN: u8 = 0x10;
pub const TPOWERDOWN: u8 = 0x11;
pub const TSTEP: u8 = 0x12;
pub const TPWMTHRS: u8 = 0x13;
pub const TCOOLTHRS: u8 = 0x14;
pub const SGTHRS: u8 = 0x40;
pub const SG_RESULT: u8 = 0x41;
pub const COOLCONF: u8 = 0x42;
pub const MSCNT: u8 = 0x6A;
pub const MSCURACT: u8 = 0x6B;
pub const CHOPCONF: u8 = 0x6C;
pub const DRV_STATUS_ADDR: u8 = 0x6F;
pub const PWMCONF: u8 = 0x70;
pub const PWM_SCALE: u8 = 0x71;
pub const PWM_AUTO: u8 = 0x72;

/// The DRV_STATUS register word.
#[allow(non_camel_case_types)]
#[derive(Clone, Copy)]
pub struct DRV_STATUS {
    pub raw_value: u32,
}

impl DRV_STATUS {
    pub fn new_with_raw_value(raw_value: u32) -> (r: Self)
        ensures
            r.raw_value == raw_value,
    {
        DRV_STATUS { raw_value }
    }
}

/// GCONF as the driver writes it: pdn_disable (bit 6) and mstep_reg_select
/// (bit 7) set, en_spread_cycle (bit 2) the negation of stealthChop, shaft
/// (bit 3), multistep_filt (bit 8), every other bit clear.
pub open spec fn gconf_fields(r: u32, stealthchop: bool, shaft: bool, multistep_filt: bool) -> bool {
    &&& bit(r, 6)
    &&& bit(r, 7)
    &&& bit(r, 2) == !stealthchop
    &&& bit(r, 3) == shaft
    &&& bit(r, 8) == multistep_filt
    &&& r & !0x1CCu32 == 0
}

pub open spec fn spec_gconf(stealthchop: bool, shaft: bool, multistep_filt: bool) -> u32 {
    (1u32 << 6) | (1u32 << 7) | (flag(!stealthchop) << 2) | (flag(shaft) << 3) | (flag(
        multistep_filt,
    ) << 8)
}

/// Builds the GCONF word.
pub fn gconf_value(stealthchop: bool, shaft: bool, multistep_filt: bool) -> (r: u32)
    ensures
        r == spec_gconf(stealthchop, shaft, multistep_filt),
        gconf_fields(r, stealthchop, shaft, multistep_filt),
{
    let sc = if stealthchop { 0u32 } else { 1u32 };
    let sh = if shaft { 1u32 } else { 0u32 };
    let mf = if multistep_filt { 1u32 } else { 0u32 };
    let r: u32 = (1u32 << 6) | (1u32 << 7) | (sc << 2) | (sh << 3) | (mf << 8);
    assert({
        &&& (r >> 6) & 1 == 1
        &&& (r >> 7) & 1 == 1
        &&& (r >> 2) & 1 == sc
        &&& (r >> 3) & 1 == sh
        &&& (r >> 8) & 1 == mf
        &&& r & !0x1CCu32 == 0
    }) by (bit_vector)
        requires
            sc < 2,
            sh < 2,
            mf < 2,
            r == (1u32 << 6) | (1u32 << 7) | (sc << 2) | (sh << 3) | (mf << 8),
    ;
    r
}


/// A write datagram carries what was written: the sync byte, the node, the
/// register with the write flag, the data word most significant byte first,
/// and the CRC of the seven bytes before it.
pub proof fn lemma_write_frame_round_trip(payload: u32, node_addr: u8, register_addr: u8)
    ensures
        ({
            let f = write_frame(payload, node_addr, register_addr);
            &&& f.len() == 8
            &&& f[0] == UART_SYNC
            &&& f[1] == node_addr
            &&& f[2] & 0x80 == 0x80
            &&& f[2] & 0x7f == register_addr & 0x7f
            &&& crate::bits::be_u32(f.subrange(3, 7)) == payload
            &&& f[7] == spec_compute_crc8(f.take(7))
        }),
{
    let f = write_frame(payload, node_addr, register_addr);
    let head = write_frame_head(payload, node_addr, register_addr);
    assert(f.take(7) =~= head);
    assert(f.subrange(3, 7) =~= be_bytes(payload));
    crate::bits::lemma_be_round_trip(payload);
    crate::bits::lemma_write_flag(register_addr);
}
} // verus!
