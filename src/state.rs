//! Save states: a versioned byte image of the whole console, and its exact
//! inverse.
use vstd::prelude::*;
use crate::apu::{Dmc, Envelope, FrameCounter, Noise, Pulse, Triangle, APU};
use crate::bus::{Bus, Pad};
use crate::cpu::Cpu6502;
use crate::cartridge::{copy_range, Mirroring};
use crate::mapper::{Board, Mapper, Mapper0};
use crate::nes::NES;
use crate::ppu::{registers_of, PpuRegisters, PPU};

verus! {

pub open spec fn enc_u8(v: u8) -> Seq<u8> {
    seq![v]
}

pub open spec fn enc_bool(v: bool) -> Seq<u8> {
    seq![if v { 1u8 } else { 0u8 }]
}

pub open spec fn enc_u16(v: u16) -> Seq<u8> {
    seq![(v % 256) as u8, (v / 256) as u8]
}

pub open spec fn enc_u32(v: u32) -> Seq<u8> {
    seq![(v % 256) as u8, ((v / 256) % 256) as u8, ((v / 65536) % 256) as u8, (v / 16777216) as u8]
}

pub open spec fn enc_u64(v: u64) -> Seq<u8> {
    enc_u32((v % 0x1_0000_0000) as u32) + enc_u32((v / 0x1_0000_0000) as u32)
}

pub open spec fn dec_u8_at(s: Seq<u8>, i: int) -> u8 {
    s[i]
}

pub open spec fn dec_bool_at(s: Seq<u8>, i: int) -> bool {
    s[i] != 0
}

pub open spec fn dec_u16_at(s: Seq<u8>, i: int) -> u16 {
    (s[i] as int + 256 * s[i + 1] as int) as u16
}

pub open spec fn dec_u32_at(s: Seq<u8>, i: int) -> u32 {
    (s[i] as int + 256 * s[i + 1] as int + 65536 * s[i + 2] as int + 16777216 * s[i + 3] as int) as u32
}

pub open spec fn dec_u64_at(s: Seq<u8>, i: int) -> u64 {
    (dec_u32_at(s, i) as int + 0x1_0000_0000 * dec_u32_at(s, i + 4) as int) as u64
}

proof fn lemma_u8_at(v: u8, pre: Seq<u8>, tail: Seq<u8>)
    ensures
        dec_u8_at(pre + enc_u8(v) + tail, pre.len() as int) == v,
{
}

proof fn lemma_bool_at(v: bool, pre: Seq<u8>, tail: Seq<u8>)
    ensures
        dec_bool_at(pre + enc_bool(v) + tail, pre.len() as int) == v,
{
}

proof fn lemma_u16_at(v: u16, pre: Seq<u8>, tail: Seq<u8>)
    ensures
        dec_u16_at(pre + enc_u16(v) + tail, pre.len() as int) == v,
{
}

proof fn lemma_u32_at(v: u32, pre: Seq<u8>, tail: Seq<u8>)
    ensures
        dec_u32_at(pre + enc_u32(v) + tail, pre.len() as int) == v,
{
    let s = pre + enc_u32(v) + tail;
    let i = pre.len() as int;
    assert(s[i] == (v % 256) as u8);
    assert(s[i + 1] == ((v / 256) % 256) as u8);
    assert(s[i + 2] == ((v / 65536) % 256) as u8);
    assert(s[i + 3] == (v / 16777216) as u8);
}

proof fn lemma_u32_bytes(v: u32)
    ensures
        (v % 256) as u8 as int + 256 * ((v / 256) % 256) as u8 as int + 65536 * ((v / 65536) % 256) as u8 as int
            + 16777216 * (v / 16777216) as u8 as int == v,
{
}

proof fn lemma_u64_at(v: u64, pre: Seq<u8>, tail: Seq<u8>)
    ensures
        dec_u64_at(pre + enc_u64(v) + tail, pre.len() as int) == v,
{
    let lo = (v % 0x1_0000_0000) as u32;
    let hi = (v / 0x1_0000_0000) as u32;
    lemma_u32_at(lo, pre, enc_u32(hi) + tail);
    assert(pre + enc_u32(lo) + (enc_u32(hi) + tail) =~= pre + enc_u64(v) + tail);
    lemma_u32_at(hi, pre + enc_u32(lo), tail);
    assert(pre + enc_u32(lo) + enc_u32(hi) + tail =~= pre + enc_u64(v) + tail);
}

fn put_u8(out: &mut Vec<u8>, v: u8)
    ensures
        final(out)@ == old(out)@ + enc_u8(v),
{
    out.push(v);
    assert(out@ =~= old(out)@ + enc_u8(v));
}

fn put_bool(out: &mut Vec<u8>, v: bool)
    ensures
        final(out)@ == old(out)@ + enc_bool(v),
{
    out.push(if v { 1u8 } else { 0u8 });
    assert(out@ =~= old(out)@ + enc_bool(v));
}

fn put_u16(out: &mut Vec<u8>, v: u16)
    ensures
        final(out)@ == old(out)@ + enc_u16(v),
{
    out.push((v % 256) as u8);
    out.push((v / 256) as u8);
    assert(out@ =~= old(out)@ + enc_u16(v));
}

fn put_u32(out: &mut Vec<u8>, v: u32)
    ensures
        final(out)@ == old(out)@ + enc_u32(v),
{
    out.push((v % 256) as u8);
    out.push(((v / 256) % 256) as u8);
    out.push(((v / 65536) % 256) as u8);
    out.push((v / 16777216) as u8);
    assert(out@ =~= old(out)@ + enc_u32(v));
}

fn put_u64(out: &mut Vec<u8>, v: u64)
    ensures
        final(out)@ == old(out)@ + enc_u64(v),
{
    put_u32(out, (v % 0x1_0000_0000) as u32);
    put_u32(out, (v / 0x1_0000_0000) as u32);
    assert(out@ =~= old(out)@ + enc_u64(v));
}

fn get_u8(data: &[u8], i: usize) -> (r: u8)
    requires
        i + 1 <= data.len(),
    ensures
        r == dec_u8_at(data@, i as int),
{
    data[i]
}

fn get_bool(data: &[u8], i: usize) -> (r: bool)
    requires
        i + 1 <= data.len(),
    ensures
        r == dec_bool_at(data@, i as int),
{
    data[i] != 0
}

fn get_u16(data: &[u8], i: usize) -> (r: u16)
    requires
        i + 2 <= data.len(),
    ensures
        r == dec_u16_at(data@, i as int),
{
    data[i] as u16 + 256 * data[i + 1] as u16
}

fn get_u32(data: &[u8], i: usize) -> (r: u32)
    requires
        i + 4 <= data.len(),
    ensures
        r == dec_u32_at(data@, i as int),
{
    data[i] as u32 + 256 * data[i + 1] as u32 + 65536 * data[i + 2] as u32 + 16777216 * data[i + 3] as u32
}

fn get_u64(data: &[u8], i: usize) -> (r: u64)
    requires
        i + 8 <= data.len(),
    ensures
        r == dec_u64_at(data@, i as int),
{
    get_u32(data, i) as u64 + 0x1_0000_0000 * get_u32(data, i + 4) as u64
}

pub const ENVELOPE_LEN: usize = 6;

/// Bytes of a Envelope: its fields in declaration order, little-endian.
pub open spec fn enc_envelope(v: Envelope) -> Seq<u8> {
    seq![if v.start { 1u8 } else { 0u8 }, if v.looping { 1u8 } else { 0u8 }, if v.constant { 1u8 } else { 0u8 }, v.volume, v.divider, v.decay]
}

/// The Envelope stored at offset `b` of `s`.
pub open spec fn dec_envelope(s: Seq<u8>, b: int) -> Envelope {
    Envelope {
        start: dec_bool_at(s, b + 0),
        looping: dec_bool_at(s, b + 1),
        constant: dec_bool_at(s, b + 2),
        volume: dec_u8_at(s, b + 3),
        divider: dec_u8_at(s, b + 4),
        decay: dec_u8_at(s, b + 5),
    }
}

fn put_envelope(out: &mut Vec<u8>, v: &Envelope)
    ensures
        final(out)@ == old(out)@ + enc_envelope(*v),
{
    put_bool(out, v.start);
    put_bool(out, v.looping);
    put_bool(out, v.constant);
    put_u8(out, v.volume);
    put_u8(out, v.divider);
    put_u8(out, v.decay);
    assert(out@ =~= old(out)@ + enc_envelope(*v));
}

fn get_envelope(data: &[u8], b: usize) -> (r: Envelope)
    requires
        b + 6 <= data.len(),
    ensures
        r == dec_envelope(data@, b as int),
{
    Envelope {
        start: get_bool(data, b + 0),
        looping: get_bool(data, b + 1),
        constant: get_bool(data, b + 2),
        volume: get_u8(data, b + 3),
        divider: get_u8(data, b + 4),
        decay: get_u8(data, b + 5),
    }
}

proof fn lemma_envelope_round_trip(v: Envelope, s: Seq<u8>, b: int)
    requires
        0 <= b,
        b + 6 <= s.len(),
        forall|k: int| 0 <= k < 6 ==> s[b + k] == #[trigger] enc_envelope(v)[k],
    ensures
        enc_envelope(v).len() == 6,
        dec_envelope(s, b) == v,
{
    let e = enc_envelope(v);
    assert(s[b + 0] == e[0]);
    assert(s[b + 1] == e[1]);
    assert(s[b + 2] == e[2]);
    assert(s[b + 3] == e[3]);
    assert(s[b + 4] == e[4]);
    assert(s[b + 5] == e[5]);
}

pub const PULSE_LEN: usize = 21;

/// Bytes of a Pulse: its fields in declaration order, little-endian.
pub open spec fn enc_pulse(v: Pulse) -> Seq<u8> {
    seq![if v.enabled { 1u8 } else { 0u8 }, v.duty]
        + enc_envelope(v.env)
        + seq![if v.sweep_enabled { 1u8 } else { 0u8 }, v.sweep_period, if v.sweep_negate { 1u8 } else { 0u8 }, v.sweep_shift, if v.sweep_reload { 1u8 } else { 0u8 }, v.sweep_divider, if v.ones_complement { 1u8 } else { 0u8 }, (v.timer_period % 256) as u8, (v.timer_period / 256) as u8, (v.timer % 256) as u8, (v.timer / 256) as u8, v.seq, v.length]
}

/// The Pulse stored at offset `b` of `s`.
pub open spec fn dec_pulse(s: Seq<u8>, b: int) -> Pulse {
    Pulse {
        enabled: dec_bool_at(s, b + 0),
        duty: dec_u8_at(s, b + 1),
        env: dec_envelope(s, b + 2),
        sweep_enabled: dec_bool_at(s, b + 8),
        sweep_period: dec_u8_at(s, b + 9),
        sweep_negate: dec_bool_at(s, b + 10),
        sweep_shift: dec_u8_at(s, b + 11),
        sweep_reload: dec_bool_at(s, b + 12),
        sweep_divider: dec_u8_at(s, b + 13),
        ones_complement: dec_bool_at(s, b + 14),
        timer_period: dec_u16_at(s, b + 15),
        timer: dec_u16_at(s, b + 17),
        seq: dec_u8_at(s, b + 19),
        length: dec_u8_at(s, b + 20),
    }
}

fn put_pulse(out: &mut Vec<u8>, v: &Pulse)
    ensures
        final(out)@ == old(out)@ + enc_pulse(*v),
{
    put_bool(out, v.enabled);
    put_u8(out, v.duty);
    put_envelope(out, &v.env);
    put_bool(out, v.sweep_enabled);
    put_u8(out, v.sweep_period);
    put_bool(out, v.sweep_negate);
    put_u8(out, v.sweep_shift);
    put_bool(out, v.sweep_reload);
    put_u8(out, v.sweep_divider);
    put_bool(out, v.ones_complement);
    put_u16(out, v.timer_period);
    put_u16(out, v.timer);
    put_u8(out, v.seq);
    put_u8(out, v.length);
    assert(out@ =~= old(out)@ + enc_pulse(*v));
}

fn get_pulse(data: &[u8], b: usize) -> (r: Pulse)
    requires
        b + 21 <= data.len(),
    ensures
        r == dec_pulse(data@, b as int),
{
    Pulse {
        enabled: get_bool(data, b + 0),
        duty: get_u8(data, b + 1),
        env: get_envelope(data, b + 2),
        sweep_enabled: get_bool(data, b + 8),
        sweep_period: get_u8(data, b + 9),
        sweep_negate: get_bool(data, b + 10),
        sweep_shift: get_u8(data, b + 11),
        sweep_reload: get_bool(data, b + 12),
        sweep_divider: get_u8(data, b + 13),
        ones_complement: get_bool(data, b + 14),
        timer_period: get_u16(data, b + 15),
        timer: get_u16(data, b + 17),
        seq: get_u8(data, b + 19),
        length: get_u8(data, b + 20),
    }
}

proof fn lemma_pulse_round_trip(v: Pulse, s: Seq<u8>, b: int)
    requires
        0 <= b,
        b + 21 <= s.len(),
        forall|k: int| 0 <= k < 21 ==> s[b + k] == #[trigger] enc_pulse(v)[k],
    ensures
        enc_pulse(v).len() == 21,
        dec_pulse(s, b) == v,
{
    let e = enc_pulse(v);
    assert(s[b + 0] == e[0]);
    assert(s[b + 1] == e[1]);
    assert forall|k: int| 0 <= k < 6 implies s[b + 2 + k] == #[trigger] enc_envelope(v.env)[k] by {
        assert(s[b + 2 + k] == e[2 + k]);
    }
    lemma_envelope_round_trip(v.env, s, b + 2);
    assert(s[b + 8] == e[8]);
    assert(s[b + 9] == e[9]);
    assert(s[b + 10] == e[10]);
    assert(s[b + 11] == e[11]);
    assert(s[b + 12] == e[12]);
    assert(s[b + 13] == e[13]);
    assert(s[b + 14] == e[14]);
    assert(s[b + 15] == e[15]);
    assert(s[b + 16] == e[16]);
    assert(s[b + 17] == e[17]);
    assert(s[b + 18] == e[18]);
    assert(s[b + 19] == e[19]);
    assert(s[b + 20] == e[20]);
}

pub const TRIANGLE_LEN: usize = 11;

/// Bytes of a Triangle: its fields in declaration order, little-endian.
pub open spec fn enc_triangle(v: Triangle) -> Seq<u8> {
    seq![if v.enabled { 1u8 } else { 0u8 }, if v.control { 1u8 } else { 0u8 }, v.linear_reload_value, v.linear, if v.linear_reload { 1u8 } else { 0u8 }, (v.timer_period % 256) as u8, (v.timer_period / 256) as u8, (v.timer % 256) as u8, (v.timer / 256) as u8, v.seq, v.length]
}

/// The Triangle stored at offset `b` of `s`.
pub open spec fn dec_triangle(s: Seq<u8>, b: int) -> Triangle {
    Triangle {
        enabled: dec_bool_at(s, b + 0),
        control: dec_bool_at(s, b + 1),
        linear_reload_value: dec_u8_at(s, b + 2),
        linear: dec_u8_at(s, b + 3),
        linear_reload: dec_bool_at(s, b + 4),
        timer_period: dec_u16_at(s, b + 5),
        timer: dec_u16_at(s, b + 7),
        seq: dec_u8_at(s, b + 9),
        length: dec_u8_at(s, b + 10),
    }
}

fn put_triangle(out: &mut Vec<u8>, v: &Triangle)
    ensures
        final(out)@ == old(out)@ + enc_triangle(*v),
{
    put_bool(out, v.enabled);
    put_bool(out, v.control);
    put_u8(out, v.linear_reload_value);
    put_u8(out, v.linear);
    put_bool(out, v.linear_reload);
    put_u16(out, v.timer_period);
    put_u16(out, v.timer);
    put_u8(out, v.seq);
    put_u8(out, v.length);
    assert(out@ =~= old(out)@ + enc_triangle(*v));
}

fn get_triangle(data: &[u8], b: usize) -> (r: Triangle)
    requires
        b + 11 <= data.len(),
    ensures
        r == dec_triangle(data@, b as int),
{
    Triangle {
        enabled: get_bool(data, b + 0),
        control: get_bool(data, b + 1),
        linear_reload_value: get_u8(data, b + 2),
        linear: get_u8(data, b + 3),
        linear_reload: get_bool(data, b + 4),
        timer_period: get_u16(data, b + 5),
        timer: get_u16(data, b + 7),
        seq: get_u8(data, b + 9),
        length: get_u8(data, b + 10),
    }
}

proof fn lemma_triangle_round_trip(v: Triangle, s: Seq<u8>, b: int)
    requires
        0 <= b,
        b + 11 <= s.len(),
        forall|k: int| 0 <= k < 11 ==> s[b + k] == #[trigger] enc_triangle(v)[k],
    ensures
        enc_triangle(v).len() == 11,
        dec_triangle(s, b) == v,
{
    let e = enc_triangle(v);
    assert(s[b + 0] == e[0]);
    assert(s[b + 1] == e[1]);
    assert(s[b + 2] == e[2]);
    assert(s[b + 3] == e[3]);
    assert(s[b + 4] == e[4]);
    assert(s[b + 5] == e[5]);
    assert(s[b + 6] == e[6]);
    assert(s[b + 7] == e[7]);
    assert(s[b + 8] == e[8]);
    assert(s[b + 9] == e[9]);
    assert(s[b + 10] == e[10]);
}

pub const NOISE_LEN: usize = 14;

/// Bytes of a Noise: its fields in declaration order, little-endian.
pub open spec fn enc_noise(v: Noise) -> Seq<u8> {
    seq![if v.enabled { 1u8 } else { 0u8 }]
        + enc_envelope(v.env)
        + seq![if v.short_mode { 1u8 } else { 0u8 }, v.period_index, (v.timer % 256) as u8, (v.timer / 256) as u8, (v.lfsr % 256) as u8, (v.lfsr / 256) as u8, v.length]
}

/// The Noise stored at offset `b` of `s`.
pub open spec fn dec_noise(s: Seq<u8>, b: int) -> Noise {
    Noise {
        enabled: dec_bool_at(s, b + 0),
        env: dec_envelope(s, b + 1),
        short_mode: dec_bool_at(s, b + 7),
        period_index: dec_u8_at(s, b + 8),
        timer: dec_u16_at(s, b + 9),
        lfsr: dec_u16_at(s, b + 11),
        length: dec_u8_at(s, b + 13),
    }
}

fn put_noise(out: &mut Vec<u8>, v: &Noise)
    ensures
        final(out)@ == old(out)@ + enc_noise(*v),
{
    put_bool(out, v.enabled);
    put_envelope(out, &v.env);
    put_bool(out, v.short_mode);
    put_u8(out, v.period_index);
    put_u16(out, v.timer);
    put_u16(out, v.lfsr);
    put_u8(out, v.length);
    assert(out@ =~= old(out)@ + enc_noise(*v));
}

fn get_noise(data: &[u8], b: usize) -> (r: Noise)
    requires
        b + 14 <= data.len(),
    ensures
        r == dec_noise(data@, b as int),
{
    Noise {
        enabled: get_bool(data, b + 0),
        env: get_envelope(data, b + 1),
        short_mode: get_bool(data, b + 7),
        period_index: get_u8(data, b + 8),
        timer: get_u16(data, b + 9),
        lfsr: get_u16(data, b + 11),
        length: get_u8(data, b + 13),
    }
}

proof fn lemma_noise_round_trip(v: Noise, s: Seq<u8>, b: int)
    requires
        0 <= b,
        b + 14 <= s.len(),
        forall|k: int| 0 <= k < 14 ==> s[b + k] == #[trigger] enc_noise(v)[k],
    ensures
        enc_noise(v).len() == 14,
        dec_noise(s, b) == v,
{
    let e = enc_noise(v);
    assert(s[b + 0] == e[0]);
    assert forall|k: int| 0 <= k < 6 implies s[b + 1 + k] == #[trigger] enc_envelope(v.env)[k] by {
        assert(s[b + 1 + k] == e[1 + k]);
    }
    lemma_envelope_round_trip(v.env, s, b + 1);
    assert(s[b + 7] == e[7]);
    assert(s[b + 8] == e[8]);
    assert(s[b + 9] == e[9]);
    assert(s[b + 10] == e[10]);
    assert(s[b + 11] == e[11]);
    assert(s[b + 12] == e[12]);
    assert(s[b + 13] == e[13]);
}

pub const DMC_LEN: usize = 20;

/// Bytes of a Dmc: its fields in declaration order, little-endian.
pub open spec fn enc_dmc(v: Dmc) -> Seq<u8> {
    seq![if v.irq_enabled { 1u8 } else { 0u8 }, if v.looping { 1u8 } else { 0u8 }, v.rate_index, (v.timer % 256) as u8, (v.timer / 256) as u8, v.level, (v.sample_addr % 256) as u8, (v.sample_addr / 256) as u8, (v.sample_len % 256) as u8, (v.sample_len / 256) as u8, (v.cur_addr % 256) as u8, (v.cur_addr / 256) as u8, (v.remaining % 256) as u8, (v.remaining / 256) as u8, v.shift, v.bits, if v.silence { 1u8 } else { 0u8 }, v.buffer, if v.buffer_full { 1u8 } else { 0u8 }, if v.irq { 1u8 } else { 0u8 }]
}

/// The Dmc stored at offset `b` of `s`.
pub open spec fn dec_dmc(s: Seq<u8>, b: int) -> Dmc {
    Dmc {
        irq_enabled: dec_bool_at(s, b + 0),
        looping: dec_bool_at(s, b + 1),
        rate_index: dec_u8_at(s, b + 2),
        timer: dec_u16_at(s, b + 3),
        level: dec_u8_at(s, b + 5),
        sample_addr: dec_u16_at(s, b + 6),
        sample_len: dec_u16_at(s, b + 8),
        cur_addr: dec_u16_at(s, b + 10),
        remaining: dec_u16_at(s, b + 12),
        shift: dec_u8_at(s, b + 14),
        bits: dec_u8_at(s, b + 15),
        silence: dec_bool_at(s, b + 16),
        buffer: dec_u8_at(s, b + 17),
        buffer_full: dec_bool_at(s, b + 18),
        irq: dec_bool_at(s, b + 19),
    }
}

fn put_dmc(out: &mut Vec<u8>, v: &Dmc)
    ensures
        final(out)@ == old(out)@ + enc_dmc(*v),
{
    put_bool(out, v.irq_enabled);
    put_bool(out, v.looping);
    put_u8(out, v.rate_index);
    put_u16(out, v.timer);
    put_u8(out, v.level);
    put_u16(out, v.sample_addr);
    put_u16(out, v.sample_len);
    put_u16(out, v.cur_addr);
    put_u16(out, v.remaining);
    put_u8(out, v.shift);
    put_u8(out, v.bits);
    put_bool(out, v.silence);
    put_u8(out, v.buffer);
    put_bool(out, v.buffer_full);
    put_bool(out, v.irq);
    assert(out@ =~= old(out)@ + enc_dmc(*v));
}

fn get_dmc(data: &[u8], b: usize) -> (r: Dmc)
    requires
        b + 20 <= data.len(),
    ensures
        r == dec_dmc(data@, b as int),
{
    Dmc {
        irq_enabled: get_bool(data, b + 0),
        looping: get_bool(data, b + 1),
        rate_index: get_u8(data, b + 2),
        timer: get_u16(data, b + 3),
        level: get_u8(data, b + 5),
        sample_addr: get_u16(data, b + 6),
        sample_len: get_u16(data, b + 8),
        cur_addr: get_u16(data, b + 10),
        remaining: get_u16(data, b + 12),
        shift: get_u8(data, b + 14),
        bits: get_u8(data, b + 15),
        silence: get_bool(data, b + 16),
        buffer: get_u8(data, b + 17),
        buffer_full: get_bool(data, b + 18),
        irq: get_bool(data, b + 19),
    }
}

proof fn lemma_dmc_round_trip(v: Dmc, s: Seq<u8>, b: int)
    requires
        0 <= b,
        b + 20 <= s.len(),
        forall|k: int| 0 <= k < 20 ==> s[b + k] == #[trigger] enc_dmc(v)[k],
    ensures
        enc_dmc(v).len() == 20,
        dec_dmc(s, b) == v,
{
    let e = enc_dmc(v);
    assert(s[b + 0] == e[0]);
    assert(s[b + 1] == e[1]);
    assert(s[b + 2] == e[2]);
    assert(s[b + 3] == e[3]);
    assert(s[b + 4] == e[4]);
    assert(s[b + 5] == e[5]);
    assert(s[b + 6] == e[6]);
    assert(s[b + 7] == e[7]);
    assert(s[b + 8] == e[8]);
    assert(s[b + 9] == e[9]);
    assert(s[b + 10] == e[10]);
    assert(s[b + 11] == e[11]);
    assert(s[b + 12] == e[12]);
    assert(s[b + 13] == e[13]);
    assert(s[b + 14] == e[14]);
    assert(s[b + 15] == e[15]);
    assert(s[b + 16] == e[16]);
    assert(s[b + 17] == e[17]);
    assert(s[b + 18] == e[18]);
    assert(s[b + 19] == e[19]);
}

pub const FRAME_COUNTER_LEN: usize = 7;

/// Bytes of a FrameCounter: its fields in declaration order, little-endian.
pub open spec fn enc_frame_counter(v: FrameCounter) -> Seq<u8> {
    seq![if v.five_step { 1u8 } else { 0u8 }, if v.irq_inhibit { 1u8 } else { 0u8 }, (v.cycle % 256) as u8, ((v.cycle / 256) % 256) as u8, ((v.cycle / 65536) % 256) as u8, (v.cycle / 16777216) as u8, if v.irq { 1u8 } else { 0u8 }]
}

/// The FrameCounter stored at offset `b` of `s`.
pub open spec fn dec_frame_counter(s: Seq<u8>, b: int) -> FrameCounter {
    FrameCounter {
        five_step: dec_bool_at(s, b + 0),
        irq_inhibit: dec_bool_at(s, b + 1),
        cycle: dec_u32_at(s, b + 2),
        irq: dec_bool_at(s, b + 6),
    }
}

fn put_frame_counter(out: &mut Vec<u8>, v: &FrameCounter)
    ensures
        final(out)@ == old(out)@ + enc_frame_counter(*v),
{
    put_bool(out, v.five_step);
    put_bool(out, v.irq_inhibit);
    put_u32(out, v.cycle);
    put_bool(out, v.irq);
    assert(out@ =~= old(out)@ + enc_frame_counter(*v));
}

fn get_frame_counter(data: &[u8], b: usize) -> (r: FrameCounter)
    requires
        b + 7 <= data.len(),
    ensures
        r == dec_frame_counter(data@, b as int),
{
    FrameCounter {
        five_step: get_bool(data, b + 0),
        irq_inhibit: get_bool(data, b + 1),
        cycle: get_u32(data, b + 2),
        irq: get_bool(data, b + 6),
    }
}

proof fn lemma_frame_counter_round_trip(v: FrameCounter, s: Seq<u8>, b: int)
    requires
        0 <= b,
        b + 7 <= s.len(),
        forall|k: int| 0 <= k < 7 ==> s[b + k] == #[trigger] enc_frame_counter(v)[k],
    ensures
        enc_frame_counter(v).len() == 7,
        dec_frame_counter(s, b) == v,
{
    let e = enc_frame_counter(v);
    assert(s[b + 0] == e[0]);
    assert(s[b + 1] == e[1]);
    assert(s[b + 2] == e[2]);
    assert(s[b + 3] == e[3]);
    assert(s[b + 4] == e[4]);
    assert(s[b + 5] == e[5]);
    lemma_u32_bytes(v.cycle);
    assert(s[b + 6] == e[6]);
}

pub const CPU_LEN: usize = 12;

/// Bytes of a Cpu6502: its fields in declaration order, little-endian.
pub open spec fn enc_cpu(v: Cpu6502) -> Seq<u8> {
    seq![v.a, v.x, v.y, (v.pc % 256) as u8, (v.pc / 256) as u8, v.sp, if v.carry { 1u8 } else { 0u8 }, if v.zero { 1u8 } else { 0u8 }, if v.irq_disable { 1u8 } else { 0u8 }, if v.decimal { 1u8 } else { 0u8 }, if v.overflow { 1u8 } else { 0u8 }, if v.negative { 1u8 } else { 0u8 }]
}

/// The Cpu6502 stored at offset `b` of `s`.
pub open spec fn dec_cpu(s: Seq<u8>, b: int) -> Cpu6502 {
    Cpu6502 {
        a: dec_u8_at(s, b + 0),
        x: dec_u8_at(s, b + 1),
        y: dec_u8_at(s, b + 2),
        pc: dec_u16_at(s, b + 3),
        sp: dec_u8_at(s, b + 5),
        carry: dec_bool_at(s, b + 6),
        zero: dec_bool_at(s, b + 7),
        irq_disable: dec_bool_at(s, b + 8),
        decimal: dec_bool_at(s, b + 9),
        overflow: dec_bool_at(s, b + 10),
        negative: dec_bool_at(s, b + 11),
    }
}

fn put_cpu(out: &mut Vec<u8>, v: &Cpu6502)
    ensures
        final(out)@ == old(out)@ + enc_cpu(*v),
{
    put_u8(out, v.a);
    put_u8(out, v.x);
    put_u8(out, v.y);
    put_u16(out, v.pc);
    put_u8(out, v.sp);
    put_bool(out, v.carry);
    put_bool(out, v.zero);
    put_bool(out, v.irq_disable);
    put_bool(out, v.decimal);
    put_bool(out, v.overflow);
    put_bool(out, v.negative);
    assert(out@ =~= old(out)@ + enc_cpu(*v));
}

fn get_cpu(data: &[u8], b: usize) -> (r: Cpu6502)
    requires
        b + 12 <= data.len(),
    ensures
        r == dec_cpu(data@, b as int),
{
    Cpu6502 {
        a: get_u8(data, b + 0),
        x: get_u8(data, b + 1),
        y: get_u8(data, b + 2),
        pc: get_u16(data, b + 3),
        sp: get_u8(data, b + 5),
        carry: get_bool(data, b + 6),
        zero: get_bool(data, b + 7),
        irq_disable: get_bool(data, b + 8),
        decimal: get_bool(data, b + 9),
        overflow: get_bool(data, b + 10),
        negative: get_bool(data, b + 11),
    }
}

proof fn lemma_cpu_round_trip(v: Cpu6502, s: Seq<u8>, b: int)
    requires
        0 <= b,
        b + 12 <= s.len(),
        forall|k: int| 0 <= k < 12 ==> s[b + k] == #[trigger] enc_cpu(v)[k],
    ensures
        enc_cpu(v).len() == 12,
        dec_cpu(s, b) == v,
{
    let e = enc_cpu(v);
    assert(s[b + 0] == e[0]);
    assert(s[b + 1] == e[1]);
    assert(s[b + 2] == e[2]);
    assert(s[b + 3] == e[3]);
    assert(s[b + 4] == e[4]);
    assert(s[b + 5] == e[5]);
    assert(s[b + 6] == e[6]);
    assert(s[b + 7] == e[7]);
    assert(s[b + 8] == e[8]);
    assert(s[b + 9] == e[9]);
    assert(s[b + 10] == e[10]);
    assert(s[b + 11] == e[11]);
}

pub const PAD_LEN: usize = 3;

/// Bytes of a Pad: its fields in declaration order, little-endian.
pub open spec fn enc_pad(v: Pad) -> Seq<u8> {
    seq![v.buttons, v.shift, if v.strobe { 1u8 } else { 0u8 }]
}

/// The Pad stored at offset `b` of `s`.
pub open spec fn dec_pad(s: Seq<u8>, b: int) -> Pad {
    Pad {
        buttons: dec_u8_at(s, b + 0),
        shift: dec_u8_at(s, b + 1),
        strobe: dec_bool_at(s, b + 2),
    }
}

fn put_pad(out: &mut Vec<u8>, v: &Pad)
    ensures
        final(out)@ == old(out)@ + enc_pad(*v),
{
    put_u8(out, v.buttons);
    put_u8(out, v.shift);
    put_bool(out, v.strobe);
    assert(out@ =~= old(out)@ + enc_pad(*v));
}

fn get_pad(data: &[u8], b: usize) -> (r: Pad)
    requires
        b + 3 <= data.len(),
    ensures
        r == dec_pad(data@, b as int),
{
    Pad {
        buttons: get_u8(data, b + 0),
        shift: get_u8(data, b + 1),
        strobe: get_bool(data, b + 2),
    }
}

proof fn lemma_pad_round_trip(v: Pad, s: Seq<u8>, b: int)
    requires
        0 <= b,
        b + 3 <= s.len(),
        forall|k: int| 0 <= k < 3 ==> s[b + k] == #[trigger] enc_pad(v)[k],
    ensures
        enc_pad(v).len() == 3,
        dec_pad(s, b) == v,
{
    let e = enc_pad(v);
    assert(s[b + 0] == e[0]);
    assert(s[b + 1] == e[1]);
    assert(s[b + 2] == e[2]);
}

pub const PPU_REGISTERS_LEN: usize = 16;

/// Bytes of a PpuRegisters: its fields in declaration order, little-endian.
pub open spec fn enc_ppu_registers(v: PpuRegisters) -> Seq<u8> {
    seq![v.ctrl, v.mask, v.status, v.oam_addr, (v.v % 256) as u8, (v.v / 256) as u8, (v.t % 256) as u8, (v.t / 256) as u8, v.fine_x, if v.w { 1u8 } else { 0u8 }, v.read_buffer, (v.scanline % 256) as u8, (v.scanline / 256) as u8, (v.dot % 256) as u8, (v.dot / 256) as u8, if v.nmi { 1u8 } else { 0u8 }]
}

/// The PpuRegisters stored at offset `b` of `s`.
pub open spec fn dec_ppu_registers(s: Seq<u8>, b: int) -> PpuRegisters {
    PpuRegisters {
        ctrl: dec_u8_at(s, b + 0),
        mask: dec_u8_at(s, b + 1),
        status: dec_u8_at(s, b + 2),
        oam_addr: dec_u8_at(s, b + 3),
        v: dec_u16_at(s, b + 4),
        t: dec_u16_at(s, b + 6),
        fine_x: dec_u8_at(s, b + 8),
        w: dec_bool_at(s, b + 9),
        read_buffer: dec_u8_at(s, b + 10),
        scanline: dec_u16_at(s, b + 11),
        dot: dec_u16_at(s, b + 13),
        nmi: dec_bool_at(s, b + 15),
    }
}

fn put_ppu_registers(out: &mut Vec<u8>, v: &PpuRegisters)
    ensures
        final(out)@ == old(out)@ + enc_ppu_registers(*v),
{
    put_u8(out, v.ctrl);
    put_u8(out, v.mask);
    put_u8(out, v.status);
    put_u8(out, v.oam_addr);
    put_u16(out, v.v);
    put_u16(out, v.t);
    put_u8(out, v.fine_x);
    put_bool(out, v.w);
    put_u8(out, v.read_buffer);
    put_u16(out, v.scanline);
    put_u16(out, v.dot);
    put_bool(out, v.nmi);
    assert(out@ =~= old(out)@ + enc_ppu_registers(*v));
}

fn get_ppu_registers(data: &[u8], b: usize) -> (r: PpuRegisters)
    requires
        b + 16 <= data.len(),
    ensures
        r == dec_ppu_registers(data@, b as int),
{
    PpuRegisters {
        ctrl: get_u8(data, b + 0),
        mask: get_u8(data, b + 1),
        status: get_u8(data, b + 2),
        oam_addr: get_u8(data, b + 3),
        v: get_u16(data, b + 4),
        t: get_u16(data, b + 6),
        fine_x: get_u8(data, b + 8),
        w: get_bool(data, b + 9),
        read_buffer: get_u8(data, b + 10),
        scanline: get_u16(data, b + 11),
        dot: get_u16(data, b + 13),
        nmi: get_bool(data, b + 15),
    }
}

proof fn lemma_ppu_registers_round_trip(v: PpuRegisters, s: Seq<u8>, b: int)
    requires
        0 <= b,
        b + 16 <= s.len(),
        forall|k: int| 0 <= k < 16 ==> s[b + k] == #[trigger] enc_ppu_registers(v)[k],
    ensures
        enc_ppu_registers(v).len() == 16,
        dec_ppu_registers(s, b) == v,
{
    let e = enc_ppu_registers(v);
    assert(s[b + 0] == e[0]);
    assert(s[b + 1] == e[1]);
    assert(s[b + 2] == e[2]);
    assert(s[b + 3] == e[3]);
    assert(s[b + 4] == e[4]);
    assert(s[b + 5] == e[5]);
    assert(s[b + 6] == e[6]);
    assert(s[b + 7] == e[7]);
    assert(s[b + 8] == e[8]);
    assert(s[b + 9] == e[9]);
    assert(s[b + 10] == e[10]);
    assert(s[b + 11] == e[11]);
    assert(s[b + 12] == e[12]);
    assert(s[b + 13] == e[13]);
    assert(s[b + 14] == e[14]);
    assert(s[b + 15] == e[15]);
}


/// Why a save state was refused.
#[derive(Clone, Copy, Debug, PartialEq, Eq, Structural)]
pub enum StateError {
    /// The blob does not start with the save-state signature.
    BadMagic,
    /// The blob was written by another version of the format.
    UnsupportedVersion(u8),
    /// The blob is truncated, padded, or holds values no console can have.
    Corrupt,
    /// The console holds more cartridge or sample data than a state can record.
    TooLarge,
}

pub const STATE_VERSION: u8 = 1;
pub const RAM_LEN: usize = 2048;
pub const VRAM_LEN: usize = 4096;
pub const OAM_LEN: usize = 256;
pub const PALETTE_LEN: usize = 32;
pub const FRAME_LEN: usize = 245760;

/// Offsets of the groups of the fixed part.
pub const G2_AT: usize = 37;
pub const G3_AT: usize = 2085;
pub const G4_AT: usize = 2114;
pub const G5_AT: usize = 498018;
pub const G6_AT: usize = 498117;
/// Length of the fixed part; PRG, CHR and the sample queue follow it.
pub const FIXED_LEN: usize = 498131;

/// Everything a save state holds: the whole console but the output palette
/// table, which is fixed.
pub struct StateImage {
    pub cpu: Cpu6502,
    pub cycles: u64,
    pub frames: u64,
    pub last_stall: u32,
    pub ram: Seq<u8>,
    pub pad: Pad,
    pub dma: Option<u8>,
    pub regs: PpuRegisters,
    pub ppu_frames: u64,
    pub vram: Seq<u8>,
    pub oam: Seq<u8>,
    pub palette: Seq<u8>,
    pub back: Seq<u8>,
    pub front: Seq<u8>,
    pub pulse1: Pulse,
    pub pulse2: Pulse,
    pub triangle: Triangle,
    pub noise: Noise,
    pub dmc: Dmc,
    pub frame: FrameCounter,
    pub odd: bool,
    pub sample_phase: u32,
    pub chr_is_ram: bool,
    pub layout: Mirroring,
    pub prg: Seq<u8>,
    pub chr: Seq<u8>,
    pub audio: Seq<i16>,
}

/// The image of a console.
pub open spec fn image_of(n: &NES) -> StateImage {
    let m = match n.bus.board {
        Board::Nrom(m) => m,
    };
    StateImage {
        cpu: n.cpu,
        cycles: n.cycles,
        frames: n.frames,
        last_stall: n.last_stall,
        ram: n.bus.ram@,
        pad: n.bus.pad,
        dma: n.bus.dma_page,
        regs: registers_of(n.bus.ppu@),
        ppu_frames: n.bus.ppu@.frames,
        vram: n.bus.ppu@.vram,
        oam: n.bus.ppu@.oam,
        palette: n.bus.ppu@.palette,
        back: n.bus.ppu@.back,
        front: n.bus.ppu@.front,
        pulse1: n.bus.apu.pulse1,
        pulse2: n.bus.apu.pulse2,
        triangle: n.bus.apu.triangle,
        noise: n.bus.apu.noise,
        dmc: n.bus.apu.dmc,
        frame: n.bus.apu.frame,
        odd: n.bus.apu.odd,
        sample_phase: n.bus.apu.sample_phase,
        chr_is_ram: m.chr_writable(),
        layout: m.layout(),
        prg: m.prg(),
        chr: m.chr(),
        audio: n.bus.apu.audio_buffer@,
    }
}

/// The values a running console can hold.
pub open spec fn valid_image(m: StateImage) -> bool {
    &&& m.ram.len() == 2048
    &&& m.vram.len() == 4096
    &&& m.oam.len() == 256
    &&& m.palette.len() == 32
    &&& m.back.len() == 245760
    &&& m.front.len() == 245760
    &&& m.regs.scanline <= 261
    &&& m.regs.dot <= 340
    &&& m.pulse1.inv()
    &&& m.pulse2.inv()
    &&& m.triangle.inv()
    &&& m.noise.inv()
    &&& m.dmc.inv()
    &&& m.frame.inv()
    &&& m.sample_phase < crate::apu::CPU_HZ
    &&& m.prg.len() < 0x1000_0000
    &&& m.chr.len() < 0x1000_0000
    &&& m.audio.len() < 0x1000_0000
}

pub open spec fn layout_code(l: Mirroring) -> u8 {
    match l {
        Mirroring::Horizontal => 0,
        Mirroring::Vertical => 1,
        Mirroring::FourScreen => 2,
    }
}

pub open spec fn layout_of_code(c: u8) -> Option<Mirroring> {
    if c == 0 {
        Some(Mirroring::Horizontal)
    } else if c == 1 {
        Some(Mirroring::Vertical)
    } else if c == 2 {
        Some(Mirroring::FourScreen)
    } else {
        None
    }
}

pub open spec fn sample_word(v: i16) -> int {
    if v < 0 {
        v as int + 65536
    } else {
        v as int
    }
}

/// Two little-endian bytes per sample, two's complement.
pub open spec fn enc_audio(a: Seq<i16>) -> Seq<u8> {
    Seq::new(
        2 * a.len(),
        |k: int|
            if k % 2 == 0 {
                (sample_word(a[k / 2]) % 256) as u8
            } else {
                (sample_word(a[k / 2]) / 256) as u8
            },
    )
}

pub open spec fn dec_i16_at(s: Seq<u8>, i: int) -> i16 {
    let u = s[i] as int + 256 * s[i + 1] as int;
    (if u >= 32768 {
        u - 65536
    } else {
        u
    }) as i16
}

pub open spec fn dec_audio(s: Seq<u8>, b: int, n: int) -> Seq<i16> {
    Seq::new(n as nat, |j: int| dec_i16_at(s, b + 2 * j))
}

pub open spec fn g1(m: StateImage) -> Seq<u8> {
    seq![0x52u8, 0x42, 0x53, 0x54, 1u8] + enc_cpu(m.cpu) + enc_u64(m.cycles) + enc_u64(m.frames)
        + enc_u32(m.last_stall)
}

pub open spec fn g3(m: StateImage) -> Seq<u8> {
    enc_pad(m.pad) + enc_bool(m.dma is Some) + enc_u8(
        match m.dma {
            Some(p) => p,
            None => 0,
        },
    ) + enc_ppu_registers(m.regs) + enc_u64(m.ppu_frames)
}

pub open spec fn g4(m: StateImage) -> Seq<u8> {
    m.vram + m.oam + m.palette + m.back + m.front
}

pub open spec fn g5(m: StateImage) -> Seq<u8> {
    enc_pulse(m.pulse1) + enc_pulse(m.pulse2) + enc_triangle(m.triangle) + enc_noise(m.noise)
        + enc_dmc(m.dmc) + enc_frame_counter(m.frame) + enc_bool(m.odd) + enc_u32(m.sample_phase)
}

pub open spec fn g6(m: StateImage) -> Seq<u8> {
    enc_bool(m.chr_is_ram) + enc_u8(layout_code(m.layout)) + enc_u32(m.prg.len() as u32) + enc_u32(
        m.chr.len() as u32,
    ) + enc_u32(m.audio.len() as u32)
}

/// The save-state bytes of an image: signature "RBST", version, the fixed
/// part, then PRG, CHR and the queued samples.
pub open spec fn enc_image(m: StateImage) -> Seq<u8> {
    g1(m) + m.ram + g3(m) + g4(m) + g5(m) + g6(m) + m.prg + m.chr + enc_audio(m.audio)
}

/// The image whose fixed part starts at 0 of `s` (unchecked).
pub open spec fn dec_fields(s: Seq<u8>) -> StateImage {
    let prg_len = dec_u32_at(s, 498119) as int;
    let chr_len = dec_u32_at(s, 498123) as int;
    let audio_len = dec_u32_at(s, 498127) as int;
    let tail = 498131;
    StateImage {
        cpu: dec_cpu(s, 5),
        cycles: dec_u64_at(s, 17),
        frames: dec_u64_at(s, 25),
        last_stall: dec_u32_at(s, 33),
        ram: s.subrange(37, 2085),
        pad: dec_pad(s, 2085),
        dma: if dec_bool_at(s, 2088) {
            Some(dec_u8_at(s, 2089))
        } else {
            None
        },
        regs: dec_ppu_registers(s, 2090),
        ppu_frames: dec_u64_at(s, 2106),
        vram: s.subrange(2114, 6210),
        oam: s.subrange(6210, 6466),
        palette: s.subrange(6466, 6498),
        back: s.subrange(6498, 252258),
        front: s.subrange(252258, 498018),
        pulse1: dec_pulse(s, 498018),
        pulse2: dec_pulse(s, 498039),
        triangle: dec_triangle(s, 498060),
        noise: dec_noise(s, 498071),
        dmc: dec_dmc(s, 498085),
        frame: dec_frame_counter(s, 498105),
        odd: dec_bool_at(s, 498112),
        sample_phase: dec_u32_at(s, 498113),
        chr_is_ram: dec_bool_at(s, 498117),
        layout: match layout_of_code(dec_u8_at(s, 498118)) {
            Some(l) => l,
            None => Mirroring::Horizontal,
        },
        prg: s.subrange(tail, tail + prg_len),
        chr: s.subrange(tail + prg_len, tail + prg_len + chr_len),
        audio: dec_audio(s, tail + prg_len + chr_len, audio_len),
    }
}

/// The image a save state holds, or why it is refused.
pub open spec fn dec_image(s: Seq<u8>) -> Result<StateImage, StateError> {
    if s.len() < 5 || s[0] != 0x52 || s[1] != 0x42 || s[2] != 0x53 || s[3] != 0x54 {
        Err(StateError::BadMagic)
    } else if s[4] != 1 {
        Err(StateError::UnsupportedVersion(s[4]))
    } else if s.len() < 498131 {
        Err(StateError::Corrupt)
    } else if s.len() != 498131 + dec_u32_at(s, 498119) as int + dec_u32_at(s, 498123) as int + 2
        * dec_u32_at(s, 498127) as int || layout_of_code(dec_u8_at(s, 498118)) is None || !valid_image(
        dec_fields(s),
    ) {
        Err(StateError::Corrupt)
    } else {
        Ok(dec_fields(s))
    }
}

/// Restoring a save state gives back exactly the image that was saved.
pub proof fn lemma_state_round_trip(m: StateImage)
    requires
        valid_image(m),
    ensures
        dec_image(enc_image(m)) == Ok::<StateImage, StateError>(m),
{
    let s = enc_image(m);
    lemma_layout(m);
    lemma_fixed_groups(m);
    lemma_g1(m, s);
    lemma_g3(m, s);
    lemma_g5(m, s);
    lemma_g6(m, s);
    lemma_bulk(m);
    lemma_audio(m);
    let d = dec_fields(s);
    assert(d == m);
}

/// Lengths of the pieces of an image's encoding.
proof fn lemma_layout(m: StateImage)
    requires
        valid_image(m),
    ensures
        g1(m).len() == 37,
        g3(m).len() == 29,
        g4(m).len() == 495904,
        g5(m).len() == 99,
        g6(m).len() == 14,
        (g1(m) + m.ram + g3(m) + g4(m) + g5(m) + g6(m)).len() == 498131,
        enc_image(m).len() == 498131 + m.prg.len() + m.chr.len() + 2 * m.audio.len(),
{
    lemma_pulse_len(m.pulse1);
    lemma_pulse_len(m.pulse2);
}

#[verifier::rlimit(60)]
proof fn lemma_fixed_groups(m: StateImage)
    requires
        valid_image(m),
    ensures
        forall|k: int| 0 <= k < 37 ==> enc_image(m)[k] == #[trigger] g1(m)[k],
        forall|k: int| 0 <= k < 29 ==> enc_image(m)[2085 + k] == #[trigger] g3(m)[k],
        forall|k: int| 0 <= k < 99 ==> enc_image(m)[498018 + k] == #[trigger] g5(m)[k],
        forall|k: int| 0 <= k < 14 ==> enc_image(m)[498117 + k] == #[trigger] g6(m)[k],
{
    lemma_layout(m);
    let f = g1(m) + m.ram + g3(m) + g4(m) + g5(m) + g6(m);
    let s = enc_image(m);
    assert(s =~= f + (m.prg + m.chr + enc_audio(m.audio)));
    assert forall|k: int| 0 <= k < 498131 implies s[k] == #[trigger] f[k] by {}
    let f5 = g1(m) + m.ram + g3(m) + g4(m) + g5(m);
    let f3 = g1(m) + m.ram + g3(m);
    assert forall|k: int| 0 <= k < 14 implies s[498117 + k] == #[trigger] g6(m)[k] by {
        assert(s[498117 + k] == f[498117 + k]);
    }
    assert forall|k: int| 0 <= k < 99 implies s[498018 + k] == #[trigger] g5(m)[k] by {
        assert(s[498018 + k] == f[498018 + k]);
        assert(f[498018 + k] == f5[498018 + k]);
    }
    assert forall|k: int| 0 <= k < 29 implies s[2085 + k] == #[trigger] g3(m)[k] by {
        assert(s[2085 + k] == f[2085 + k]);
        assert(f[2085 + k] == f5[2085 + k]);
        assert(f5[2085 + k] == f3[2085 + k]);
    }
    assert forall|k: int| 0 <= k < 37 implies s[k] == #[trigger] g1(m)[k] by {
        assert(s[k] == f[k]);
        assert(f[k] == f5[k]);
        assert(f5[k] == f3[k]);
    }
}

/// Where the memory block lands in an image's encoding.
#[verifier::rlimit(100)]
proof fn lemma_g4_at(m: StateImage)
    requires
        valid_image(m),
    ensures
        forall|k: int| 0 <= k < 495904 ==> enc_image(m)[2114 + k] == #[trigger] g4(m)[k],
        forall|k: int| 0 <= k < 2048 ==> enc_image(m)[37 + k] == #[trigger] m.ram[k],
{
    lemma_layout(m);
    let s = enc_image(m);
    let f2 = g1(m) + m.ram;
    let f3 = f2 + g3(m);
    let f4 = f3 + g4(m);
    let f5 = f4 + g5(m);
    let f6 = f5 + g6(m);
    let f7 = f6 + m.prg;
    let f8 = f7 + m.chr;
    assert(s == f8 + enc_audio(m.audio));
    assert forall|k: int| 0 <= k < 2048 implies s[37 + k] == #[trigger] m.ram[k] by {
        let i = 37 + k;
        assert(s[i] == f8[i]);
        assert(f8[i] == f7[i]);
        assert(f7[i] == f6[i]);
        assert(f6[i] == f5[i]);
        assert(f5[i] == f4[i]);
        assert(f4[i] == f3[i]);
        assert(f3[i] == f2[i]);
    }
    assert forall|k: int| 0 <= k < 495904 implies s[2114 + k] == #[trigger] g4(m)[k] by {
        let i = 2114 + k;
        assert(s[i] == f8[i]);
        assert(f8[i] == f7[i]);
        assert(f7[i] == f6[i]);
        assert(f6[i] == f5[i]);
        assert(f5[i] == f4[i]);
    }
}

/// The memories come back unchanged.
#[verifier::rlimit(60)]
proof fn lemma_bulk(m: StateImage)
    requires
        valid_image(m),
    ensures
        ({
            let s = enc_image(m);
            let d = dec_fields(s);
            &&& d.ram == m.ram
            &&& d.vram == m.vram
            &&& d.oam == m.oam
            &&& d.palette == m.palette
            &&& d.back == m.back
            &&& d.front == m.front
        }),
{
    lemma_layout(m);
    lemma_g4_at(m);
    let s = enc_image(m);
    let d = dec_fields(s);
    let g = g4(m);
    assert(d.ram =~= m.ram);
    assert(d.vram =~= m.vram) by {
        assert forall|k: int| 0 <= k < 4096 implies d.vram[k] == m.vram[k] by {
            assert(s[2114 + k] == g[k]);
        }
    }
    assert(d.oam =~= m.oam) by {
        assert forall|k: int| 0 <= k < 256 implies d.oam[k] == m.oam[k] by {
            assert(s[2114 + 4096 + k] == g[4096 + k]);
        }
    }
    assert(d.palette =~= m.palette) by {
        assert forall|k: int| 0 <= k < 32 implies d.palette[k] == m.palette[k] by {
            assert(s[2114 + 4352 + k] == g[4352 + k]);
        }
    }
    assert(d.back =~= m.back) by {
        assert forall|k: int| 0 <= k < 245760 implies d.back[k] == m.back[k] by {
            assert(s[2114 + 4384 + k] == g[4384 + k]);
        }
    }
    assert(d.front =~= m.front) by {
        assert forall|k: int| 0 <= k < 245760 implies d.front[k] == m.front[k] by {
            assert(s[2114 + 250144 + k] == g[250144 + k]);
        }
    }
}

/// The cartridge images and the sample queue come back unchanged.
#[verifier::rlimit(60)]
proof fn lemma_audio(m: StateImage)
    requires
        valid_image(m),
    ensures
        ({
            let s = enc_image(m);
            let prg_len = m.prg.len() as int;
            let chr_len = m.chr.len() as int;
            &&& s.subrange(498131, 498131 + prg_len) == m.prg
            &&& s.subrange(498131 + prg_len, 498131 + prg_len + chr_len) == m.chr
            &&& dec_audio(s, 498131 + prg_len + chr_len, m.audio.len() as int) == m.audio
        }),
{
    lemma_layout(m);
    let s = enc_image(m);
    let f = g1(m) + m.ram + g3(m) + g4(m) + g5(m) + g6(m);
    let p = m.prg.len() as int;
    let c = m.chr.len() as int;
    assert(s =~= f + m.prg + m.chr + enc_audio(m.audio));
    assert(s.subrange(498131, 498131 + p) =~= m.prg);
    assert(s.subrange(498131 + p, 498131 + p + c) =~= m.chr);
    let b = 498131 + p + c;
    let da = dec_audio(s, b, m.audio.len() as int);
    assert forall|j: int| 0 <= j < m.audio.len() implies da[j] == m.audio[j] by {
        assert(s[b + 2 * j] == enc_audio(m.audio)[2 * j]);
        assert(s[b + 2 * j + 1] == enc_audio(m.audio)[2 * j + 1]);
        assert((2 * j) / 2 == j && (2 * j + 1) / 2 == j && (2 * j) % 2 == 0 && (2 * j + 1) % 2 == 1);
    }
    assert(da =~= m.audio);
}

proof fn lemma_pulse_len(p: Pulse)
    ensures
        enc_pulse(p).len() == 21,
{
}

proof fn lemma_g1(m: StateImage, s: Seq<u8>)
    requires
        s.len() >= 37,
        forall|k: int| 0 <= k < 37 ==> s[k] == #[trigger] g1(m)[k],
    ensures
        s[0] == 0x52 && s[1] == 0x42 && s[2] == 0x53 && s[3] == 0x54 && s[4] == 1,
        dec_cpu(s, 5) == m.cpu,
        dec_u64_at(s, 17) == m.cycles,
        dec_u64_at(s, 25) == m.frames,
        dec_u32_at(s, 33) == m.last_stall,
{
    let e = g1(m);
    assert(s[0] == e[0] && s[1] == e[1] && s[2] == e[2] && s[3] == e[3] && s[4] == e[4]);
    assert forall|k: int| 0 <= k < 12 implies s[5 + k] == #[trigger] enc_cpu(m.cpu)[k] by {
        assert(s[5 + k] == e[5 + k]);
    }
    lemma_cpu_round_trip(m.cpu, s, 5);
    assert forall|k: int| 0 <= k < 8 implies s[17 + k] == #[trigger] e[17 + k] by {}
    assert(e.subrange(17, 25) =~= enc_u64(m.cycles));
    lemma_u64_slice(m.cycles, s, 17, e, 17);
    assert forall|k: int| 0 <= k < 8 implies s[25 + k] == #[trigger] e[25 + k] by {}
    assert(e.subrange(25, 33) =~= enc_u64(m.frames));
    lemma_u64_slice(m.frames, s, 25, e, 25);
    assert forall|k: int| 0 <= k < 4 implies s[33 + k] == #[trigger] enc_u32(m.last_stall)[k] by {
        assert(s[33 + k] == e[33 + k]);
    }
    lemma_u32_slice(m.last_stall, s, 33);
}

proof fn lemma_u64_slice(v: u64, s: Seq<u8>, b: int, e: Seq<u8>, o: int)
    requires
        0 <= b,
        b + 8 <= s.len(),
        0 <= o,
        o + 8 <= e.len(),
        forall|k: int| 0 <= k < 8 ==> s[b + k] == #[trigger] e[o + k],
        e.subrange(o, o + 8) == enc_u64(v),
    ensures
        dec_u64_at(s, b) == v,
{
    assert forall|k: int| 0 <= k < 8 implies s[b + k] == enc_u64(v)[k] by {
        assert(s[b + k] == e[o + k]);
        assert(e.subrange(o, o + 8)[k] == e[o + k]);
    }
    assert(s.subrange(0, b) + enc_u64(v) + s.subrange(b + 8, s.len() as int) =~= s);
    lemma_u64_at(v, s.subrange(0, b), s.subrange(b + 8, s.len() as int));
}

proof fn lemma_u32_slice(v: u32, s: Seq<u8>, b: int)
    requires
        0 <= b,
        b + 4 <= s.len(),
        forall|k: int| 0 <= k < 4 ==> s[b + k] == #[trigger] enc_u32(v)[k],
    ensures
        dec_u32_at(s, b) == v,
{
    assert(s.subrange(0, b) + enc_u32(v) + s.subrange(b + 4, s.len() as int) =~= s);
    lemma_u32_at(v, s.subrange(0, b), s.subrange(b + 4, s.len() as int));
}

proof fn lemma_g3(m: StateImage, s: Seq<u8>)
    requires
        s.len() >= 2114,
        forall|k: int| 0 <= k < 29 ==> s[2085 + k] == #[trigger] g3(m)[k],
    ensures
        dec_pad(s, 2085) == m.pad,
        (if dec_bool_at(s, 2088) {
            Some(dec_u8_at(s, 2089))
        } else {
            None
        }) == m.dma,
        dec_ppu_registers(s, 2090) == m.regs,
        dec_u64_at(s, 2106) == m.ppu_frames,
{
    let e = g3(m);
    assert forall|k: int| 0 <= k < 3 implies s[2085 + k] == #[trigger] enc_pad(m.pad)[k] by {
        assert(s[2085 + k] == e[k]);
    }
    lemma_pad_round_trip(m.pad, s, 2085);
    assert(s[2088] == e[3] && s[2089] == e[4]);
    assert forall|k: int| 0 <= k < 16 implies s[2090 + k] == #[trigger] enc_ppu_registers(m.regs)[k] by {
        assert(s[2090 + k] == e[5 + k]);
    }
    lemma_ppu_registers_round_trip(m.regs, s, 2090);
    assert forall|k: int| 0 <= k < 8 implies s[2106 + k] == #[trigger] e[21 + k] by {}
    assert(e.subrange(21, 29) =~= enc_u64(m.ppu_frames));
    lemma_u64_slice(m.ppu_frames, s, 2106, e, 21);
}

proof fn lemma_g5(m: StateImage, s: Seq<u8>)
    requires
        s.len() >= 498131,
        forall|k: int| 0 <= k < 99 ==> s[498018 + k] == #[trigger] g5(m)[k],
    ensures
        dec_pulse(s, 498018) == m.pulse1,
        dec_pulse(s, 498039) == m.pulse2,
        dec_triangle(s, 498060) == m.triangle,
        dec_noise(s, 498071) == m.noise,
        dec_dmc(s, 498085) == m.dmc,
        dec_frame_counter(s, 498105) == m.frame,
        dec_bool_at(s, 498112) == m.odd,
        dec_u32_at(s, 498113) == m.sample_phase,
{
    let e = g5(m);
    lemma_pulse_len(m.pulse1);
    lemma_pulse_len(m.pulse2);
    assert forall|k: int| 0 <= k < 21 implies s[498018 + k] == #[trigger] enc_pulse(m.pulse1)[k] by {
        assert(s[498018 + k] == e[k]);
    }
    lemma_pulse_round_trip(m.pulse1, s, 498018);
    assert forall|k: int| 0 <= k < 21 implies s[498039 + k] == #[trigger] enc_pulse(m.pulse2)[k] by {
        assert(s[498039 + k] == e[21 + k]);
    }
    lemma_pulse_round_trip(m.pulse2, s, 498039);
    assert forall|k: int| 0 <= k < 11 implies s[498060 + k] == #[trigger] enc_triangle(m.triangle)[k] by {
        assert(s[498060 + k] == e[42 + k]);
    }
    lemma_triangle_round_trip(m.triangle, s, 498060);
    assert forall|k: int| 0 <= k < 14 implies s[498071 + k] == #[trigger] enc_noise(m.noise)[k] by {
        assert(s[498071 + k] == e[53 + k]);
    }
    lemma_noise_round_trip(m.noise, s, 498071);
    assert forall|k: int| 0 <= k < 20 implies s[498085 + k] == #[trigger] enc_dmc(m.dmc)[k] by {
        assert(s[498085 + k] == e[67 + k]);
    }
    lemma_dmc_round_trip(m.dmc, s, 498085);
    assert forall|k: int| 0 <= k < 7 implies s[498105 + k] == #[trigger] enc_frame_counter(m.frame)[k] by {
        assert(s[498105 + k] == e[87 + k]);
    }
    lemma_frame_counter_round_trip(m.frame, s, 498105);
    assert(s[498112] == e[94]);
    assert forall|k: int| 0 <= k < 4 implies s[498113 + k] == #[trigger] enc_u32(m.sample_phase)[k] by {
        assert(s[498113 + k] == e[95 + k]);
    }
    lemma_u32_slice(m.sample_phase, s, 498113);
}

proof fn lemma_g6(m: StateImage, s: Seq<u8>)
    requires
        s.len() >= 498131,
        valid_image(m),
        forall|k: int| 0 <= k < 14 ==> s[498117 + k] == #[trigger] g6(m)[k],
    ensures
        dec_bool_at(s, 498117) == m.chr_is_ram,
        layout_of_code(dec_u8_at(s, 498118)) == Some(m.layout),
        dec_u32_at(s, 498119) == m.prg.len(),
        dec_u32_at(s, 498123) == m.chr.len(),
        dec_u32_at(s, 498127) == m.audio.len(),
{
    let e = g6(m);
    assert(s[498117] == e[0] && s[498118] == e[1]);
    assert forall|k: int| 0 <= k < 4 implies s[498119 + k] == #[trigger] enc_u32(m.prg.len() as u32)[k] by {
        assert(s[498119 + k] == e[2 + k]);
    }
    lemma_u32_slice(m.prg.len() as u32, s, 498119);
    assert forall|k: int| 0 <= k < 4 implies s[498123 + k] == #[trigger] enc_u32(m.chr.len() as u32)[k] by {
        assert(s[498123 + k] == e[6 + k]);
    }
    lemma_u32_slice(m.chr.len() as u32, s, 498123);
    assert forall|k: int| 0 <= k < 4 implies s[498127 + k] == #[trigger] enc_u32(m.audio.len() as u32)[k] by {
        assert(s[498127 + k] == e[10 + k]);
    }
    lemma_u32_slice(m.audio.len() as u32, s, 498127);
}


fn put_bytes(out: &mut Vec<u8>, v: &Vec<u8>)
    ensures
        final(out)@ == old(out)@ + v@,
{
    let mut i: usize = 0;
    while i < v.len()
        invariant
            i <= v@.len(),
            out@ == old(out)@ + v@.subrange(0, i as int),
        decreases v@.len() - i,
    {
        out.push(v[i]);
        i = i + 1;
        assert(out@ =~= old(out)@ + v@.subrange(0, i as int));
    }
    assert(v@.subrange(0, v@.len() as int) =~= v@);
}

fn sample_bytes(v: i16) -> (r: (u8, u8))
    ensures
        r.0 == (sample_word(v) % 256) as u8,
        r.1 == (sample_word(v) / 256) as u8,
{
    let w: u32 = if v < 0 {
        (v as i32 + 65536) as u32
    } else {
        v as u32
    };
    ((w % 256) as u8, (w / 256) as u8)
}

fn put_audio(out: &mut Vec<u8>, a: &Vec<i16>)
    ensures
        final(out)@ == old(out)@ + enc_audio(a@),
{
    let mut i: usize = 0;
    while i < a.len()
        invariant
            i <= a@.len(),
            out@ == old(out)@ + enc_audio(a@.subrange(0, i as int)),
        decreases a@.len() - i,
    {
        let (lo, hi) = sample_bytes(a[i]);
        let ghost prev = out@;
        out.push(lo);
        out.push(hi);
        i = i + 1;
        assert(enc_audio(a@.subrange(0, i as int)) =~= enc_audio(a@.subrange(0, i - 1)) + seq![lo, hi]) by {
            let e = enc_audio(a@.subrange(0, i as int));
            assert forall|k: int| 0 <= k < 2 * i implies e[k] == (enc_audio(a@.subrange(0, i - 1)) + seq![lo, hi])[k] by {
                if k >= 2 * (i - 1) {
                    assert(k / 2 == i - 1);
                }
            }
        }
        assert(out@ =~= old(out)@ + enc_audio(a@.subrange(0, i as int)));
    }
    assert(a@.subrange(0, a@.len() as int) =~= a@);
}

fn get_i16(data: &[u8], i: usize) -> (r: i16)
    requires
        i + 2 <= data.len(),
    ensures
        r == dec_i16_at(data@, i as int),
{
    let u: u32 = data[i] as u32 + 256 * data[i + 1] as u32;
    if u >= 32768 {
        (u as i32 - 65536) as i16
    } else {
        u as i16
    }
}

fn get_audio(data: &[u8], b: usize, n: usize) -> (r: Vec<i16>)
    requires
        b + 2 * n <= data.len(),
    ensures
        r@ == dec_audio(data@, b as int, n as int),
{
    let mut r: Vec<i16> = Vec::new();
    let mut j: usize = 0;
    while j < n
        invariant
            j <= n,
            b + 2 * n <= data.len(),
            r@ == dec_audio(data@, b as int, n as int).subrange(0, j as int),
        decreases n - j,
    {
        r.push(get_i16(data, b + 2 * j));
        j = j + 1;
        assert(r@ =~= dec_audio(data@, b as int, n as int).subrange(0, j as int));
    }
    assert(r@ =~= dec_audio(data@, b as int, n as int));
    r
}

fn envelope_ok(e: &Envelope) -> (r: bool)
    ensures
        r == e.inv(),
{
    e.volume < 16 && e.decay < 16 && e.divider < 16
}

fn pulse_ok(p: &Pulse) -> (r: bool)
    ensures
        r == p.inv(),
{
    envelope_ok(&p.env) && p.duty < 4 && p.sweep_period < 8 && p.sweep_shift < 8 && p.sweep_divider < 8
        && p.timer_period <= 0x7FF && p.seq < 8
}

fn image_ok(
    regs: &PpuRegisters,
    apu: &APU,
    prg_len: usize,
    chr_len: usize,
) -> (r: bool)
    ensures
        r == (regs.scanline <= 261 && regs.dot <= 340 && apu.pulse1.inv() && apu.pulse2.inv()
            && apu.triangle.inv() && apu.noise.inv() && apu.dmc.inv() && apu.frame.inv()
            && apu.sample_phase < crate::apu::CPU_HZ && prg_len < 0x1000_0000 && chr_len < 0x1000_0000
            && apu.audio_buffer@.len() < 0x1000_0000),
{
    let t = &apu.triangle;
    let d = &apu.dmc;
    let f = &apu.frame;
    regs.scanline <= 261 && regs.dot <= 340 && pulse_ok(&apu.pulse1) && pulse_ok(&apu.pulse2)
        && t.seq < 32 && t.timer_period <= 0x7FF && t.linear_reload_value < 128 && t.linear < 128
        && envelope_ok(&apu.noise.env) && apu.noise.period_index < 16 && d.rate_index < 16
        && d.level < 128 && 1 <= d.bits && d.bits <= 8 && f.cycle < (if f.five_step {
        37282u32
    } else {
        29830u32
    }) && apu.sample_phase < crate::apu::CPU_HZ && prg_len < 0x1000_0000 && chr_len < 0x1000_0000
        && apu.audio_buffer.len() < 0x1000_0000
}

fn layout_byte(l: Mirroring) -> (r: u8)
    ensures
        r == layout_code(l),
{
    match l {
        Mirroring::Horizontal => 0,
        Mirroring::Vertical => 1,
        Mirroring::FourScreen => 2,
    }
}

/// Whether the console's cartridge and sample queue are small enough to be
/// recorded.
pub open spec fn fits_state(n: &NES) -> bool {
    image_of(n).prg.len() < 0x1000_0000 && image_of(n).chr.len() < 0x1000_0000
        && image_of(n).audio.len() < 0x1000_0000
}

/// The save-state bytes of a console.
pub fn encode_state(n: &NES) -> (r: Vec<u8>)
    requires
        n.wf(),
        fits_state(n),
    ensures
        r@ == enc_image(image_of(n)),
        valid_image(image_of(n)),
{
    let ghost m = image_of(n);
    let mut a: Vec<u8> = Vec::new();
    a.push(0x52);
    a.push(0x42);
    a.push(0x53);
    a.push(0x54);
    a.push(STATE_VERSION);
    assert(a@ =~= seq![0x52u8, 0x42, 0x53, 0x54, 1u8]);
    put_cpu(&mut a, &n.cpu);
    put_u64(&mut a, n.cycles);
    put_u64(&mut a, n.frames);
    put_u32(&mut a, n.last_stall);
    assert(a@ =~= g1(m));
    put_bytes(&mut a, &n.bus.ram);
    let mut b: Vec<u8> = Vec::new();
    put_pad(&mut b, &n.bus.pad);
    let (has_dma, dma) = match n.bus.dma_page {
        Some(p) => (true, p),
        None => (false, 0u8),
    };
    put_bool(&mut b, has_dma);
    put_u8(&mut b, dma);
    put_ppu_registers(&mut b, &n.bus.ppu.registers());
    put_u64(&mut b, n.bus.ppu.frame_count());
    assert(b@ =~= g3(m));
    a.append(&mut b);
    let (vram, oam, palette, back, front) = n.bus.ppu.memories();
    let mut c: Vec<u8> = Vec::new();
    put_bytes(&mut c, vram);
    put_bytes(&mut c, oam);
    put_bytes(&mut c, palette);
    put_bytes(&mut c, back);
    put_bytes(&mut c, front);
    assert(c@ =~= g4(m));
    a.append(&mut c);
    let apu = &n.bus.apu;
    let mut d: Vec<u8> = Vec::new();
    put_pulse(&mut d, &apu.pulse1);
    put_pulse(&mut d, &apu.pulse2);
    put_triangle(&mut d, &apu.triangle);
    put_noise(&mut d, &apu.noise);
    put_dmc(&mut d, &apu.dmc);
    put_frame_counter(&mut d, &apu.frame);
    put_bool(&mut d, apu.odd);
    put_u32(&mut d, apu.sample_phase);
    assert(d@ =~= g5(m));
    a.append(&mut d);
    let (prg, chr, chr_ram, layout) = match &n.bus.board {
        Board::Nrom(mp) => mp.parts(),
    };
    let mut e: Vec<u8> = Vec::new();
    put_bool(&mut e, chr_ram);
    put_u8(&mut e, layout_byte(layout));
    put_u32(&mut e, prg.len() as u32);
    put_u32(&mut e, chr.len() as u32);
    put_u32(&mut e, apu.audio_buffer.len() as u32);
    assert(e@ =~= g6(m));
    a.append(&mut e);
    put_bytes(&mut a, prg);
    put_bytes(&mut a, chr);
    put_audio(&mut a, &apu.audio_buffer);
    a
}

/// The console a save state describes, or why it is refused.
pub fn decode_state(data: &[u8]) -> (r: Result<NES, StateError>)
    ensures
        match r {
            Ok(n) => dec_image(data@) == Ok::<StateImage, StateError>(image_of(&n)) && n.wf(),
            Err(e) => dec_image(data@) == Err::<StateImage, StateError>(e),
        },
{
    if data.len() < 5 || data[0] != 0x52 || data[1] != 0x42 || data[2] != 0x53 || data[3] != 0x54 {
        return Err(StateError::BadMagic);
    }
    if data[4] != STATE_VERSION {
        return Err(StateError::UnsupportedVersion(data[4]));
    }
    if data.len() < FIXED_LEN {
        return Err(StateError::Corrupt);
    }
    let prg_len = get_u32(data, 498119) as u64;
    let chr_len = get_u32(data, 498123) as u64;
    let audio_len = get_u32(data, 498127) as u64;
    if data.len() as u64 != FIXED_LEN as u64 + prg_len + chr_len + 2 * audio_len {
        return Err(StateError::Corrupt);
    }
    let layout = match get_u8(data, 498118) {
        0 => Mirroring::Horizontal,
        1 => Mirroring::Vertical,
        2 => Mirroring::FourScreen,
        _ => {
            return Err(StateError::Corrupt);
        },
    };
    let prg_len = prg_len as usize;
    let chr_len = chr_len as usize;
    let audio_len = audio_len as usize;
    let regs = get_ppu_registers(data, 2090);
    let apu = APU {
        pulse1: get_pulse(data, 498018),
        pulse2: get_pulse(data, 498039),
        triangle: get_triangle(data, 498060),
        noise: get_noise(data, 498071),
        dmc: get_dmc(data, 498085),
        frame: get_frame_counter(data, 498105),
        odd: get_bool(data, 498112),
        sample_phase: get_u32(data, 498113),
        audio_buffer: get_audio(data, FIXED_LEN + prg_len + chr_len, audio_len),
        clocks: 0,
    };
    if !image_ok(&regs, &apu, prg_len, chr_len) {
        return Err(StateError::Corrupt);
    }
    let prg = copy_range(data, FIXED_LEN, prg_len);
    let chr = copy_range(data, FIXED_LEN + prg_len, chr_len);
    let board = Board::Nrom(Mapper0::from_parts(prg, chr, get_bool(data, 498117), layout));
    let ppu = PPU::from_parts(
        regs,
        get_u64(data, 2106),
        copy_range(data, 2114, VRAM_LEN),
        copy_range(data, 6210, OAM_LEN),
        copy_range(data, 6466, PALETTE_LEN),
        copy_range(data, 6498, FRAME_LEN),
        copy_range(data, 252258, FRAME_LEN),
    );
    let dma_page = if get_bool(data, 2088) {
        Some(get_u8(data, 2089))
    } else {
        None
    };
    let bus = Bus { ram: copy_range(data, 37, RAM_LEN), board, ppu, apu, pad: get_pad(data, 2085), dma_page };
    let n = NES {
        cpu: get_cpu(data, 5),
        bus,
        cycles: get_u64(data, 17),
        frames: get_u64(data, 25),
        last_stall: get_u32(data, 33),
    };
    assert(image_of(&n) == dec_fields(data@));
    Ok(n)
}

/// A console whose image is valid keeps it through a save and a restore.
pub proof fn lemma_save_then_load(n: &NES)
    requires
        n.wf(),
        fits_state(n),
    ensures
        dec_image(enc_image(image_of(n))) == Ok::<StateImage, StateError>(image_of(n)),
{
    lemma_state_round_trip(image_of(n));
}


impl NES {
    /// Whether the console's cartridge and sample queue fit in a save state.
    pub fn can_save(&self) -> (r: bool)
        ensures
            r == fits_state(self),
    {
        let (prg, chr, _, _) = match &self.bus.board {
            Board::Nrom(m) => m.parts(),
        };
        prg.len() < 0x1000_0000 && chr.len() < 0x1000_0000 && self.bus.apu.audio_buffer.len() < 0x1000_0000
    }

    /// The console's save state.
    pub fn save_state(&self) -> (r: Result<Vec<u8>, StateError>)
        requires
            self.wf(),
        ensures
            match r {
                Ok(b) => fits_state(self) && b@ == enc_image(image_of(self)),
                Err(e) => !fits_state(self) && e == StateError::TooLarge,
            },
    {
        if !self.can_save() {
            return Err(StateError::TooLarge);
        }
        Ok(encode_state(self))
    }

    /// Replaces the whole console with the one `data` describes. On any
    /// error nothing changes.
    pub fn load_state(&mut self, data: &[u8]) -> (r: Result<(), StateError>)
        requires
            old(self).wf(),
        ensures
            final(self).wf(),
            match r {
                Ok(()) => dec_image(data@) == Ok::<StateImage, StateError>(image_of(final(self))),
                Err(e) => dec_image(data@) == Err::<StateImage, StateError>(e) && *final(self)
                    == *old(self),
            },
    {
        match decode_state(data) {
            Ok(n) => {
                *self = n;
                Ok(())
            },
            Err(e) => Err(e),
        }
    }
}


/// Two well-formed consoles with the same image agree on every register,
/// memory, counter and cartridge byte the library's contracts speak of.
pub proof fn lemma_image_determines_console(a: &NES, b: &NES)
    requires
        a.wf(),
        b.wf(),
        image_of(a) == image_of(b),
    ensures
        a.cpu == b.cpu,
        a.cycles == b.cycles && a.frames == b.frames && a.last_stall == b.last_stall,
        a.bus.ram@ == b.bus.ram@,
        a.bus.pad == b.bus.pad && a.bus.dma_page == b.bus.dma_page,
        a.bus.ppu@ == b.bus.ppu@,
        a.bus.apu.pulse1 == b.bus.apu.pulse1 && a.bus.apu.pulse2 == b.bus.apu.pulse2,
        a.bus.apu.triangle == b.bus.apu.triangle && a.bus.apu.noise == b.bus.apu.noise,
        a.bus.apu.dmc == b.bus.apu.dmc && a.bus.apu.frame == b.bus.apu.frame,
        a.bus.apu.odd == b.bus.apu.odd && a.bus.apu.sample_phase == b.bus.apu.sample_phase,
        a.bus.apu.audio_buffer@ == b.bus.apu.audio_buffer@,
        forall|addr: u16| a.bus.board.cpu_byte(addr) == #[trigger] b.bus.board.cpu_byte(addr),
        forall|addr: u16| a.bus.board.ppu_byte(addr) == #[trigger] b.bus.board.ppu_byte(addr),
        a.bus.board.layout() == b.bus.board.layout(),
{
    assert(registers_of(a.bus.ppu@) == registers_of(b.bus.ppu@));
    assert(a.bus.ppu@ == b.bus.ppu@);
}

} // verus!
