//! The sound unit: two pulse channels, a triangle, a noise generator and a
//! delta-modulation player, clocked by a shared frame sequencer and mixed to
//! 16-bit PCM.
use vstd::prelude::*;
use crate::apu_tables::{
    dmc_rate, dmc_rate_table, duty_bit, duty_high, length_table, length_value, noise_period,
    noise_period_table,
};
use crate::mapper::{Board, Mapper};

verus! {

/// CPU clock in Hz, and the output sample rate.
pub const CPU_HZ: u32 = 1789773;
pub const SAMPLE_HZ: u32 = 44100;

/// Volume envelope shared by the pulse and noise channels.
#[derive(Clone, Copy, Debug, PartialEq, Eq, Structural)]
pub struct Envelope {
    pub start: bool,
    pub looping: bool,
    pub constant: bool,
    /// Constant volume, or the divider period (0..16).
    pub volume: u8,
    pub divider: u8,
    pub decay: u8,
}

impl Envelope {
    pub open spec fn inv(self) -> bool {
        self.volume < 16 && self.decay < 16 && self.divider < 16
    }

    pub fn new() -> (r: Envelope)
        ensures
            r.inv(),
            r == envelope_power_on(),
    {
        Envelope { start: false, looping: false, constant: false, volume: 0, divider: 0, decay: 0 }
    }

    /// Quarter-frame clock.
    pub open spec fn after_clock(self) -> Envelope {
        if self.start {
            Envelope { start: false, decay: 15, divider: self.volume, ..self }
        } else if self.divider == 0 {
            Envelope {
                divider: self.volume,
                decay: if self.decay > 0 {
                    (self.decay - 1) as u8
                } else if self.looping {
                    15
                } else {
                    0
                },
                ..self
            }
        } else {
            Envelope { divider: (self.divider - 1) as u8, ..self }
        }
    }

    pub fn clock(&mut self)
        requires
            old(self).inv(),
        ensures
            final(self).inv(),
            *final(self) == old(self).after_clock(),
    {
        if self.start {
            self.start = false;
            self.decay = 15;
            self.divider = self.volume;
        } else if self.divider == 0 {
            self.divider = self.volume;
            if self.decay > 0 {
                self.decay = self.decay - 1;
            } else if self.looping {
                self.decay = 15;
            }
        } else {
            self.divider = self.divider - 1;
        }
    }

    pub open spec fn level(self) -> u8 {
        if self.constant {
            self.volume
        } else {
            self.decay
        }
    }

    pub fn output(&self) -> (r: u8)
        ensures
            r == self.level(),
    {
        if self.constant {
            self.volume
        } else {
            self.decay
        }
    }
}

/// A pulse (square-wave) channel.
#[derive(Clone, Copy, Debug, PartialEq, Eq, Structural)]
pub struct Pulse {
    pub enabled: bool,
    pub duty: u8,
    pub env: Envelope,
    pub sweep_enabled: bool,
    pub sweep_period: u8,
    pub sweep_negate: bool,
    pub sweep_shift: u8,
    pub sweep_reload: bool,
    pub sweep_divider: u8,
    /// The first pulse channel negates in ones' complement.
    pub ones_complement: bool,
    pub timer_period: u16,
    pub timer: u16,
    pub seq: u8,
    pub length: u8,
}

/// The period the sweep unit aims at.
pub open spec fn sweep_target(p: Pulse) -> int {
    let change = (p.timer_period >> p.sweep_shift) as int;
    if p.sweep_negate {
        let t = p.timer_period as int - change - (if p.ones_complement { 1int } else { 0 });
        if t < 0 {
            0
        } else {
            t
        }
    } else {
        p.timer_period as int + change
    }
}

pub open spec fn pulse_muted(p: Pulse) -> bool {
    p.timer_period < 8 || sweep_target(p) > 0x7FF
}

impl Pulse {
    pub open spec fn inv(self) -> bool {
        &&& self.env.inv()
        &&& self.duty < 4
        &&& self.sweep_period < 8
        &&& self.sweep_shift < 8
        &&& self.sweep_divider < 8
        &&& self.timer_period <= 0x7FF
        &&& self.seq < 8
    }

    pub fn new(ones_complement: bool) -> (r: Pulse)
        ensures
            r.inv(),
            r == pulse_power_on(ones_complement),
    {
        Pulse {
            enabled: false,
            duty: 0,
            env: Envelope::new(),
            sweep_enabled: false,
            sweep_period: 0,
            sweep_negate: false,
            sweep_shift: 0,
            sweep_reload: false,
            sweep_divider: 0,
            ones_complement,
            timer_period: 0,
            timer: 0,
            seq: 0,
            length: 0,
        }
    }

    /// Register 0: duty, length halt / envelope loop, constant flag, volume.
    pub open spec fn after_write_control(self, v: u8) -> Pulse {
        Pulse {
            duty: v >> 6u8,
            env: Envelope {
                looping: v & 0x20 != 0,
                constant: v & 0x10 != 0,
                volume: v & 0x0F,
                ..self.env
            },
            ..self
        }
    }

    pub fn write_control(&mut self, v: u8)
        requires
            old(self).inv(),
        ensures
            final(self).inv(),
            *final(self) == old(self).after_write_control(v),
    {
        assert(v >> 6u8 < 4 && v & 0x0F < 16) by (bit_vector);
        self.duty = v >> 6u8;
        self.env.looping = v & 0x20 != 0;
        self.env.constant = v & 0x10 != 0;
        self.env.volume = v & 0x0F;
    }

    /// Register 1: sweep unit.
    pub open spec fn after_write_sweep(self, v: u8) -> Pulse {
        Pulse {
            sweep_enabled: v & 0x80 != 0,
            sweep_period: (v >> 4u8) & 7,
            sweep_negate: v & 0x08 != 0,
            sweep_shift: v & 7,
            sweep_reload: true,
            ..self
        }
    }

    pub fn write_sweep(&mut self, v: u8)
        requires
            old(self).inv(),
        ensures
            final(self).inv(),
            *final(self) == old(self).after_write_sweep(v),
    {
        assert((v >> 4u8) & 7 < 8 && v & 7 < 8) by (bit_vector);
        self.sweep_enabled = v & 0x80 != 0;
        self.sweep_period = (v >> 4u8) & 7;
        self.sweep_negate = v & 0x08 != 0;
        self.sweep_shift = v & 7;
        self.sweep_reload = true;
    }

    /// Register 2: low eight bits of the timer period.
    pub open spec fn after_write_timer_low(self, v: u8) -> Pulse {
        Pulse { timer_period: (self.timer_period & 0x700) | (v as u16), ..self }
    }

    pub fn write_timer_low(&mut self, v: u8)
        requires
            old(self).inv(),
        ensures
            final(self).inv(),
            *final(self) == old(self).after_write_timer_low(v),
    {
        let p = self.timer_period;
        assert((p & 0x700) | (v as u16) <= 0x7FF) by (bit_vector);
        self.timer_period = (self.timer_period & 0x700) | (v as u16);
    }

    /// Register 3: high timer bits and length load; restarts the envelope and phase.
    pub open spec fn after_write_timer_high(self, v: u8) -> Pulse {
        Pulse {
            timer_period: (self.timer_period & 0xFF) | (((v & 7) as u16) << 8u16),
            length: if self.enabled {
                length_table((v >> 3u8) as int)
            } else {
                self.length
            },
            seq: 0,
            env: Envelope { start: true, ..self.env },
            ..self
        }
    }

    pub fn write_timer_high(&mut self, v: u8)
        requires
            old(self).inv(),
        ensures
            final(self).inv(),
            *final(self) == old(self).after_write_timer_high(v),
    {
        let p = self.timer_period;
        assert((p & 0xFF) | (((v & 7) as u16) << 8u16) <= 0x7FF && v >> 3u8 < 32) by (bit_vector);
        self.timer_period = (self.timer_period & 0xFF) | (((v & 7) as u16) << 8u16);
        if self.enabled {
            self.length = length_value(v >> 3u8);
        }
        self.seq = 0;
        self.env.start = true;
    }

    pub open spec fn after_set_enabled(self, on: bool) -> Pulse {
        Pulse {
            enabled: on,
            length: if on {
                self.length
            } else {
                0
            },
            ..self
        }
    }

    pub fn set_enabled(&mut self, on: bool)
        ensures
            *final(self) == old(self).after_set_enabled(on),
    {
        self.enabled = on;
        if !on {
            self.length = 0;
        }
    }

    /// Timer clock (every second CPU cycle).
    pub open spec fn after_clock_timer(self) -> Pulse {
        if self.timer == 0 {
            Pulse { timer: self.timer_period, seq: ((self.seq + 7) % 8) as u8, ..self }
        } else {
            Pulse { timer: (self.timer - 1) as u16, ..self }
        }
    }

    pub fn clock_timer(&mut self)
        requires
            old(self).inv(),
        ensures
            final(self).inv(),
            *final(self) == old(self).after_clock_timer(),
    {
        if self.timer == 0 {
            self.timer = self.timer_period;
            self.seq = (self.seq + 7) % 8;
        } else {
            self.timer = self.timer - 1;
        }
    }

    fn target(&self) -> (r: u16)
        requires
            self.inv(),
        ensures
            r as int == sweep_target(*self),
    {
        let tp = self.timer_period;
        let sh = self.sweep_shift;
        let change = tp >> sh;
        assert(change <= tp) by (bit_vector)
            requires
                change == tp >> sh,
        ;
        if self.sweep_negate {
            let sub: u16 = change + (if self.ones_complement {
                1u16
            } else {
                0
            });
            if sub > self.timer_period {
                0
            } else {
                self.timer_period - sub
            }
        } else {
            self.timer_period + change
        }
    }

    /// Half-frame clock of the sweep unit: a due, enabled, unmuted sweep with
    /// a non-zero shift moves the period to its target.
    pub open spec fn after_clock_sweep(self) -> Pulse {
        Pulse {
            timer_period: if self.sweep_divider == 0 && self.sweep_enabled && self.sweep_shift > 0
                && !pulse_muted(self) {
                sweep_target(self) as u16
            } else {
                self.timer_period
            },
            sweep_divider: if self.sweep_divider == 0 || self.sweep_reload {
                self.sweep_period
            } else {
                (self.sweep_divider - 1) as u8
            },
            sweep_reload: false,
            ..self
        }
    }

    pub fn clock_sweep(&mut self)
        requires
            old(self).inv(),
        ensures
            final(self).inv(),
            *final(self) == old(self).after_clock_sweep(),
    {
        let target = self.target();
        let muted = self.timer_period < 8 || target > 0x7FF;
        if self.sweep_divider == 0 && self.sweep_enabled && self.sweep_shift > 0 && !muted {
            self.timer_period = target;
        }
        if self.sweep_divider == 0 || self.sweep_reload {
            self.sweep_divider = self.sweep_period;
        } else {
            self.sweep_divider = self.sweep_divider - 1;
        }
        self.sweep_reload = false;
    }

    /// Half-frame clock of the length counter.
    pub open spec fn after_clock_length(self) -> Pulse {
        Pulse {
            length: if !self.env.looping && self.length > 0 {
                (self.length - 1) as u8
            } else {
                self.length
            },
            ..self
        }
    }

    pub fn clock_length(&mut self)
        ensures
            *final(self) == old(self).after_clock_length(),
    {
        if !self.env.looping && self.length > 0 {
            self.length = self.length - 1;
        }
    }

    pub open spec fn level(self) -> u8 {
        if self.length == 0 || pulse_muted(self) || !duty_high(self.duty, self.seq) {
            0
        } else {
            self.env.level()
        }
    }

    pub fn output(&self) -> (r: u8)
        requires
            self.inv(),
        ensures
            r == self.level(),
            r < 16,
    {
        let target = self.target();
        if self.length == 0 || self.timer_period < 8 || target > 0x7FF || !duty_bit(self.duty, self.seq) {
            0
        } else {
            self.env.output()
        }
    }
}

/// The triangle channel.
#[derive(Clone, Copy, Debug, PartialEq, Eq, Structural)]
pub struct Triangle {
    pub enabled: bool,
    /// Length halt and linear-counter control.
    pub control: bool,
    pub linear_reload_value: u8,
    pub linear: u8,
    pub linear_reload: bool,
    pub timer_period: u16,
    pub timer: u16,
    pub seq: u8,
    pub length: u8,
}

impl Triangle {
    pub open spec fn inv(self) -> bool {
        self.seq < 32 && self.timer_period <= 0x7FF && self.linear_reload_value < 128 && self.linear < 128
    }

    pub fn new() -> (r: Triangle)
        ensures
            r.inv(),
            r == triangle_power_on(),
    {
        Triangle {
            enabled: false,
            control: false,
            linear_reload_value: 0,
            linear: 0,
            linear_reload: false,
            timer_period: 0,
            timer: 0,
            seq: 0,
            length: 0,
        }
    }

    pub open spec fn after_write_linear(self, v: u8) -> Triangle {
        Triangle { control: v & 0x80 != 0, linear_reload_value: v & 0x7F, ..self }
    }

    pub fn write_linear(&mut self, v: u8)
        requires
            old(self).inv(),
        ensures
            final(self).inv(),
            *final(self) == old(self).after_write_linear(v),
    {
        assert(v & 0x7F < 128) by (bit_vector);
        self.control = v & 0x80 != 0;
        self.linear_reload_value = v & 0x7F;
    }

    pub open spec fn after_write_timer_low(self, v: u8) -> Triangle {
        Triangle { timer_period: (self.timer_period & 0x700) | (v as u16), ..self }
    }

    pub fn write_timer_low(&mut self, v: u8)
        requires
            old(self).inv(),
        ensures
            final(self).inv(),
            *final(self) == old(self).after_write_timer_low(v),
    {
        let p = self.timer_period;
        assert((p & 0x700) | (v as u16) <= 0x7FF) by (bit_vector);
        self.timer_period = (self.timer_period & 0x700) | (v as u16);
    }

    pub open spec fn after_write_timer_high(self, v: u8) -> Triangle {
        Triangle {
            timer_period: (self.timer_period & 0xFF) | (((v & 7) as u16) << 8u16),
            length: if self.enabled {
                length_table((v >> 3u8) as int)
            } else {
                self.length
            },
            linear_reload: true,
            ..self
        }
    }

    pub fn write_timer_high(&mut self, v: u8)
        requires
            old(self).inv(),
        ensures
            final(self).inv(),
            *final(self) == old(self).after_write_timer_high(v),
    {
        let p = self.timer_period;
        assert((p & 0xFF) | (((v & 7) as u16) << 8u16) <= 0x7FF && v >> 3u8 < 32) by (bit_vector);
        self.timer_period = (self.timer_period & 0xFF) | (((v & 7) as u16) << 8u16);
        if self.enabled {
            self.length = length_value(v >> 3u8);
        }
        self.linear_reload = true;
    }

    pub open spec fn after_set_enabled(self, on: bool) -> Triangle {
        Triangle {
            enabled: on,
            length: if on {
                self.length
            } else {
                0
            },
            ..self
        }
    }

    pub fn set_enabled(&mut self, on: bool)
        ensures
            *final(self) == old(self).after_set_enabled(on),
    {
        self.enabled = on;
        if !on {
            self.length = 0;
        }
    }

    /// Timer clock (every CPU cycle); the sequence only moves while both
    /// counters are non-zero.
    pub open spec fn after_clock_timer(self) -> Triangle {
        if self.timer == 0 {
            Triangle {
                timer: self.timer_period,
                seq: if self.length > 0 && self.linear > 0 {
                    ((self.seq + 1) % 32) as u8
                } else {
                    self.seq
                },
                ..self
            }
        } else {
            Triangle { timer: (self.timer - 1) as u16, ..self }
        }
    }

    pub fn clock_timer(&mut self)
        requires
            old(self).inv(),
        ensures
            final(self).inv(),
            *final(self) == old(self).after_clock_timer(),
    {
        if self.timer == 0 {
            self.timer = self.timer_period;
            if self.length > 0 && self.linear > 0 {
                self.seq = (self.seq + 1) % 32;
            }
        } else {
            self.timer = self.timer - 1;
        }
    }

    /// Quarter-frame clock of the linear counter.
    pub open spec fn after_clock_linear(self) -> Triangle {
        Triangle {
            linear: if self.linear_reload {
                self.linear_reload_value
            } else if self.linear > 0 {
                (self.linear - 1) as u8
            } else {
                0
            },
            linear_reload: self.linear_reload && self.control,
            ..self
        }
    }

    pub fn clock_linear(&mut self)
        requires
            old(self).inv(),
        ensures
            final(self).inv(),
            *final(self) == old(self).after_clock_linear(),
    {
        if self.linear_reload {
            self.linear = self.linear_reload_value;
        } else if self.linear > 0 {
            self.linear = self.linear - 1;
        }
        if !self.control {
            self.linear_reload = false;
        }
    }

    pub open spec fn after_clock_length(self) -> Triangle {
        Triangle {
            length: if !self.control && self.length > 0 {
                (self.length - 1) as u8
            } else {
                self.length
            },
            ..self
        }
    }

    pub fn clock_length(&mut self)
        ensures
            *final(self) == old(self).after_clock_length(),
    {
        if !self.control && self.length > 0 {
            self.length = self.length - 1;
        }
    }

    /// The 32-step triangle: 15 down to 0, then 0 up to 15.
    pub open spec fn level(self) -> u8 {
        if self.seq < 16 {
            (15 - self.seq) as u8
        } else {
            (self.seq - 16) as u8
        }
    }

    pub fn output(&self) -> (r: u8)
        requires
            self.inv(),
        ensures
            r == self.level(),
            r < 16,
    {
        if self.seq < 16 {
            15 - self.seq
        } else {
            self.seq - 16
        }
    }
}

/// The noise channel: a 15-bit linear-feedback shift register.
#[derive(Clone, Copy, Debug, PartialEq, Eq, Structural)]
pub struct Noise {
    pub enabled: bool,
    pub env: Envelope,
    pub short_mode: bool,
    pub period_index: u8,
    pub timer: u16,
    pub lfsr: u16,
    pub length: u8,
}

/// The shift register after one clock.
pub open spec fn lfsr_next(lfsr: u16, short_mode: bool) -> u16 {
    let tap: u16 = if short_mode {
        6
    } else {
        1
    };
    let feedback = (lfsr & 1) ^ ((lfsr >> tap) & 1);
    (lfsr >> 1u16) | (feedback << 14u16)
}

impl Noise {
    pub open spec fn inv(self) -> bool {
        self.env.inv() && self.period_index < 16
    }

    pub fn new() -> (r: Noise)
        ensures
            r.inv(),
            r == noise_power_on(),
    {
        Noise { enabled: false, env: Envelope::new(), short_mode: false, period_index: 0, timer: 0, lfsr: 1, length: 0 }
    }

    pub open spec fn after_write_control(self, v: u8) -> Noise {
        Noise {
            env: Envelope {
                looping: v & 0x20 != 0,
                constant: v & 0x10 != 0,
                volume: v & 0x0F,
                ..self.env
            },
            ..self
        }
    }

    pub fn write_control(&mut self, v: u8)
        requires
            old(self).inv(),
        ensures
            final(self).inv(),
            *final(self) == old(self).after_write_control(v),
    {
        assert(v & 0x0F < 16) by (bit_vector);
        self.env.looping = v & 0x20 != 0;
        self.env.constant = v & 0x10 != 0;
        self.env.volume = v & 0x0F;
    }

    pub open spec fn after_write_period(self, v: u8) -> Noise {
        Noise { short_mode: v & 0x80 != 0, period_index: v & 0x0F, ..self }
    }

    pub fn write_period(&mut self, v: u8)
        requires
            old(self).inv(),
        ensures
            final(self).inv(),
            *final(self) == old(self).after_write_period(v),
    {
        assert(v & 0x0F < 16) by (bit_vector);
        self.short_mode = v & 0x80 != 0;
        self.period_index = v & 0x0F;
    }

    pub open spec fn after_write_length(self, v: u8) -> Noise {
        Noise {
            length: if self.enabled {
                length_table((v >> 3u8) as int)
            } else {
                self.length
            },
            env: Envelope { start: true, ..self.env },
            ..self
        }
    }

    pub fn write_length(&mut self, v: u8)
        requires
            old(self).inv(),
        ensures
            final(self).inv(),
            *final(self) == old(self).after_write_length(v),
    {
        assert(v >> 3u8 < 32) by (bit_vector);
        if self.enabled {
            self.length = length_value(v >> 3u8);
        }
        self.env.start = true;
    }

    pub open spec fn after_set_enabled(self, on: bool) -> Noise {
        Noise {
            enabled: on,
            length: if on {
                self.length
            } else {
                0
            },
            ..self
        }
    }

    pub fn set_enabled(&mut self, on: bool)
        ensures
            *final(self) == old(self).after_set_enabled(on),
    {
        self.enabled = on;
        if !on {
            self.length = 0;
        }
    }

    pub open spec fn after_clock_timer(self) -> Noise {
        if self.timer == 0 {
            Noise {
                timer: (noise_period_table(self.period_index as int) - 1) as u16,
                lfsr: lfsr_next(self.lfsr, self.short_mode),
                ..self
            }
        } else {
            Noise { timer: (self.timer - 1) as u16, ..self }
        }
    }

    pub fn clock_timer(&mut self)
        requires
            old(self).inv(),
        ensures
            final(self).inv(),
            *final(self) == old(self).after_clock_timer(),
    {
        if self.timer == 0 {
            self.timer = noise_period(self.period_index) - 1;
            let tap: u16 = if self.short_mode {
                6
            } else {
                1
            };
            let feedback = (self.lfsr & 1) ^ ((self.lfsr >> tap) & 1);
            self.lfsr = (self.lfsr >> 1u16) | (feedback << 14u16);
        } else {
            self.timer = self.timer - 1;
        }
    }

    pub open spec fn after_clock_length(self) -> Noise {
        Noise {
            length: if !self.env.looping && self.length > 0 {
                (self.length - 1) as u8
            } else {
                self.length
            },
            ..self
        }
    }

    pub fn clock_length(&mut self)
        ensures
            *final(self) == old(self).after_clock_length(),
    {
        if !self.env.looping && self.length > 0 {
            self.length = self.length - 1;
        }
    }

    pub open spec fn level(self) -> u8 {
        if self.length == 0 || self.lfsr & 1 == 1 {
            0
        } else {
            self.env.level()
        }
    }

    pub fn output(&self) -> (r: u8)
        requires
            self.inv(),
        ensures
            r == self.level(),
            r < 16,
    {
        if self.length == 0 || self.lfsr & 1 == 1 {
            0
        } else {
            self.env.output()
        }
    }
}


/// The delta-modulation channel: plays 1-bit deltas fetched from cartridge space.
#[derive(Clone, Copy, Debug, PartialEq, Eq, Structural)]
pub struct Dmc {
    pub irq_enabled: bool,
    pub looping: bool,
    pub rate_index: u8,
    pub timer: u16,
    /// Output level, 0..128.
    pub level: u8,
    pub sample_addr: u16,
    pub sample_len: u16,
    pub cur_addr: u16,
    pub remaining: u16,
    pub shift: u8,
    pub bits: u8,
    pub silence: bool,
    pub buffer: u8,
    pub buffer_full: bool,
    pub irq: bool,
}

impl Dmc {
    pub open spec fn inv(self) -> bool {
        self.rate_index < 16 && self.level < 128 && 1 <= self.bits <= 8
    }

    pub fn new() -> (r: Dmc)
        ensures
            r.inv(),
            r == dmc_power_on(),
    {
        Dmc {
            irq_enabled: false,
            looping: false,
            rate_index: 0,
            timer: 0,
            level: 0,
            sample_addr: 0xC000,
            sample_len: 1,
            cur_addr: 0xC000,
            remaining: 0,
            shift: 0,
            bits: 8,
            silence: true,
            buffer: 0,
            buffer_full: false,
            irq: false,
        }
    }

    /// Register 0x4010: IRQ enable, loop flag, rate.
    pub open spec fn after_write_control(self, v: u8) -> Dmc {
        Dmc {
            irq_enabled: v & 0x80 != 0,
            looping: v & 0x40 != 0,
            rate_index: v & 0x0F,
            irq: self.irq && v & 0x80 != 0,
            ..self
        }
    }

    pub fn write_control(&mut self, v: u8)
        requires
            old(self).inv(),
        ensures
            final(self).inv(),
            *final(self) == old(self).after_write_control(v),
    {
        assert(v & 0x0F < 16) by (bit_vector);
        self.irq_enabled = v & 0x80 != 0;
        self.looping = v & 0x40 != 0;
        self.rate_index = v & 0x0F;
        if !self.irq_enabled {
            self.irq = false;
        }
    }

    /// Register 0x4011: direct load of the output level.
    pub open spec fn after_write_level(self, v: u8) -> Dmc {
        Dmc { level: v & 0x7F, ..self }
    }

    pub fn write_level(&mut self, v: u8)
        requires
            old(self).inv(),
        ensures
            final(self).inv(),
            *final(self) == old(self).after_write_level(v),
    {
        assert(v & 0x7F < 128) by (bit_vector);
        self.level = v & 0x7F;
    }

    /// Register 0x4012: sample start at 0xC000 + 64 * v.
    pub open spec fn after_write_address(self, v: u8) -> Dmc {
        Dmc { sample_addr: (0xC000 + 64 * v as int) as u16, ..self }
    }

    pub fn write_address(&mut self, v: u8)
        ensures
            *final(self) == old(self).after_write_address(v),
    {
        self.sample_addr = 0xC000 + 64 * (v as u16);
    }

    /// Register 0x4013: sample length 16 * v + 1 bytes.
    pub open spec fn after_write_length(self, v: u8) -> Dmc {
        Dmc { sample_len: (16 * v as int + 1) as u16, ..self }
    }

    pub fn write_length(&mut self, v: u8)
        ensures
            *final(self) == old(self).after_write_length(v),
    {
        self.sample_len = 16 * (v as u16) + 1;
    }

    /// Enable bit of 0x4015: stops playback, or restarts a finished sample.
    pub open spec fn after_set_enabled(self, on: bool) -> Dmc {
        if !on {
            Dmc { remaining: 0, irq: false, ..self }
        } else if self.remaining == 0 {
            Dmc { cur_addr: self.sample_addr, remaining: self.sample_len, irq: false, ..self }
        } else {
            Dmc { irq: false, ..self }
        }
    }

    pub fn set_enabled(&mut self, on: bool)
        ensures
            *final(self) == old(self).after_set_enabled(on),
    {
        self.irq = false;
        if !on {
            self.remaining = 0;
        } else if self.remaining == 0 {
            self.cur_addr = self.sample_addr;
            self.remaining = self.sample_len;
        }
    }

    /// The memory reader: refills the sample buffer with `fetched`, the byte
    /// at the current address, when it is empty and bytes remain.
    pub open spec fn read_stage(self, fetched: u8) -> Dmc {
        if !self.buffer_full && self.remaining > 0 {
            let rem = (self.remaining - 1) as u16;
            let next = if self.cur_addr == 0xFFFF {
                0x8000u16
            } else {
                (self.cur_addr + 1) as u16
            };
            Dmc {
                buffer: fetched,
                buffer_full: true,
                cur_addr: if rem == 0 && self.looping {
                    self.sample_addr
                } else {
                    next
                },
                remaining: if rem == 0 && self.looping {
                    self.sample_len
                } else {
                    rem
                },
                irq: self.irq || (rem == 0 && !self.looping && self.irq_enabled),
                ..self
            }
        } else {
            self
        }
    }

    /// The output unit, clocked every CPU cycle by the rate timer.
    pub open spec fn output_stage(self) -> Dmc {
        if self.timer == 0 {
            let level = if self.silence {
                self.level
            } else if self.shift & 1 == 1 {
                if self.level <= 125 {
                    (self.level + 2) as u8
                } else {
                    self.level
                }
            } else if self.level >= 2 {
                (self.level - 2) as u8
            } else {
                self.level
            };
            let bits = (self.bits - 1) as u8;
            let s = Dmc {
                timer: (dmc_rate_table(self.rate_index as int) - 1) as u16,
                level,
                shift: self.shift >> 1u8,
                bits,
                ..self
            };
            if bits == 0 {
                if s.buffer_full {
                    Dmc { bits: 8, silence: false, shift: s.buffer, buffer_full: false, ..s }
                } else {
                    Dmc { bits: 8, silence: true, ..s }
                }
            } else {
                s
            }
        } else {
            Dmc { timer: (self.timer - 1) as u16, ..self }
        }
    }

    /// One CPU cycle, reading sample bytes through the cartridge.
    pub fn clock(&mut self, cart: &Board)
        requires
            old(self).inv(),
        ensures
            final(self).inv(),
            *final(self) == old(self).read_stage(cart.cpu_byte(old(self).cur_addr)).output_stage(),
    {
        if !self.buffer_full && self.remaining > 0 {
            self.buffer = cart.read(self.cur_addr);
            self.buffer_full = true;
            let rem = self.remaining - 1;
            let next: u16 = if self.cur_addr == 0xFFFF {
                0x8000
            } else {
                self.cur_addr + 1
            };
            if rem == 0 && self.looping {
                self.cur_addr = self.sample_addr;
                self.remaining = self.sample_len;
            } else {
                self.cur_addr = next;
                self.remaining = rem;
                if rem == 0 && self.irq_enabled {
                    self.irq = true;
                }
            }
        }
        if self.timer == 0 {
            if !self.silence {
                if self.shift & 1 == 1 {
                    if self.level <= 125 {
                        self.level = self.level + 2;
                    }
                } else if self.level >= 2 {
                    self.level = self.level - 2;
                }
            }
            self.timer = dmc_rate(self.rate_index) - 1;
            self.shift = self.shift >> 1u8;
            self.bits = self.bits - 1;
            if self.bits == 0 {
                self.bits = 8;
                if self.buffer_full {
                    self.silence = false;
                    self.shift = self.buffer;
                    self.buffer_full = false;
                } else {
                    self.silence = true;
                }
            }
        } else {
            self.timer = self.timer - 1;
        }
    }
}

/// Length of a sequencer period in CPU cycles: 4-step or 5-step mode.
pub open spec fn sequence_len(five_step: bool) -> u32 {
    if five_step {
        37282
    } else {
        29830
    }
}

/// Whether the sequencer's count `c` clocks envelopes and the linear counter.
pub open spec fn quarter_at(five_step: bool, c: u32) -> bool {
    c == 7457 || c == 14913 || c == 22371 || (!five_step && c == 29829) || (five_step && c == 37281)
}

/// Whether the sequencer's count `c` clocks length counters and sweeps.
pub open spec fn half_at(five_step: bool, c: u32) -> bool {
    c == 14913 || (!five_step && c == 29829) || (five_step && c == 37281)
}

/// The frame sequencer.
#[derive(Clone, Copy, Debug, PartialEq, Eq, Structural)]
pub struct FrameCounter {
    pub five_step: bool,
    pub irq_inhibit: bool,
    pub cycle: u32,
    pub irq: bool,
}

impl FrameCounter {
    pub open spec fn inv(self) -> bool {
        self.cycle < sequence_len(self.five_step)
    }

    /// One CPU cycle of the sequencer; the 4-step sequence raises its
    /// interrupt on its last count unless inhibited.
    pub open spec fn after_tick(self) -> FrameCounter {
        let c = (self.cycle + 1) as u32;
        FrameCounter {
            cycle: if c == sequence_len(self.five_step) {
                0
            } else {
                c
            },
            irq: self.irq || (!self.five_step && c == 29829 && !self.irq_inhibit),
            ..self
        }
    }

    /// One CPU cycle: returns whether a quarter-frame and a half-frame clock fall on it.
    pub fn tick(&mut self) -> (r: (bool, bool))
        requires
            old(self).inv(),
        ensures
            final(self).inv(),
            r == (quarter_at(old(self).five_step, (old(self).cycle + 1) as u32), half_at(
                old(self).five_step,
                (old(self).cycle + 1) as u32,
            )),
            *final(self) == old(self).after_tick(),
    {
        let c = self.cycle + 1;
        let quarter = c == 7457 || c == 14913 || c == 22371 || (!self.five_step && c == 29829) || (
        self.five_step && c == 37281);
        let half = c == 14913 || (!self.five_step && c == 29829) || (self.five_step && c == 37281);
        if !self.five_step && c == 29829 && !self.irq_inhibit {
            self.irq = true;
        }
        let len: u32 = if self.five_step {
            37282
        } else {
            29830
        };
        self.cycle = if c == len {
            0
        } else {
            c
        };
        (quarter, half)
    }
}

/// Pulse part of the mix, scaled to 0..32767: 95.88 * s / (8128 + 100 * s).
pub open spec fn pulse_mix(s: int) -> int {
    if s == 0 {
        0
    } else {
        (32767 * 9588 * s) / (100 * (8128 + 100 * s))
    }
}

/// t/8227 + n/12241 + d/22638, over the common denominator 8227 * 12241 * 22638.
pub open spec fn tnd_weight(t: int, n: int, d: int) -> int {
    t * (12241 * 22638) + n * (8227 * 22638) + d * (8227 * 12241)
}

/// Triangle/noise/DMC part of the mix, scaled to 0..32767:
/// 159.79 / (1 / (t/8227 + n/12241 + d/22638) + 100).
pub open spec fn tnd_mix(t: int, n: int, d: int) -> int {
    let w = tnd_weight(t, n, d);
    if w == 0 {
        0
    } else {
        (32767 * 15979 * w) / (100 * (8227 * 12241 * 22638 + 100 * w))
    }
}

/// The mixed sample, saturated to the top of the 16-bit range.
pub open spec fn mix_spec(p1: int, p2: int, t: int, n: int, d: int) -> int {
    let m = pulse_mix(p1 + p2) + tnd_mix(t, n, d);
    if m > 32767 {
        32767
    } else {
        m
    }
}

/// Combines the five channel levels with the non-linear mixing formula.
pub fn mix(p1: u8, p2: u8, t: u8, n: u8, d: u8) -> (r: i16)
    requires
        p1 < 16,
        p2 < 16,
        t < 16,
        n < 16,
        d < 128,
    ensures
        r as int == mix_spec(p1 as int, p2 as int, t as int, n as int, d as int),
        r >= 0,
{
    let s = p1 as u64 + p2 as u64;
    let pulse: u64 = if s == 0 {
        0
    } else {
        assert(32767 * 9588 * s <= 32767 * 9588 * 30) by (nonlinear_arith)
            requires
                s <= 30,
        ;
        (32767 * 9588 * s) / (100 * (8128 + 100 * s))
    };
    assert(pulse <= 32767 * 9588 * 30) by (nonlinear_arith)
        requires
            s <= 30,
            s > 0 ==> pulse == (32767 * 9588 * s) / (100 * (8128 + 100 * s)),
            s == 0 ==> pulse == 0,
    ;
    let w: u64 = t as u64 * 277111758 + n as u64 * 186242826 + d as u64 * 100706707;
    let tnd: u64 = if w == 0 {
        0
    } else {
        assert(32767 * 15979 * w <= 32767 * 15979 * 20000000000) by (nonlinear_arith)
            requires
                w <= 20000000000,
        ;
        (32767 * 15979 * w) / (100 * (8227 * 12241 * 22638 + 100 * w))
    };
    assert(tnd <= 32767 * 15979 * 20000000000) by (nonlinear_arith)
        requires
            w <= 20000000000,
            w > 0 ==> tnd == (32767 * 15979 * w) / (100 * (8227 * 12241 * 22638 + 100 * w)),
            w == 0 ==> tnd == 0,
    ;
    let m = pulse + tnd;
    if m > 32767 {
        32767
    } else {
        m as i16
    }
}

/// The envelope at power-on.
pub open spec fn envelope_power_on() -> Envelope {
    Envelope { start: false, looping: false, constant: false, volume: 0, divider: 0, decay: 0 }
}

/// A pulse channel at power-on.
pub open spec fn pulse_power_on(ones_complement: bool) -> Pulse {
    Pulse {
        enabled: false,
        duty: 0,
        env: envelope_power_on(),
        sweep_enabled: false,
        sweep_period: 0,
        sweep_negate: false,
        sweep_shift: 0,
        sweep_reload: false,
        sweep_divider: 0,
        ones_complement,
        timer_period: 0,
        timer: 0,
        seq: 0,
        length: 0,
    }
}

/// The triangle channel at power-on.
pub open spec fn triangle_power_on() -> Triangle {
    Triangle {
        enabled: false,
        control: false,
        linear_reload_value: 0,
        linear: 0,
        linear_reload: false,
        timer_period: 0,
        timer: 0,
        seq: 0,
        length: 0,
    }
}

/// The noise channel at power-on: the shift register holds 1.
pub open spec fn noise_power_on() -> Noise {
    Noise { enabled: false, env: envelope_power_on(), short_mode: false, period_index: 0, timer: 0, lfsr: 1, length: 0 }
}

/// The delta-modulation channel at power-on.
pub open spec fn dmc_power_on() -> Dmc {
    Dmc {
        irq_enabled: false,
        looping: false,
        rate_index: 0,
        timer: 0,
        level: 0,
        sample_addr: 0xC000,
        sample_len: 1,
        cur_addr: 0xC000,
        remaining: 0,
        shift: 0,
        bits: 8,
        silence: true,
        buffer: 0,
        buffer_full: false,
        irq: false,
    }
}

/// The sound unit.
pub struct APU {
    pub pulse1: Pulse,
    pub pulse2: Pulse,
    pub triangle: Triangle,
    pub noise: Noise,
    pub dmc: Dmc,
    pub frame: FrameCounter,
    /// Parity of the CPU cycle: pulse and noise timers run at half rate.
    pub odd: bool,
    /// Sample-rate phase: a sample falls due each time it reaches the CPU clock.
    pub sample_phase: u32,
    /// PCM samples produced since the queue was last drained.
    pub audio_buffer: Vec<i16>,
    /// CPU cycles the unit has been clocked for since power-on or reset
    /// (wrapping).
    pub clocks: u64,
}

impl APU {
    pub open spec fn wf(&self) -> bool {
        &&& self.pulse1.inv()
        &&& self.pulse2.inv()
        &&& self.triangle.inv()
        &&& self.noise.inv()
        &&& self.dmc.inv()
        &&& self.frame.inv()
        &&& self.sample_phase < CPU_HZ
    }

    /// The sample the channels produce now.
    pub open spec fn current_sample(&self) -> int {
        mix_spec(
            self.pulse1.level() as int,
            self.pulse2.level() as int,
            self.triangle.level() as int,
            self.noise.level() as int,
            self.dmc.level as int,
        )
    }

    /// The IRQ line: frame-sequencer or DMC interrupt pending.
    pub open spec fn irq_line(&self) -> bool {
        self.frame.irq || self.dmc.irq
    }

    /// Every channel and the sequencer as at power-on, nothing queued.
    pub open spec fn powered_on(&self) -> bool {
        &&& self.pulse1 == pulse_power_on(true)
        &&& self.pulse2 == pulse_power_on(false)
        &&& self.triangle == triangle_power_on()
        &&& self.noise == noise_power_on()
        &&& self.dmc == dmc_power_on()
        &&& self.frame == (FrameCounter { five_step: false, irq_inhibit: false, cycle: 0, irq: false })
        &&& !self.odd
        &&& self.sample_phase == 0
        &&& self.audio_buffer@.len() == 0
        &&& self.clocks == 0
    }

    pub fn new() -> (r: APU)
        ensures
            r.powered_on(),
            r.wf(),
            r.audio_buffer@.len() == 0,
            !r.irq_line(),
            r.frame.cycle == 0 && !r.frame.five_step && !r.frame.irq_inhibit,
            r.sample_phase == 0,
            r.pulse1.length == 0 && r.pulse2.length == 0,
            r.triangle.length == 0 && r.noise.length == 0,
            r.dmc.remaining == 0,
    {
        APU {
            pulse1: Pulse::new(true),
            pulse2: Pulse::new(false),
            triangle: Triangle::new(),
            noise: Noise::new(),
            dmc: Dmc::new(),
            frame: FrameCounter { five_step: false, irq_inhibit: false, cycle: 0, irq: false },
            odd: false,
            sample_phase: 0,
            audio_buffer: Vec::new(),
            clocks: 0,
        }
    }

    /// Silences every channel, restarts the sequencer and empties the sample queue.
    pub fn reset(&mut self)
        ensures
            final(self).powered_on(),
            final(self).wf(),
            final(self).audio_buffer@.len() == 0,
            !final(self).irq_line(),
            final(self).frame.cycle == 0 && final(self).sample_phase == 0,
            final(self).pulse1.length == 0 && final(self).pulse2.length == 0,
            final(self).triangle.length == 0 && final(self).noise.length == 0,
            final(self).dmc.remaining == 0,
    {
        *self = APU::new();
    }

    /// Whether the APU asserts the CPU's IRQ line.
    pub fn irq_pending(&self) -> (r: bool)
        ensures
            r == self.irq_line(),
    {
        self.frame.irq || self.dmc.irq
    }

    /// The status register 0x4015: which channels are still sounding, and the
    /// interrupt flags.
    pub open spec fn status_value(&self) -> u8 {
        (if self.pulse1.length > 0 { 1u8 } else { 0u8 }) | (if self.pulse2.length > 0 { 2u8 } else { 0u8 })
            | (if self.triangle.length > 0 { 4u8 } else { 0u8 }) | (if self.noise.length > 0 { 8u8 } else { 0u8 })
            | (if self.dmc.remaining > 0 { 0x10u8 } else { 0u8 }) | (if self.frame.irq { 0x40u8 } else { 0u8 })
            | (if self.dmc.irq { 0x80u8 } else { 0u8 })
    }

    /// Reads the status register; reading clears the frame interrupt.
    pub fn read_status(&mut self) -> (r: u8)
        requires
            old(self).wf(),
        ensures
            final(self).wf(),
            r == old(self).status_value(),
            *final(self) == (APU { frame: FrameCounter { irq: false, ..old(self).frame }, ..*old(self) }),
    {
        let r = (if self.pulse1.length > 0 { 1u8 } else { 0u8 })
            | (if self.pulse2.length > 0 { 2u8 } else { 0u8 })
            | (if self.triangle.length > 0 { 4u8 } else { 0u8 })
            | (if self.noise.length > 0 { 8u8 } else { 0u8 })
            | (if self.dmc.remaining > 0 { 0x10u8 } else { 0u8 })
            | (if self.frame.irq { 0x40u8 } else { 0u8 })
            | (if self.dmc.irq { 0x80u8 } else { 0u8 });
        self.frame.irq = false;
        r
    }

    /// Quarter-frame clock: envelopes and the triangle's linear counter.
    pub open spec fn after_quarter_frame(self) -> APU {
        APU {
            pulse1: Pulse { env: self.pulse1.env.after_clock(), ..self.pulse1 },
            pulse2: Pulse { env: self.pulse2.env.after_clock(), ..self.pulse2 },
            noise: Noise { env: self.noise.env.after_clock(), ..self.noise },
            triangle: self.triangle.after_clock_linear(),
            ..self
        }
    }

    /// Half-frame clock: length counters, then the sweep units.
    pub open spec fn after_half_frame(self) -> APU {
        APU {
            pulse1: self.pulse1.after_clock_length().after_clock_sweep(),
            pulse2: self.pulse2.after_clock_length().after_clock_sweep(),
            triangle: self.triangle.after_clock_length(),
            noise: self.noise.after_clock_length(),
            ..self
        }
    }

    /// The unit after a CPU write of `v` to sound register `addr`.
    pub open spec fn after_write_register(self, addr: u16, v: u8) -> APU {
        if addr == 0x4000 {
            APU { pulse1: self.pulse1.after_write_control(v), ..self }
        } else if addr == 0x4001 {
            APU { pulse1: self.pulse1.after_write_sweep(v), ..self }
        } else if addr == 0x4002 {
            APU { pulse1: self.pulse1.after_write_timer_low(v), ..self }
        } else if addr == 0x4003 {
            APU { pulse1: self.pulse1.after_write_timer_high(v), ..self }
        } else if addr == 0x4004 {
            APU { pulse2: self.pulse2.after_write_control(v), ..self }
        } else if addr == 0x4005 {
            APU { pulse2: self.pulse2.after_write_sweep(v), ..self }
        } else if addr == 0x4006 {
            APU { pulse2: self.pulse2.after_write_timer_low(v), ..self }
        } else if addr == 0x4007 {
            APU { pulse2: self.pulse2.after_write_timer_high(v), ..self }
        } else if addr == 0x4008 {
            APU { triangle: self.triangle.after_write_linear(v), ..self }
        } else if addr == 0x400A {
            APU { triangle: self.triangle.after_write_timer_low(v), ..self }
        } else if addr == 0x400B {
            APU { triangle: self.triangle.after_write_timer_high(v), ..self }
        } else if addr == 0x400C {
            APU { noise: self.noise.after_write_control(v), ..self }
        } else if addr == 0x400E {
            APU { noise: self.noise.after_write_period(v), ..self }
        } else if addr == 0x400F {
            APU { noise: self.noise.after_write_length(v), ..self }
        } else if addr == 0x4010 {
            APU { dmc: self.dmc.after_write_control(v), ..self }
        } else if addr == 0x4011 {
            APU { dmc: self.dmc.after_write_level(v), ..self }
        } else if addr == 0x4012 {
            APU { dmc: self.dmc.after_write_address(v), ..self }
        } else if addr == 0x4013 {
            APU { dmc: self.dmc.after_write_length(v), ..self }
        } else if addr == 0x4015 {
            APU {
                pulse1: self.pulse1.after_set_enabled(v & 1 != 0),
                pulse2: self.pulse2.after_set_enabled(v & 2 != 0),
                triangle: self.triangle.after_set_enabled(v & 4 != 0),
                noise: self.noise.after_set_enabled(v & 8 != 0),
                dmc: self.dmc.after_set_enabled(v & 0x10 != 0),
                ..self
            }
        } else if addr == 0x4017 {
            let s = APU {
                frame: FrameCounter {
                    five_step: v & 0x80 != 0,
                    irq_inhibit: v & 0x40 != 0,
                    irq: self.frame.irq && v & 0x40 == 0,
                    cycle: 0,
                },
                ..self
            };
            if v & 0x80 != 0 {
                s.after_quarter_frame().after_half_frame()
            } else {
                s
            }
        } else {
            self
        }
    }

    /// One CPU cycle of every channel and of the sequencer, and the sample
    /// phase advanced; the sample queue is left to `step`.
    #[verifier::opaque]
    pub open spec fn after_clocks(self, cart: Board) -> APU {
        let s1 = APU { triangle: self.triangle.after_clock_timer(), ..self };
        let s2 = if self.odd {
            APU {
                pulse1: s1.pulse1.after_clock_timer(),
                pulse2: s1.pulse2.after_clock_timer(),
                noise: s1.noise.after_clock_timer(),
                ..s1
            }
        } else {
            s1
        };
        let s3 = APU {
            odd: !self.odd,
            dmc: s2.dmc.read_stage(cart.cpu_byte(s2.dmc.cur_addr)).output_stage(),
            frame: s2.frame.after_tick(),
            ..s2
        };
        let c = (self.frame.cycle + 1) as u32;
        let s4 = if quarter_at(self.frame.five_step, c) {
            s3.after_quarter_frame()
        } else {
            s3
        };
        let s5 = if half_at(self.frame.five_step, c) {
            s4.after_half_frame()
        } else {
            s4
        };
        let phase = self.sample_phase + SAMPLE_HZ;
        APU {
            clocks: ((self.clocks as int + 1) % 0x1_0000_0000_0000_0000) as u64,
            sample_phase: if phase >= CPU_HZ {
                (phase - CPU_HZ) as u32
            } else {
                phase as u32
            },
            ..s5
        }
    }

    fn quarter_frame(&mut self)
        requires
            old(self).wf(),
        ensures
            final(self).wf(),
            *final(self) == old(self).after_quarter_frame(),
    {
        self.pulse1.env.clock();
        self.pulse2.env.clock();
        self.noise.env.clock();
        self.triangle.clock_linear();
    }

    fn half_frame(&mut self)
        requires
            old(self).wf(),
        ensures
            final(self).wf(),
            *final(self) == old(self).after_half_frame(),
    {
        self.pulse1.clock_length();
        self.pulse2.clock_length();
        self.triangle.clock_length();
        self.noise.clock_length();
        self.pulse1.clock_sweep();
        self.pulse2.clock_sweep();
    }

    /// Writes a sound register (0x4000..=0x4013, 0x4015, 0x4017); other
    /// addresses are ignored.
    pub fn write_register(&mut self, addr: u16, v: u8)
        requires
            old(self).wf(),
        ensures
            final(self).wf(),
            final(self).audio_buffer == old(self).audio_buffer,
            final(self).sample_phase == old(self).sample_phase,
            *final(self) == old(self).after_write_register(addr, v),
    {
        if addr == 0x4000 {
            self.pulse1.write_control(v);
        } else if addr == 0x4001 {
            self.pulse1.write_sweep(v);
        } else if addr == 0x4002 {
            self.pulse1.write_timer_low(v);
        } else if addr == 0x4003 {
            self.pulse1.write_timer_high(v);
        } else if addr == 0x4004 {
            self.pulse2.write_control(v);
        } else if addr == 0x4005 {
            self.pulse2.write_sweep(v);
        } else if addr == 0x4006 {
            self.pulse2.write_timer_low(v);
        } else if addr == 0x4007 {
            self.pulse2.write_timer_high(v);
        } else if addr == 0x4008 {
            self.triangle.write_linear(v);
        } else if addr == 0x400A {
            self.triangle.write_timer_low(v);
        } else if addr == 0x400B {
            self.triangle.write_timer_high(v);
        } else if addr == 0x400C {
            self.noise.write_control(v);
        } else if addr == 0x400E {
            self.noise.write_period(v);
        } else if addr == 0x400F {
            self.noise.write_length(v);
        } else if addr == 0x4010 {
            self.dmc.write_control(v);
        } else if addr == 0x4011 {
            self.dmc.write_level(v);
        } else if addr == 0x4012 {
            self.dmc.write_address(v);
        } else if addr == 0x4013 {
            self.dmc.write_length(v);
        } else if addr == 0x4015 {
            self.pulse1.set_enabled(v & 1 != 0);
            self.pulse2.set_enabled(v & 2 != 0);
            self.triangle.set_enabled(v & 4 != 0);
            self.noise.set_enabled(v & 8 != 0);
            self.dmc.set_enabled(v & 0x10 != 0);
        } else if addr == 0x4017 {
            self.frame.five_step = v & 0x80 != 0;
            self.frame.irq_inhibit = v & 0x40 != 0;
            if self.frame.irq_inhibit {
                self.frame.irq = false;
            }
            self.frame.cycle = 0;
            if self.frame.five_step {
                self.quarter_frame();
                self.half_frame();
            }
        }
    }

    /// The sample queue plays no part in a clock.
    #[verifier::rlimit(100)]
    pub proof fn lemma_after_clocks_ignores_audio(self, q: Vec<i16>, cart: Board)
        ensures
            (APU { audio_buffer: q, ..self }).after_clocks(cart) == (APU {
                audio_buffer: q,
                ..self.after_clocks(cart)
            }),
            self.after_clocks(cart).audio_buffer == self.audio_buffer,
            self.after_clocks(cart).clocks == (self.clocks as int + 1) % 0x1_0000_0000_0000_0000,
    {
        reveal(APU::after_clocks);
        let a = APU { audio_buffer: q, ..self };
        let x = a.after_clocks(cart);
        let y = self.after_clocks(cart);
        assert(x.pulse1 == y.pulse1);
        assert(x.pulse2 == y.pulse2);
        assert(x.triangle == y.triangle);
        assert(x.noise == y.noise);
        assert(x.dmc == y.dmc);
        assert(x.frame == y.frame);
        assert(x.odd == y.odd && x.sample_phase == y.sample_phase && x.clocks == y.clocks);
        assert(x.audio_buffer == q);
    }

    /// One CPU cycle of the sound unit. When a sample falls due, the mix of the
    /// channels after this cycle is appended to the queue.
    #[verifier::rlimit(80)]
    pub fn step(&mut self, cart: &Board)
        requires
            old(self).wf(),
        ensures
            final(self).wf(),
            *final(self) == (APU { audio_buffer: final(self).audio_buffer, ..old(self).after_clocks(*cart) }),
            old(self).sample_phase + SAMPLE_HZ >= CPU_HZ ==> final(self).audio_buffer@
                == old(self).audio_buffer@.push(final(self).current_sample() as i16),
            old(self).sample_phase + SAMPLE_HZ < CPU_HZ ==> final(self).audio_buffer@
                == old(self).audio_buffer@,
    {
        proof {
            reveal(APU::after_clocks);
        }
        self.triangle.clock_timer();
        if self.odd {
            self.pulse1.clock_timer();
            self.pulse2.clock_timer();
            self.noise.clock_timer();
        }
        self.odd = !self.odd;
        self.dmc.clock(cart);
        let (quarter, half) = self.frame.tick();
        if quarter {
            self.quarter_frame();
        }
        if half {
            self.half_frame();
        }
        let phase = self.sample_phase + SAMPLE_HZ;
        if phase >= CPU_HZ {
            self.sample_phase = phase - CPU_HZ;
            let sample = mix(
                self.pulse1.output(),
                self.pulse2.output(),
                self.triangle.output(),
                self.noise.output(),
                self.dmc.level,
            );
            self.audio_buffer.push(sample);
        } else {
            self.sample_phase = phase;
        }
        self.clocks = if self.clocks == u64::MAX {
            0
        } else {
            self.clocks + 1
        };
    }

    /// The samples queued since the last drain.
    pub fn get_samples(&self) -> (r: &Vec<i16>)
        ensures
            r@ == self.audio_buffer@,
    {
        &self.audio_buffer
    }

    /// Hands out the queued samples and empties the queue.
    pub fn take_samples(&mut self) -> (r: Vec<i16>)
        ensures
            r@ == old(self).audio_buffer@,
            final(self).audio_buffer@.len() == 0,
            *final(self) == (APU { audio_buffer: final(self).audio_buffer, ..*old(self) }),
    {
        let r = self.audio_buffer.clone();
        assert(r@ =~= self.audio_buffer@);
        self.audio_buffer = Vec::new();
        r
    }
}

} // verus!
