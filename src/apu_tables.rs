//! Fixed tables of the sound unit.
use vstd::prelude::*;

verus! {

/// Length-counter load values, indexed by the top five bits of a length write.
pub open spec fn length_table(i: int) -> u8 {
    let t = seq![10u8, 254, 20, 2, 40, 4, 80, 6, 160, 8, 60, 10, 14, 12, 26, 14, 12, 16, 24, 18, 48, 20, 96, 22, 192, 24, 72, 26, 16, 28, 32, 30];
    t[i]
}

pub fn length_value(i: u8) -> (r: u8)
    requires
        i < 32,
    ensures
        r == length_table(i as int),
{
    let t: [u8; 32] = [10u8, 254, 20, 2, 40, 4, 80, 6, 160, 8, 60, 10, 14, 12, 26, 14, 12, 16, 24, 18, 48, 20, 96, 22, 192, 24, 72, 26, 16, 28, 32, 30];
    assert(t@ =~= seq![10u8, 254, 20, 2, 40, 4, 80, 6, 160, 8, 60, 10, 14, 12, 26, 14, 12, 16, 24, 18, 48, 20, 96, 22, 192, 24, 72, 26, 16, 28, 32, 30]);
    t[i as usize]
}

/// Noise timer periods in CPU cycles.
pub open spec fn noise_period_table(i: int) -> u16 {
    let t = seq![4u16, 8, 16, 32, 64, 96, 128, 160, 202, 254, 380, 508, 762, 1016, 2034, 4068];
    t[i]
}

pub fn noise_period(i: u8) -> (r: u16)
    requires
        i < 16,
    ensures
        r == noise_period_table(i as int),
        r >= 4,
{
    let t: [u16; 16] = [4u16, 8, 16, 32, 64, 96, 128, 160, 202, 254, 380, 508, 762, 1016, 2034, 4068];
    assert(t@ =~= seq![4u16, 8, 16, 32, 64, 96, 128, 160, 202, 254, 380, 508, 762, 1016, 2034, 4068]);
    t[i as usize]
}

/// Delta-modulation timer periods in CPU cycles.
pub open spec fn dmc_rate_table(i: int) -> u16 {
    let t = seq![428u16, 380, 340, 320, 286, 254, 226, 214, 190, 160, 142, 128, 106, 84, 72, 54];
    t[i]
}

pub fn dmc_rate(i: u8) -> (r: u16)
    requires
        i < 16,
    ensures
        r == dmc_rate_table(i as int),
        r >= 54,
{
    let t: [u16; 16] = [428u16, 380, 340, 320, 286, 254, 226, 214, 190, 160, 142, 128, 106, 84, 72, 54];
    assert(t@ =~= seq![428u16, 380, 340, 320, 286, 254, 226, 214, 190, 160, 142, 128, 106, 84, 72, 54]);
    t[i as usize]
}

/// Whether step `step` (0..8) of duty pattern `duty` (0..4) is high.
pub open spec fn duty_high(duty: u8, step: u8) -> bool {
    let patterns = seq![0x02u8, 0x06, 0x1E, 0xF9];
    (patterns[duty as int] >> step) & 1 == 1
}

pub fn duty_bit(duty: u8, step: u8) -> (r: bool)
    requires
        duty < 4,
        step < 8,
    ensures
        r == duty_high(duty, step),
{
    let patterns: [u8; 4] = [0x02u8, 0x06, 0x1E, 0xF9];
    assert(patterns@ =~= seq![0x02u8, 0x06, 0x1E, 0xF9]);
    (patterns[duty as usize] >> step) & 1 == 1
}

} // verus!
