//! Genesis / Mega Drive core: frame pacing and a diagonal-stripe test frame.
use vstd::prelude::*;
use crate::cartridge::CartridgeError;

verus! {

pub const GENESIS_WIDTH: usize = 320;
pub const GENESIS_HEIGHT: usize = 224;
pub const GENESIS_FRAME_BYTES: usize = 286720;
/// Main-CPU cycles in one frame.
pub const GENESIS_FRAME_CYCLES: u64 = 127840;

/// Darkens a channel of an even scanline to four fifths.
pub open spec fn dim(v: u8) -> u8 {
    (v as int * 4 / 5) as u8
}

/// Byte `c` (0..4: red, green, blue, alpha) of pixel (x, y) after `cycles`.
pub open spec fn stripe_byte(cycles: u64, x: int, y: int, c: int) -> u8 {
    let pos = ((cycles as int / 1000) % 32 + x + y) % 32;
    let v: u8 = if c == 3 {
        255
    } else if pos < 16 {
        if c == 0 { 0 } else if c == 1 { 100 } else { 255 }
    } else {
        if c == 0 { 20 } else if c == 1 { 20 } else { 60 }
    };
    if c != 3 && y % 2 == 0 {
        dim(v)
    } else {
        v
    }
}

/// The whole test frame after `cycles`, RGBA row by row.
pub open spec fn stripe_frame(cycles: u64) -> Seq<u8> {
    Seq::new(286720, |i: int| stripe_byte(cycles, (i / 4) % 320, (i / 4) / 320, i % 4))
}

pub struct Genesis {
    cpu_cycles: u64,
    framebuffer: Vec<u8>,
}

impl Genesis {
    pub closed spec fn cycles(&self) -> u64 {
        self.cpu_cycles
    }

    pub closed spec fn frame(&self) -> Seq<u8> {
        self.framebuffer@
    }

    pub open spec fn wf(&self) -> bool {
        self.frame().len() == 286720
    }

    /// A core at cycle 0 with a black frame.
    pub fn new() -> (r: Genesis)
        ensures
            r.wf(),
            r.cycles() == 0,
            r.frame() == Seq::new(286720, |i: int| 0u8),
    {
        let framebuffer: Vec<u8> = vec![0u8; GENESIS_FRAME_BYTES];
        let r = Genesis { cpu_cycles: 0, framebuffer };
        assert(r.frame() =~= Seq::new(286720, |i: int| 0u8));
        r
    }

    /// Accepts any image and resets.
    pub fn load_rom(&mut self, rom_data: &[u8]) -> (r: Result<(), CartridgeError>)
        requires
            old(self).wf(),
        ensures
            r is Ok,
            final(self).wf(),
            final(self).cycles() == 0,
            final(self).frame() == stripe_frame(0),
    {
        self.reset();
        Ok(())
    }

    /// Back to cycle 0, with the test frame redrawn.
    pub fn reset(&mut self)
        requires
            old(self).wf(),
        ensures
            final(self).wf(),
            final(self).cycles() == 0,
            final(self).frame() == stripe_frame(0),
    {
        self.cpu_cycles = 0;
        self.render_test_pattern();
    }

    /// Advances one frame of cycles (wrapping) and redraws the test frame.
    pub fn run_frame(&mut self)
        requires
            old(self).wf(),
        ensures
            final(self).wf(),
            final(self).cycles() == (old(self).cycles() as int + 127840) % 0x1_0000_0000_0000_0000,
            final(self).frame() == stripe_frame(final(self).cycles()),
    {
        self.cpu_cycles = self.cpu_cycles.wrapping_add(GENESIS_FRAME_CYCLES);
        self.render_test_pattern();
    }

    pub fn get_framebuffer(&self) -> (r: &Vec<u8>)
        ensures
            r@ == self.frame(),
    {
        &self.framebuffer
    }

    fn render_test_pattern(&mut self)
        requires
            old(self).wf(),
        ensures
            final(self).wf(),
            final(self).cycles() == old(self).cycles(),
            final(self).frame() == stripe_frame(old(self).cycles()),
    {
        let phase = ((self.cpu_cycles / 1000) % 32) as usize;
        let mut p: usize = 0;
        while p < 71680
            invariant
                self.wf(),
                self.cycles() == old(self).cycles(),
                phase as int == (self.cycles() as int / 1000) % 32,
                p <= 71680,
                forall|j: int| 0 <= j < p * 4 ==> self.frame()[j] == stripe_frame(self.cycles())[j],
            decreases 71680 - p,
        {
            let x = p % 320;
            let y = p / 320;
            let pos = (phase + x + y) % 32;
            let (r, g, b): (u8, u8, u8) = if pos < 16 {
                (0, 100, 255)
            } else {
                (20, 20, 60)
            };
            let (r, g, b) = if y % 2 == 0 {
                ((r as u16 * 4 / 5) as u8, (g as u16 * 4 / 5) as u8, (b as u16 * 4 / 5) as u8)
            } else {
                (r, g, b)
            };
            let o = p * 4;
            self.framebuffer.set(o, r);
            self.framebuffer.set(o + 1, g);
            self.framebuffer.set(o + 2, b);
            self.framebuffer.set(o + 3, 255);
            assert forall|j: int| 0 <= j < (p + 1) * 4 implies self.frame()[j] == stripe_frame(
                self.cycles(),
            )[j] by {
                if j >= o {
                    assert((j / 4) == p as int);
                }
            }
            p = p + 1;
        }
        assert(self.frame() =~= stripe_frame(self.cycles()));
    }
}

} // verus!
