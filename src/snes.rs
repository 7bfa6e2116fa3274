//! SNES core: frame pacing and the frame buffer. Its animated test frame is
//! drawn with floating-point trigonometry by the application.
use vstd::prelude::*;
use crate::cartridge::CartridgeError;

verus! {

pub const SNES_WIDTH: usize = 256;
pub const SNES_HEIGHT: usize = 224;
pub const SNES_FRAME_BYTES: usize = 229376;
/// Master-clock cycles in one frame.
pub const SNES_FRAME_CYCLES: u64 = 89341;

pub struct SNES {
    cpu_cycles: u64,
    framebuffer: Vec<u8>,
}

impl SNES {
    pub closed spec fn cycles(&self) -> u64 {
        self.cpu_cycles
    }

    pub closed spec fn frame(&self) -> Seq<u8> {
        self.framebuffer@
    }

    pub open spec fn wf(&self) -> bool {
        self.frame().len() == 229376
    }

    /// A core at cycle 0 with a black frame.
    pub fn new() -> (r: SNES)
        ensures
            r.wf(),
            r.cycles() == 0,
            r.frame() == Seq::new(229376, |i: int| 0u8),
    {
        let framebuffer: Vec<u8> = vec![0u8; SNES_FRAME_BYTES];
        let r = SNES { cpu_cycles: 0, framebuffer };
        assert(r.frame() =~= Seq::new(229376, |i: int| 0u8));
        r
    }

    /// Accepts any image and resets.
    pub fn load_rom(&mut self, rom_data: &[u8]) -> (r: Result<(), CartridgeError>)
        requires
            old(self).wf(),
        ensures
            r is Ok,
            final(self).wf(),
            final(self).cycles() == 0,
            final(self).frame() == old(self).frame(),
    {
        self.reset();
        Ok(())
    }

    /// Back to cycle 0.
    pub fn reset(&mut self)
        ensures
            final(self).cycles() == 0,
            final(self).frame() == old(self).frame(),
    {
        self.cpu_cycles = 0;
    }

    /// Advances one frame of cycles (wrapping).
    pub fn run_frame(&mut self)
        ensures
            final(self).cycles() == (old(self).cycles() as int + 89341) % 0x1_0000_0000_0000_0000,
            final(self).frame() == old(self).frame(),
    {
        self.cpu_cycles = self.cpu_cycles.wrapping_add(SNES_FRAME_CYCLES);
    }

    /// Cycles run since the last reset.
    pub fn cpu_cycles(&self) -> (r: u64)
        ensures
            r == self.cycles(),
    {
        self.cpu_cycles
    }

    pub fn get_framebuffer(&self) -> (r: &Vec<u8>)
        ensures
            r@ == self.frame(),
    {
        &self.framebuffer
    }

    /// Replaces the frame with `frame` if it has the right size (256x224
    /// RGBA); returns whether it did.
    pub fn set_framebuffer(&mut self, frame: Vec<u8>) -> (r: bool)
        ensures
            r == (frame@.len() == 229376),
            r ==> final(self).frame() == frame@,
            !r ==> final(self).frame() == old(self).frame(),
            final(self).cycles() == old(self).cycles(),
    {
        if frame.len() == SNES_FRAME_BYTES {
            self.framebuffer = frame;
            true
        } else {
            false
        }
    }
}

} // verus!
