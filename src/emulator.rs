//! The front end over the supported consoles.
use vstd::prelude::*;
use crate::cartridge::CartridgeError;
use crate::genesis::{stripe_frame, Genesis};
use crate::input_state::InputState;
use crate::nes::NES;
use crate::snes::SNES;
use crate::state::{dec_image, enc_image, fits_state, image_of, StateError, StateImage};

verus! {

#[derive(Clone, Copy, Debug, PartialEq, Eq, Structural)]
pub enum SystemType {
    NES,
    SNES,
    Genesis,
}

/// Bytes in one RGBA frame of `s`: 256x240, 256x224 or 320x224 pixels.
pub open spec fn frame_len(s: SystemType) -> nat {
    match s {
        SystemType::NES => 245760,
        SystemType::SNES => 229376,
        SystemType::Genesis => 286720,
    }
}

/// Why a frame could not be run.
#[derive(Clone, Copy, Debug, PartialEq, Eq, Structural)]
pub enum CoreError {
    /// The frame or cycle counter is too large to advance.
    CounterExhausted,
}

/// What the front end asks of a console core.
pub trait EmulatorCore: Sized {
    spec fn core_wf(&self) -> bool;

    /// The last completed frame, RGBA.
    spec fn frame(&self) -> Seq<u8>;

    /// Samples produced and not yet handed out.
    spec fn pending_samples(&self) -> Seq<i16>;

    /// Whether the core can run another frame.
    spec fn can_run(&self) -> bool;

    /// `post` is this core after one frame with `input`.
    spec fn ran_frame(&self, input: InputState, post: &Self) -> bool;

    /// `post` and `r` are what loading cartridge image `d` gives.
    spec fn loaded(&self, d: Seq<u8>, post: &Self, r: Result<(), CartridgeError>) -> bool;

    /// `post` is this core after a reset.
    spec fn reset_done(&self, post: &Self) -> bool;

    /// The save state of this core, or why there is none.
    spec fn state_blob(&self) -> Result<Seq<u8>, StateError>;

    /// `post` is this core after restoring `data`, which gave `r`.
    spec fn restored(&self, data: Seq<u8>, post: &Self, r: Result<(), StateError>) -> bool;

    fn load_rom(&mut self, data: &[u8]) -> (r: Result<(), CartridgeError>)
        requires
            old(self).core_wf(),
        ensures
            final(self).core_wf(),
            old(self).loaded(data@, final(self), r),
    ;

    fn reset(&mut self)
        requires
            old(self).core_wf(),
        ensures
            final(self).core_wf(),
            old(self).reset_done(final(self)),
    ;

    fn run_frame(&mut self, input: &InputState) -> (r: Result<(), CoreError>)
        requires
            old(self).core_wf(),
        ensures
            final(self).core_wf(),
            r is Ok <==> old(self).can_run(),
            r is Ok ==> old(self).ran_frame(*input, final(self)),
            r is Err ==> *final(self) == *old(self),
    ;

    fn get_framebuffer(&self) -> (r: &Vec<u8>)
        ensures
            r@ == self.frame(),
    ;

    /// Hands out the samples produced since the last call.
    fn get_audio_samples(&mut self) -> (r: Vec<i16>)
        requires
            old(self).core_wf(),
        ensures
            final(self).core_wf(),
            r@ == old(self).pending_samples(),
            final(self).pending_samples().len() == 0,
    ;

    fn save_state(&self) -> (r: Result<Vec<u8>, StateError>)
        requires
            self.core_wf(),
        ensures
            match r {
                Ok(b) => self.state_blob() == Ok::<Seq<u8>, StateError>(b@),
                Err(e) => self.state_blob() == Err::<Seq<u8>, StateError>(e),
            },
    ;

    fn load_state(&mut self, data: &[u8]) -> (r: Result<(), StateError>)
        requires
            old(self).core_wf(),
        ensures
            final(self).core_wf(),
            r is Err ==> *final(self) == *old(self),
            old(self).restored(data@, final(self), r),
    ;
}

/// The NES core.
pub struct NESCore {
    pub nes: NES,
}

impl NESCore {
    pub fn new() -> (r: NESCore)
        ensures
            r.nes.wf(),
            crate::ppu::power_on_state(r.nes.bus.ppu@),
    {
        NESCore { nes: NES::new() }
    }
}

impl EmulatorCore for NESCore {
    open spec fn core_wf(&self) -> bool {
        self.nes.wf()
    }

    open spec fn frame(&self) -> Seq<u8> {
        self.nes.bus.ppu@.front
    }

    open spec fn pending_samples(&self) -> Seq<i16> {
        self.nes.bus.apu.audio_buffer@
    }

    open spec fn can_run(&self) -> bool {
        self.nes.frames < 0x100_0000_0000 && self.nes.cycles < 0x1000_0000_0000_0000
    }

    open spec fn ran_frame(&self, input: InputState, post: &Self) -> bool {
        self.nes.frame_run(input, &post.nes)
    }

    open spec fn loaded(&self, d: Seq<u8>, post: &Self, r: Result<(), CartridgeError>) -> bool {
        self.nes.rom_loaded(d, &post.nes, r)
    }

    open spec fn reset_done(&self, post: &Self) -> bool {
        self.nes.reset_effect(&post.nes)
    }

    open spec fn state_blob(&self) -> Result<Seq<u8>, StateError> {
        if fits_state(&self.nes) {
            Ok(enc_image(image_of(&self.nes)))
        } else {
            Err(StateError::TooLarge)
        }
    }

    open spec fn restored(&self, data: Seq<u8>, post: &Self, r: Result<(), StateError>) -> bool {
        match r {
            Ok(()) => dec_image(data) == Ok::<StateImage, StateError>(image_of(&post.nes)),
            Err(e) => dec_image(data) == Err::<StateImage, StateError>(e),
        }
    }

    fn load_rom(&mut self, data: &[u8]) -> (r: Result<(), CartridgeError>) {
        self.nes.load_rom(data)
    }

    fn reset(&mut self) {
        self.nes.reset();
    }

    /// Runs a frame unless the console's counters are spent.
    fn run_frame(&mut self, input: &InputState) -> (r: Result<(), CoreError>) {
        if self.nes.frames >= 0x100_0000_0000 || self.nes.cycles >= 0x1000_0000_0000_0000 {
            return Err(CoreError::CounterExhausted);
        }
        self.nes.run_frame(input);
        Ok(())
    }

    fn get_framebuffer(&self) -> (r: &Vec<u8>) {
        self.nes.get_framebuffer()
    }

    fn get_audio_samples(&mut self) -> (r: Vec<i16>) {
        self.nes.take_audio_samples()
    }

    fn save_state(&self) -> (r: Result<Vec<u8>, StateError>) {
        self.nes.save_state()
    }

    fn load_state(&mut self, data: &[u8]) -> (r: Result<(), StateError>) {
        self.nes.load_state(data)
    }
}

/// The SNES core: frame pacing, and a frame drawn by the application.
pub struct SNESCore {
    pub snes: SNES,
    pub audio_buffer: Vec<i16>,
}

impl SNESCore {
    pub fn new() -> (r: SNESCore)
        ensures
            r.snes.wf(),
            r.snes.cycles() == 0,
            r.snes.frame() == Seq::new(229376, |i: int| 0u8),
            r.audio_buffer@.len() == 0,
    {
        SNESCore { snes: SNES::new(), audio_buffer: Vec::new() }
    }
}

impl EmulatorCore for SNESCore {
    open spec fn core_wf(&self) -> bool {
        self.snes.wf()
    }

    open spec fn frame(&self) -> Seq<u8> {
        self.snes.frame()
    }

    open spec fn pending_samples(&self) -> Seq<i16> {
        self.audio_buffer@
    }

    open spec fn can_run(&self) -> bool {
        true
    }

    open spec fn ran_frame(&self, input: InputState, post: &Self) -> bool {
        &&& post.snes.cycles() == (self.snes.cycles() as int + 89341) % 0x1_0000_0000_0000_0000
        &&& post.snes.frame() == self.snes.frame()
        &&& post.audio_buffer@ == self.audio_buffer@
    }

    open spec fn loaded(&self, d: Seq<u8>, post: &Self, r: Result<(), CartridgeError>) -> bool {
        r is Ok && self.reset_done(post)
    }

    open spec fn reset_done(&self, post: &Self) -> bool {
        &&& post.snes.cycles() == 0
        &&& post.snes.frame() == self.snes.frame()
        &&& post.audio_buffer@ == self.audio_buffer@
    }

    open spec fn state_blob(&self) -> Result<Seq<u8>, StateError> {
        Ok(Seq::empty())
    }

    open spec fn restored(&self, data: Seq<u8>, post: &Self, r: Result<(), StateError>) -> bool {
        r is Ok && *post == *self
    }

    /// Accepts any image.
    fn load_rom(&mut self, data: &[u8]) -> (r: Result<(), CartridgeError>) {
        self.snes.load_rom(data)
    }

    fn reset(&mut self) {
        self.snes.reset();
    }

    fn run_frame(&mut self, input: &InputState) -> (r: Result<(), CoreError>) {
        self.snes.run_frame();
        Ok(())
    }

    fn get_framebuffer(&self) -> (r: &Vec<u8>) {
        self.snes.get_framebuffer()
    }

    fn get_audio_samples(&mut self) -> (r: Vec<i16>) {
        let r = self.audio_buffer.clone();
        assert(r@ =~= self.audio_buffer@);
        self.audio_buffer = Vec::new();
        r
    }

    /// This core keeps no state worth saving: its state is empty.
    fn save_state(&self) -> (r: Result<Vec<u8>, StateError>) {
        let r: Vec<u8> = Vec::new();
        assert(r@ =~= Seq::<u8>::empty());
        Ok(r)
    }

    fn load_state(&mut self, data: &[u8]) -> (r: Result<(), StateError>) {
        Ok(())
    }
}

/// The Genesis core: frame pacing and its diagonal-stripe test frame.
pub struct GenesisCore {
    pub genesis: Genesis,
    pub audio_buffer: Vec<i16>,
}

impl GenesisCore {
    pub fn new() -> (r: GenesisCore)
        ensures
            r.genesis.wf(),
            r.genesis.cycles() == 0,
            r.genesis.frame() == Seq::new(286720, |i: int| 0u8),
            r.audio_buffer@.len() == 0,
    {
        GenesisCore { genesis: Genesis::new(), audio_buffer: Vec::new() }
    }
}

impl EmulatorCore for GenesisCore {
    open spec fn core_wf(&self) -> bool {
        self.genesis.wf()
    }

    open spec fn frame(&self) -> Seq<u8> {
        self.genesis.frame()
    }

    open spec fn pending_samples(&self) -> Seq<i16> {
        self.audio_buffer@
    }

    open spec fn can_run(&self) -> bool {
        true
    }

    open spec fn ran_frame(&self, input: InputState, post: &Self) -> bool {
        &&& post.genesis.cycles() == (self.genesis.cycles() as int + 127840) % 0x1_0000_0000_0000_0000
        &&& post.genesis.frame() == stripe_frame(post.genesis.cycles())
        &&& post.audio_buffer@ == self.audio_buffer@
    }

    open spec fn loaded(&self, d: Seq<u8>, post: &Self, r: Result<(), CartridgeError>) -> bool {
        r is Ok && self.reset_done(post)
    }

    open spec fn reset_done(&self, post: &Self) -> bool {
        &&& post.genesis.cycles() == 0
        &&& post.genesis.frame() == stripe_frame(0)
        &&& post.audio_buffer@ == self.audio_buffer@
    }

    open spec fn state_blob(&self) -> Result<Seq<u8>, StateError> {
        Ok(Seq::empty())
    }

    open spec fn restored(&self, data: Seq<u8>, post: &Self, r: Result<(), StateError>) -> bool {
        r is Ok && *post == *self
    }

    /// Accepts any image.
    fn load_rom(&mut self, data: &[u8]) -> (r: Result<(), CartridgeError>) {
        self.genesis.load_rom(data)
    }

    fn reset(&mut self) {
        self.genesis.reset();
    }

    fn run_frame(&mut self, input: &InputState) -> (r: Result<(), CoreError>) {
        self.genesis.run_frame();
        Ok(())
    }

    fn get_framebuffer(&self) -> (r: &Vec<u8>) {
        self.genesis.get_framebuffer()
    }

    fn get_audio_samples(&mut self) -> (r: Vec<i16>) {
        let r = self.audio_buffer.clone();
        assert(r@ =~= self.audio_buffer@);
        self.audio_buffer = Vec::new();
        r
    }

    /// This core keeps no state worth saving: its state is empty.
    fn save_state(&self) -> (r: Result<Vec<u8>, StateError>) {
        let r: Vec<u8> = Vec::new();
        assert(r@ =~= Seq::<u8>::empty());
        Ok(r)
    }

    fn load_state(&mut self, data: &[u8]) -> (r: Result<(), StateError>) {
        Ok(())
    }
}

/// The core behind an emulator, one per system.
pub enum Core {
    Nes(NESCore),
    Snes(SNESCore),
    Genesis(GenesisCore),
}

/// An emulator for one system.
pub struct Emulator {
    system_type: SystemType,
    core: Core,
}

impl Emulator {
    pub closed spec fn system(&self) -> SystemType {
        self.system_type
    }

    pub closed spec fn wf(&self) -> bool {
        &&& match self.core {
            Core::Nes(c) => self.system_type == SystemType::NES && c.core_wf(),
            Core::Snes(c) => self.system_type == SystemType::SNES && c.core_wf(),
            Core::Genesis(c) => self.system_type == SystemType::Genesis && c.core_wf(),
        }
        &&& self.frame().len() == frame_len(self.system_type)
    }

    /// The core's last completed frame, RGBA.
    pub closed spec fn frame(&self) -> Seq<u8> {
        match self.core {
            Core::Nes(c) => c.frame(),
            Core::Snes(c) => c.frame(),
            Core::Genesis(c) => c.frame(),
        }
    }

    pub closed spec fn pending_samples(&self) -> Seq<i16> {
        match self.core {
            Core::Nes(c) => c.pending_samples(),
            Core::Snes(c) => c.pending_samples(),
            Core::Genesis(c) => c.pending_samples(),
        }
    }

    /// Whether another frame can be run.
    pub closed spec fn can_run(&self) -> bool {
        match self.core {
            Core::Nes(c) => c.can_run(),
            Core::Snes(c) => c.can_run(),
            Core::Genesis(c) => c.can_run(),
        }
    }

    /// `post` is this emulator after one frame with `input`, as its core
    /// defines a frame.
    pub closed spec fn ran_frame(&self, input: InputState, post: &Emulator) -> bool {
        match (self.core, post.core) {
            (Core::Nes(c), Core::Nes(p)) => c.ran_frame(input, &p),
            (Core::Snes(c), Core::Snes(p)) => c.ran_frame(input, &p),
            (Core::Genesis(c), Core::Genesis(p)) => c.ran_frame(input, &p),
            _ => false,
        }
    }

    /// `post` and `r` are what loading image `d` gives, as the core defines it.
    pub closed spec fn loaded(&self, d: Seq<u8>, post: &Emulator, r: Result<(), CartridgeError>) -> bool {
        match (self.core, post.core) {
            (Core::Nes(c), Core::Nes(p)) => c.loaded(d, &p, r),
            (Core::Snes(c), Core::Snes(p)) => c.loaded(d, &p, r),
            (Core::Genesis(c), Core::Genesis(p)) => c.loaded(d, &p, r),
            _ => false,
        }
    }

    /// `post` is this emulator after a reset, as the core defines it.
    pub closed spec fn reset_done(&self, post: &Emulator) -> bool {
        match (self.core, post.core) {
            (Core::Nes(c), Core::Nes(p)) => c.reset_done(&p),
            (Core::Snes(c), Core::Snes(p)) => c.reset_done(&p),
            (Core::Genesis(c), Core::Genesis(p)) => c.reset_done(&p),
            _ => false,
        }
    }

    /// The core's save state, or why there is none. For the NES it is the
    /// console's image, encoded.
    pub closed spec fn state_blob(&self) -> Result<Seq<u8>, StateError> {
        match self.core {
            Core::Nes(c) => c.state_blob(),
            Core::Snes(c) => c.state_blob(),
            Core::Genesis(c) => c.state_blob(),
        }
    }

    /// `post` is this emulator after restoring `data`, which gave `r`.
    pub closed spec fn restored(&self, data: Seq<u8>, post: &Emulator, r: Result<(), StateError>) -> bool {
        match (self.core, post.core) {
            (Core::Nes(c), Core::Nes(p)) => c.restored(data, &p, r),
            (Core::Snes(c), Core::Snes(p)) => c.restored(data, &p, r),
            (Core::Genesis(c), Core::Genesis(p)) => c.restored(data, &p, r),
            _ => false,
        }
    }

    /// An emulator for `system_type` with nothing loaded and a black frame
    /// of the system's size.
    pub fn new(system_type: SystemType) -> (r: Emulator)
        ensures
            r.wf(),
            r.system() == system_type,
            r.frame().len() == frame_len(system_type),
            r.frame() == Seq::new(frame_len(system_type), |i: int| 0u8),
    {
        let core = match system_type {
            SystemType::NES => Core::Nes(NESCore::new()),
            SystemType::SNES => Core::Snes(SNESCore::new()),
            SystemType::Genesis => Core::Genesis(GenesisCore::new()),
        };
        Emulator { system_type, core }
    }

    pub fn system_type(&self) -> (r: SystemType)
        ensures
            r == self.system(),
    {
        self.system_type
    }

    /// Loads a cartridge image into the core.
    pub fn load_rom(&mut self, data: &[u8]) -> (r: Result<(), CartridgeError>)
        requires
            old(self).wf(),
        ensures
            final(self).wf(),
            final(self).system() == old(self).system(),
            old(self).loaded(data@, final(self), r),
    {
        match &mut self.core {
            Core::Nes(c) => c.load_rom(data),
            Core::Snes(c) => c.load_rom(data),
            Core::Genesis(c) => c.load_rom(data),
        }
    }

    pub fn reset(&mut self)
        requires
            old(self).wf(),
        ensures
            final(self).wf(),
            final(self).system() == old(self).system(),
            old(self).reset_done(final(self)),
    {
        match &mut self.core {
            Core::Nes(c) => c.reset(),
            Core::Snes(c) => c.reset(),
            Core::Genesis(c) => c.reset(),
        }
    }

    /// Runs one frame with `input`.
    pub fn run_frame(&mut self, input: &InputState) -> (r: Result<(), CoreError>)
        requires
            old(self).wf(),
        ensures
            final(self).wf(),
            final(self).system() == old(self).system(),
            r is Ok <==> old(self).can_run(),
            r is Ok ==> old(self).ran_frame(*input, final(self)),
            r is Err ==> *final(self) == *old(self),
    {
        match &mut self.core {
            Core::Nes(c) => c.run_frame(input),
            Core::Snes(c) => c.run_frame(input),
            Core::Genesis(c) => c.run_frame(input),
        }
    }

    /// The last completed frame, RGBA.
    pub fn get_framebuffer(&self) -> (r: &Vec<u8>)
        ensures
            r@ == self.frame(),
    {
        match &self.core {
            Core::Nes(c) => c.get_framebuffer(),
            Core::Snes(c) => c.get_framebuffer(),
            Core::Genesis(c) => c.get_framebuffer(),
        }
    }

    /// Cycles the SNES core has run, for drawing its frame; `None` for the
    /// other systems.
    pub fn snes_cycles(&self) -> (r: Option<u64>)
        requires
            self.wf(),
        ensures
            r matches Some(c) ==> self.system() == SystemType::SNES,
            self.system() == SystemType::SNES ==> r is Some,
    {
        match &self.core {
            Core::Snes(c) => Some(c.snes.cpu_cycles()),
            _ => None,
        }
    }

    /// Hands the SNES core a drawn frame; returns whether it was taken (the
    /// core is the SNES and the frame is 256x224 RGBA).
    pub fn set_snes_frame(&mut self, frame: Vec<u8>) -> (r: bool)
        requires
            old(self).wf(),
        ensures
            final(self).wf(),
            final(self).system() == old(self).system(),
            r == (old(self).system() == SystemType::SNES && frame@.len() == 229376),
            r ==> final(self).frame() == frame@,
            !r ==> final(self).frame() == old(self).frame(),
    {
        match &mut self.core {
            Core::Snes(c) => c.snes.set_framebuffer(frame),
            _ => false,
        }
    }

    /// Drains the samples produced since the last call.
    pub fn get_audio_samples(&mut self) -> (r: Vec<i16>)
        requires
            old(self).wf(),
        ensures
            final(self).wf(),
            final(self).system() == old(self).system(),
            r@ == old(self).pending_samples(),
            final(self).pending_samples().len() == 0,
    {
        match &mut self.core {
            Core::Nes(c) => c.get_audio_samples(),
            Core::Snes(c) => c.get_audio_samples(),
            Core::Genesis(c) => c.get_audio_samples(),
        }
    }

    /// The core's save state.
    pub fn save_state(&self) -> (r: Result<Vec<u8>, StateError>)
        requires
            self.wf(),
        ensures
            match r {
                Ok(b) => self.state_blob() == Ok::<Seq<u8>, StateError>(b@),
                Err(e) => self.state_blob() == Err::<Seq<u8>, StateError>(e),
            },
    {
        match &self.core {
            Core::Nes(c) => c.save_state(),
            Core::Snes(c) => c.save_state(),
            Core::Genesis(c) => c.save_state(),
        }
    }

    /// Restores a save state; on error nothing changes.
    pub fn load_state(&mut self, data: &[u8]) -> (r: Result<(), StateError>)
        requires
            old(self).wf(),
        ensures
            final(self).wf(),
            final(self).system() == old(self).system(),
            r is Err ==> *final(self) == *old(self),
            old(self).restored(data@, final(self), r),
    {
        match &mut self.core {
            Core::Nes(c) => c.load_state(data),
            Core::Snes(c) => c.load_state(data),
            Core::Genesis(c) => c.load_state(data),
        }
    }
}

} // verus!
