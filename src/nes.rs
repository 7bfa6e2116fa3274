//! The console: one CPU, and the bus with its picture unit, sound unit and
//! cartridge, clocked together at the fixed 1 : 3 : 1 ratio.
use vstd::prelude::*;
use crate::bus::Bus;
use crate::cartridge::{parse_error, CartridgeError};
use crate::apu::APU;
use crate::cpu::{after_fetch, executes, operand_address, pushed_frame, ran_instruction, store_value, word_of, Cpu6502};
use crate::opcodes::{cycle_cost, instr_of, is_branch, is_rmw, is_store, Mode};
use crate::input_state::{pad_byte, InputState};
use crate::mapper::Mapper;
use crate::ppu::{lemma_step_advances_raster, lemma_step_keeps_oam, power_on_state, raster_pos, reset_state};
use crate::cartridge::{chr_len, chr_of, mirroring_of, prg_len};
use crate::mapper::Board;

verus! {

/// PPU dots in one frame: 341 dots by 262 scanlines.
pub const FRAME_DOTS: u64 = 89342;

/// Most CPU cycles one `step` can take: an interrupt entry, the longest
/// instruction with both branch penalties, and an odd-cycle OAM DMA.
pub const MAX_STEP_CYCLES: u32 = 530;

/// CPU cycles owed after `frames` frames: frames * 29780⅔, rounded up, so
/// no frame ends short. The fraction is carried, never dropped.
pub open spec fn frame_target(frames: int) -> int {
    (frames * 89342 + 2) / 3
}

/// CPU cycles an OAM DMA stalls for when it starts at CPU cycle `cycle`.
pub open spec fn dma_stall(cycle: int) -> int {
    513 + cycle % 2
}

/// Byte `j` of page `page`, where reading it has no side effect.
pub open spec fn dma_byte(b: &Bus, page: u8, j: int) -> u8 {
    match b.peek((page as int * 256 + j) as u16) {
        Some(v) => v,
        None => 0,
    }
}

/// Every byte of page `page` lies in work RAM or cartridge space.
pub open spec fn dma_source_pure(b: &Bus, page: u8) -> bool {
    forall|j: int| 0 <= j < 256 ==> (#[trigger] b.peek((page as int * 256 + j) as u16)) is Some
}

/// The APU clocked `n` cycles from `a`, its sample queue left as it was.
pub open spec fn apu_run(a: APU, cart: Board, n: nat) -> APU
    decreases n,
{
    if n == 0 {
        a
    } else {
        let p = apu_run(a, cart, (n - 1) as nat);
        APU { audio_buffer: a.audio_buffer, ..p.after_clocks(cart) }
    }
}

/// Clocking leaves the sample queue as it was.
pub proof fn lemma_apu_run_audio(a: APU, cart: Board, n: nat)
    ensures
        apu_run(a, cart, n).audio_buffer == a.audio_buffer,
{
}

/// Each clock advances the APU's cycle count by one.
pub proof fn lemma_apu_run_clocks(a: APU, cart: Board, n: nat)
    ensures
        apu_run(a, cart, n).clocks == (a.clocks as int + n) % 0x1_0000_0000_0000_0000,
    decreases n,
{
    if n > 0 {
        lemma_apu_run_clocks(a, cart, (n - 1) as nat);
        apu_run(a, cart, (n - 1) as nat).lemma_after_clocks_ignores_audio(a.audio_buffer, cart);
    }
}

/// The console.
pub struct NES {
    pub cpu: Cpu6502,
    pub bus: Bus,
    /// CPU cycles since the last reset.
    pub cycles: u64,
    /// Frames run since the last reset.
    pub frames: u64,
    /// Stall cycles the last `step` spent on OAM DMA (0 when none ran).
    pub last_stall: u32,
}

impl NES {
    pub open spec fn wf(&self) -> bool {
        self.bus.wf()
    }

    /// No interrupt is taken before the next instruction.
    pub open spec fn no_interrupt(&self) -> bool {
        !self.bus.ppu@.nmi && (!self.bus.apu.irq_line() || self.cpu.irq_disable)
    }

    /// `post` is this console after entering an interrupt through `vector`:
    /// PC high, PC low and the status byte pushed, SP down by three,
    /// interrupts disabled, PC loaded from the vector.
    pub open spec fn interrupt_entry(&self, post: &NES, vector: u16) -> bool {
        &&& post.bus.ram@ == pushed_frame(self.bus.ram@, self.cpu, false)
        &&& post.cpu == (Cpu6502 {
            pc: word_of(self.bus.board.cpu_byte(vector), self.bus.board.cpu_byte((vector + 1) as u16)),
            sp: ((self.cpu.sp as int + 253) % 256) as u8,
            irq_disable: true,
            ..self.cpu
        })
    }

    /// The cost of the instruction `opcode` at PC: its base cost, page and
    /// branch penalties, and an OAM DMA stall when it stores to 0x4014.
    pub open spec fn instruction_timing(&self, opcode: u8, r: u32, stall: u32) -> bool {
        let i = instr_of(opcode);
        match operand_address(&self.bus, after_fetch(self.cpu), i.mode) {
            Some((addr, cr)) => {
                let taken = is_branch(i.op) && self.cpu.branch_taken(i.op);
                let cost = cycle_cost(i, cr && i.page_penalty, taken, taken && cr);
                let dma = addr == 0x4014 && (is_store(i.op) || (is_rmw(i.op) && i.mode != Mode::Accumulator));
                &&& !dma && self.bus.dma_page is None ==> r == cost && stall == 0
                &&& (addr == 0x4014 && is_store(i.op) && self.bus.dma_page is None) ==> {
                    let page = store_value(i.op, self.cpu);
                    &&& stall as int == dma_stall(self.cycles + cost)
                    &&& r == cost + stall
                }
            },
            None => true,
        }
    }

    /// When the instruction `opcode` at PC stores page number `page` to
    /// 0x4014 and every byte of that page lies in RAM or cartridge space,
    /// `oam` holds the page, starting at the OAM address.
    pub open spec fn dma_copied(&self, opcode: u8, oam: Seq<u8>) -> bool {
        let i = instr_of(opcode);
        match operand_address(&self.bus, after_fetch(self.cpu), i.mode) {
            Some((addr, _)) => (addr == 0x4014 && is_store(i.op) && self.bus.dma_page is None
                && dma_source_pure(&self.bus, store_value(i.op, self.cpu))) ==> forall|j: int|
                0 <= j < 256 ==> oam[(self.bus.ppu@.oam_addr as int + j) % 256] == #[trigger] dma_byte(
                &self.bus,
                store_value(i.op, self.cpu),
                j,
            ),
            None => true,
        }
    }

    /// Whether `post` is this console after a reset: the CPU restarted through
    /// the reset vector, then the PPU latches and counters, then the APU,
    /// cleared; cartridge, work RAM and controller kept.
    pub open spec fn reset_effect(&self, post: &NES) -> bool {
        &&& post.cpu == (Cpu6502 {
            pc: word_of(self.bus.board.cpu_byte(0xFFFC), self.bus.board.cpu_byte(0xFFFD)),
            sp: 0xFD,
            carry: false,
            zero: false,
            irq_disable: true,
            decimal: false,
            overflow: false,
            negative: false,
            ..self.cpu
        })
        &&& post.bus.board == self.bus.board
        &&& post.bus.ram@ == self.bus.ram@
        &&& post.bus.pad == self.bus.pad
        &&& post.bus.dma_page == self.bus.dma_page
        &&& post.bus.ppu@ == reset_state(self.bus.ppu@)
        &&& post.bus.apu.powered_on()
        &&& post.cycles == 0 && post.frames == 0 && post.last_stall == 0
    }

    /// A console with no cartridge, every unit at power-on.
    pub fn new() -> (r: NES)
        ensures
            r.wf(),
            r.cycles == 0 && r.frames == 0 && r.last_stall == 0,
            r.cpu == Cpu6502::power_on(),
            r.bus.ram@ == Seq::new(0x800, |i: int| 0u8),
            (r.bus.board matches Board::Nrom(m) && m.prg().len() == 0),
            power_on_state(r.bus.ppu@),
            r.bus.apu.powered_on(),
    {
        NES { cpu: Cpu6502::new(), bus: Bus::new(), cycles: 0, frames: 0, last_stall: 0 }
    }

    /// Resets the CPU through its reset vector, then the PPU and the APU;
    /// the cartridge and work RAM are kept.
    pub fn reset(&mut self)
        requires
            old(self).wf(),
        ensures
            final(self).wf(),
            old(self).reset_effect(final(self)),
    {
        self.cpu.reset(&mut self.bus);
        self.bus.ppu.reset();
        self.bus.apu.reset();
        self.cycles = 0;
        self.frames = 0;
        self.last_stall = 0;
    }

    /// `post` and `r` are what loading image `d` into this console gives: a
    /// well-formed image is installed and the console reset; a malformed one
    /// is refused with its error and nothing changes.
    pub open spec fn rom_loaded(&self, d: Seq<u8>, post: &NES, r: Result<(), CartridgeError>) -> bool {
        match parse_error(d) {
            None => r is Ok && exists|loaded: Bus|
                #[trigger] self.bus.installed(&loaded, d) && (NES { bus: loaded, ..*self }).reset_effect(post),
            Some(e) => r == Err::<(), CartridgeError>(e) && *post == *self,
        }
    }

    /// Loads an iNES image and resets. A well-formed image always loads; a
    /// malformed one is refused and the console is left exactly as it was.
    pub fn load_rom(&mut self, rom_data: &[u8]) -> (r: Result<(), CartridgeError>)
        requires
            old(self).wf(),
        ensures
            final(self).wf(),
            old(self).rom_loaded(rom_data@, final(self), r),
    {
        match self.bus.load_cartridge(rom_data) {
            Ok(()) => {},
            Err(e) => return Err(e),
        }
        let ghost loaded = self.bus;
        self.reset();
        assert(old(self).bus.installed(&loaded, rom_data@));
        Ok(())
    }

    /// Copies page `page` of the CPU address space into sprite memory,
    /// starting at the OAM address.
    fn oam_dma(&mut self, page: u8)
        requires
            old(self).wf(),
        ensures
            final(self).wf(),
            old(self).bus.undisturbed(&final(self).bus),
            final(self).cpu == old(self).cpu,
            final(self).cycles == old(self).cycles,
            final(self).frames == old(self).frames,
            final(self).last_stall == old(self).last_stall,
            final(self).bus.pad.buttons == old(self).bus.pad.buttons,
            final(self).bus.ram@ == old(self).bus.ram@,
            final(self).bus.board == old(self).bus.board,
            dma_source_pure(&old(self).bus, page)
                ==> forall|j: int| 0 <= j < 256 ==> final(self).bus.ppu@.oam[(old(self).bus.ppu@.oam_addr as int + j) % 256]
                == #[trigger] dma_byte(&old(self).bus, page, j),
    {
        let ghost start = self.bus.ppu@.oam_addr as int;
        let ghost all_pure = dma_source_pure(&old(self).bus, page);
        let mut i: u16 = 0;
        while i < 256
            invariant
                self.wf(),
                i <= 256,
                old(self).bus.undisturbed(&self.bus),
                self.cpu == old(self).cpu,
                self.cycles == old(self).cycles,
                self.frames == old(self).frames,
                self.last_stall == old(self).last_stall,
                self.bus.pad.buttons == old(self).bus.pad.buttons,
                self.bus.ram@ == old(self).bus.ram@,
                self.bus.board == old(self).bus.board,
                all_pure == dma_source_pure(&old(self).bus, page),
                all_pure ==> self.bus.ram@ == old(self).bus.ram@ && self.bus.board == old(self).bus.board,
                all_pure ==> self.bus.ppu@.oam_addr as int == (start + i) % 256,
                all_pure ==> forall|j: int| 0 <= j < i ==> self.bus.ppu@.oam[(start + j) % 256]
                    == #[trigger] dma_byte(&old(self).bus, page, j),
            decreases 256 - i,
        {
            let ghost k = i as int;
            let v = self.bus.read(page as u16 * 256 + i);
            proof {
                if all_pure {
                    assert(old(self).bus.peek((page as int * 256 + k) as u16) is Some);
                    assert(v == dma_byte(&old(self).bus, page, k));
                }
            }
            let ghost before = self.bus.ppu@.oam;
            self.bus.ppu.write_oam_data(v);
            proof {
                if all_pure {
                    assert forall|j: int| 0 <= j < k + 1 implies self.bus.ppu@.oam[(start + j) % 256]
                        == #[trigger] dma_byte(&old(self).bus, page, j) by {
                        if j < k {
                            assert((start + j) % 256 != (start + k) % 256);
                            assert(self.bus.ppu@.oam[(start + j) % 256] == before[(start + j) % 256]);
                        }
                    }
                }
            }
            i = i + 1;
        }
    }

    /// Runs the picture unit for `dots` dots.
    fn run_ppu(&mut self, dots: u32)
        requires
            old(self).wf(),
        ensures
            final(self).wf(),
            raster_pos(final(self).bus.ppu@) == (raster_pos(old(self).bus.ppu@) + dots) % 89342,
            final(self).bus.ppu@.oam == old(self).bus.ppu@.oam,
            final(self).bus.ppu@.oam_addr == old(self).bus.ppu@.oam_addr,
            final(self).bus.ram@ == old(self).bus.ram@,
            final(self).bus.board == old(self).bus.board,
            final(self).bus.apu == old(self).bus.apu,
            final(self).bus.pad == old(self).bus.pad,
            final(self).bus.dma_page == old(self).bus.dma_page,
            final(self).cpu == old(self).cpu,
            final(self).cycles == old(self).cycles,
            final(self).frames == old(self).frames,
            final(self).last_stall == old(self).last_stall,
    {
        let mut i: u32 = 0;
        while i < dots
            invariant
                self.wf(),
                i <= dots,
                raster_pos(self.bus.ppu@) == (raster_pos(old(self).bus.ppu@) + i) % 89342,
                self.bus.ppu@.oam == old(self).bus.ppu@.oam,
                self.bus.ppu@.oam_addr == old(self).bus.ppu@.oam_addr,
                self.bus.ram@ == old(self).bus.ram@,
                self.bus.board == old(self).bus.board,
                self.bus.apu == old(self).bus.apu,
                self.bus.pad == old(self).bus.pad,
                self.bus.dma_page == old(self).bus.dma_page,
                self.cpu == old(self).cpu,
                self.cycles == old(self).cycles,
                self.frames == old(self).frames,
                self.last_stall == old(self).last_stall,
            decreases dots - i,
        {
            proof {
                lemma_step_advances_raster(self.bus.ppu@, self.bus.board);
                lemma_step_keeps_oam(self.bus.ppu@, self.bus.board);
            }
            self.bus.step_ppu();
            i = i + 1;
        }
    }

    /// Runs the sound unit for `cycles` CPU cycles.
    fn run_apu(&mut self, cycles: u32)
        requires
            old(self).wf(),
        ensures
            final(self).wf(),
            final(self).bus.apu == (APU { audio_buffer: final(self).bus.apu.audio_buffer, ..apu_run(old(self).bus.apu, old(self).bus.board, cycles as nat) }),
            final(self).bus.ppu == old(self).bus.ppu,
            final(self).bus.ram@ == old(self).bus.ram@,
            final(self).bus.board == old(self).bus.board,
            final(self).bus.pad == old(self).bus.pad,
            final(self).bus.dma_page == old(self).bus.dma_page,
            final(self).cpu == old(self).cpu,
            final(self).cycles == old(self).cycles,
            final(self).frames == old(self).frames,
            final(self).last_stall == old(self).last_stall,
    {
        let mut i: u32 = 0;
        while i < cycles
            invariant
                self.wf(),
                i <= cycles,
                self.bus.apu == (APU { audio_buffer: self.bus.apu.audio_buffer, ..apu_run(old(self).bus.apu, old(self).bus.board, i as nat) }),
                self.bus.ppu == old(self).bus.ppu,
                self.bus.ram@ == old(self).bus.ram@,
                self.bus.board == old(self).bus.board,
                self.bus.pad == old(self).bus.pad,
                self.bus.dma_page == old(self).bus.dma_page,
                self.cpu == old(self).cpu,
                self.cycles == old(self).cycles,
                self.frames == old(self).frames,
                self.last_stall == old(self).last_stall,
            decreases cycles - i,
        {
            let ghost prev = self.bus.apu;
            proof {
                apu_run(old(self).bus.apu, old(self).bus.board, i as nat).lemma_after_clocks_ignores_audio(prev.audio_buffer, old(self).bus.board);
            }
            self.bus.step_apu();
            i = i + 1;
        }
    }

    /// Executes one instruction and the OAM DMA it requests; returns the
    /// CPU cycles they took. The PPU and APU are not run.
    #[verifier::rlimit(100)]
    fn execute_instruction(&mut self) -> (r: u32)
        requires
            old(self).wf(),
            old(self).cycles < 0x4000_0000_0000_0000,
        ensures
            final(self).wf(),
            2 <= r <= 9 + 514,
            final(self).cycles == old(self).cycles,
            final(self).frames == old(self).frames,
            old(self).bus.undisturbed(&final(self).bus),
            final(self).last_stall == 0 || final(self).last_stall as int == dma_stall(
                old(self).cycles + r - final(self).last_stall,
            ),
            r >= final(self).last_stall,
            old(self).bus.peek(old(self).cpu.pc) matches Some(b) ==> ran_instruction(
                old(self).cpu,
                &old(self).bus,
                final(self).cpu,
                final(self).bus.ram@,
                b,
            ) && old(self).instruction_timing(b, r, final(self).last_stall)
                && old(self).dma_copied(b, final(self).bus.ppu@.oam),
    {
        self.last_stall = 0;
        let ghost pre_cpu = self.cpu;
        let ghost pre_bus = self.bus;
        let e = self.cpu.step(&mut self.bus);
        let ghost mid = self.bus;
        let mut cycles = e.cycles as u32;
        let dma = self.bus.take_dma();
        let ghost d = self.bus;
        match dma {
            Some(page) => {
                let stall: u32 = 513 + ((self.cycles + cycles as u64) % 2) as u32;
                self.oam_dma(page);
                self.last_stall = stall;
                cycles = cycles + stall;
            },
            None => {},
        }
        proof {
            if pre_bus.peek(pre_cpu.pc) is Some {
                assert(executes(after_fetch(pre_cpu), &pre_bus, self.cpu, &mid, e.opcode) && mid.ram@ == self.bus.ram@);
                let i = instr_of(e.opcode);
                if operand_address(&pre_bus, after_fetch(pre_cpu), i.mode) is Some {
                    let (addr, cr) = operand_address(&pre_bus, after_fetch(pre_cpu), i.mode)->0;
                    let taken = is_branch(i.op) && pre_cpu.branch_taken(i.op);
                    assert(e.taken == taken);
                    let cost = cycle_cost(i, cr && i.page_penalty, taken, taken && cr);
                    assert(e.cycles as int == cost);
                    let is_dma = addr == 0x4014 && (is_store(i.op) || (is_rmw(i.op) && i.mode != Mode::Accumulator));
                    if !is_dma && pre_bus.dma_page is None {
                        assert(mid.dma_page is None);
                    }
                    if addr == 0x4014 && is_store(i.op) && pre_bus.dma_page is None {
                        let page = store_value(i.op, pre_cpu);
                        assert(mid.dma_page == Some(page));
                        assert forall|j: int| 0 <= j < 256 implies #[trigger] d.peek((page as int * 256 + j) as u16)
                            == pre_bus.peek((page as int * 256 + j) as u16) by {}
                        if dma_source_pure(&pre_bus, page) {
                            assert forall|j: int| 0 <= j < 256 implies (#[trigger] d.peek((page as int * 256 + j) as u16)) is Some by {
                                assert(pre_bus.peek((page as int * 256 + j) as u16) is Some);
                            }
                            assert(dma_source_pure(&d, page));
                            assert forall|j: int| 0 <= j < 256 implies self.bus.ppu@.oam[(pre_bus.ppu@.oam_addr as int + j) % 256]
                                == #[trigger] dma_byte(&pre_bus, page, j) by {
                                assert(d.peek((page as int * 256 + j) as u16) == pre_bus.peek((page as int * 256 + j) as u16));
                                assert(dma_byte(&d, page, j) == dma_byte(&pre_bus, page, j));
                            }
                        }
                    }
                }
            }
        }
        cycles
    }

    /// Services a pending interrupt (an NMI first; an IRQ only while the
    /// interrupt-disable flag is clear), or else executes one instruction and
    /// performs the OAM DMA it requests. Then runs the PPU for three dots and
    /// the APU for one cycle per CPU cycle consumed, and returns that count.
    #[verifier::rlimit(100)]
    pub fn step(&mut self) -> (r: u32)
        requires
            old(self).wf(),
            old(self).cycles < 0x4000_0000_0000_0000,
        ensures
            final(self).wf(),
            2 <= r <= MAX_STEP_CYCLES,
            final(self).cycles == old(self).cycles + r,
            final(self).frames == old(self).frames,
            final(self).bus.pad.buttons == old(self).bus.pad.buttons,
            raster_pos(final(self).bus.ppu@) == (raster_pos(old(self).bus.ppu@) + 3 * r) % 89342,
            final(self).bus.apu.clocks == (old(self).bus.apu.clocks as int + r) % 0x1_0000_0000_0000_0000,
            exists|a: APU| #[trigger] apu_run(a, final(self).bus.board, r as nat) == (APU { audio_buffer: a.audio_buffer, ..final(self).bus.apu }),
            final(self).last_stall == 0 || final(self).last_stall as int == dma_stall(
                old(self).cycles + r - final(self).last_stall,
            ),
            old(self).bus.ppu@.nmi ==> r == 7 && final(self).last_stall == 0
                && old(self).interrupt_entry(final(self), 0xFFFA),
            !old(self).bus.ppu@.nmi && old(self).bus.apu.irq_line() && !old(self).cpu.irq_disable
                ==> r == 7 && final(self).last_stall == 0 && old(self).interrupt_entry(final(self), 0xFFFE),
            old(self).no_interrupt() ==> (old(self).bus.peek(old(self).cpu.pc) matches Some(b)
                ==> ran_instruction(old(self).cpu, &old(self).bus, final(self).cpu, final(self).bus.ram@, b)
                && old(self).instruction_timing(b, r, final(self).last_stall)
                && old(self).dma_copied(b, final(self).bus.ppu@.oam)),
    {
        let mut cycles: u32;
        self.last_stall = 0;
        if self.bus.ppu.take_nmi() {
            cycles = self.cpu.nmi(&mut self.bus) as u32;
        } else if self.bus.apu.irq_pending() && !self.cpu.irq_disable {
            cycles = self.cpu.irq(&mut self.bus) as u32;
        } else {
            cycles = self.execute_instruction();
        }
        let ghost before_units = *self;
        self.run_ppu(cycles * 3);
        self.run_apu(cycles);
        proof {
            assert(apu_run(before_units.bus.apu, self.bus.board, cycles as nat) == (APU { audio_buffer: before_units.bus.apu.audio_buffer, ..self.bus.apu }));
            lemma_apu_run_clocks(before_units.bus.apu, self.bus.board, cycles as nat);
            lemma_apu_run_audio(before_units.bus.apu, self.bus.board, cycles as nat);
        }
        self.cycles = self.cycles + cycles as u64;
        cycles
    }

    /// `post` is this console after a frame with `input` on the controller
    /// port: it has stepped until the cycle count reached the frame's target,
    /// the PPU ran three dots and the APU one cycle per CPU cycle consumed.
    pub open spec fn frame_run(&self, input: InputState, post: &NES) -> bool {
        let target = frame_target(post.frames as int);
        let consumed = post.cycles - self.cycles;
        &&& post.frames == self.frames + 1
        &&& post.cycles >= target
        &&& self.cycles >= target ==> post.cycles == self.cycles
        &&& self.cycles < target ==> post.cycles < target + MAX_STEP_CYCLES
        &&& self.cycles < frame_target(self.frames as int) + MAX_STEP_CYCLES ==> post.cycles
            < target + MAX_STEP_CYCLES
        &&& post.bus.pad.buttons == pad_byte(input)
        &&& raster_pos(post.bus.ppu@) == (raster_pos(self.bus.ppu@) + 3 * consumed) % 89342
        &&& post.bus.apu.clocks == (self.bus.apu.clocks as int + consumed) % 0x1_0000_0000_0000_0000
    }

    /// Runs one frame with `input` on the controller port: steps until the
    /// cycle count reaches the frame's target, frames * 29780⅔ rounded up.
    pub fn run_frame(&mut self, input: &InputState)
        requires
            old(self).wf(),
            old(self).frames < 0x100_0000_0000,
            old(self).cycles < 0x1000_0000_0000_0000,
        ensures
            final(self).wf(),
            old(self).frame_run(*input, final(self)),
    {
        proof {
            lemma_targets_grow(old(self).frames as nat);
        }
        self.bus.set_buttons(input.pad_bits());
        self.frames = self.frames + 1;
        let target: u64 = (self.frames * FRAME_DOTS + 2) / 3;
        let start = self.cycles;
        let ghost pos0 = raster_pos(old(self).bus.ppu@);
        let ghost clk0 = old(self).bus.apu.clocks as int;
        assert(pos0 >= 0 && pos0 < 89342) by {
            assert(old(self).bus.ppu@.wf());
        }
        while self.cycles < target
            invariant
                self.wf(),
                self.frames == old(self).frames + 1,
                target == frame_target(self.frames as int),
                target < 0x1000_0000_0000_0000,
                start == old(self).cycles,
                self.cycles >= start,
                start < target ==> self.cycles < target + MAX_STEP_CYCLES,
                start >= target ==> self.cycles == start,
                self.bus.pad.buttons == pad_byte(*input),
                raster_pos(self.bus.ppu@) == (pos0 + 3 * (self.cycles - start)) % 89342,
                self.bus.apu.clocks == (clk0 + (self.cycles - start)) % 0x1_0000_0000_0000_0000,
                0 <= pos0 < 89342,
                0 <= clk0,
            decreases target + MAX_STEP_CYCLES - self.cycles,
        {
            let ghost c0 = self.cycles as int;
            let ghost p0 = raster_pos(self.bus.ppu@);
            let ghost k0 = self.bus.apu.clocks as int;
            let r = self.step();
            proof {
                assert(c0 >= start as int);
                assert(pos0 >= 0 && clk0 >= 0);
                lemma_mod_add(pos0 + 3 * (c0 - start), 3 * r as int, 89342);
                lemma_mod_add(clk0 + (c0 - start), r as int, 0x1_0000_0000_0000_0000);
                assert(pos0 + 3 * (c0 - start) + 3 * r == pos0 + 3 * (self.cycles - start));
            }
        }
    }

    /// The last completed frame, 256x240 RGBA.
    pub fn get_framebuffer(&self) -> (r: &Vec<u8>)
        ensures
            r@ == self.bus.ppu@.front,
    {
        self.bus.ppu.get_framebuffer()
    }

    /// The PCM samples queued since the last drain.
    pub fn get_audio_samples(&self) -> (r: &Vec<i16>)
        ensures
            r@ == self.bus.apu.audio_buffer@,
    {
        self.bus.apu.get_samples()
    }

    /// Hands out the queued samples and empties the queue.
    pub fn take_audio_samples(&mut self) -> (r: Vec<i16>)
        requires
            old(self).wf(),
        ensures
            final(self).wf(),
            r@ == old(self).bus.apu.audio_buffer@,
            final(self).bus.apu.audio_buffer@.len() == 0,
    {
        self.bus.apu.take_samples()
    }
}

/// Adding to a residue is adding to the number.
pub proof fn lemma_mod_add(a: int, b: int, m: int)
    requires
        m > 0,
        a >= 0,
        b >= 0,
    ensures
        (a % m + b) % m == (a + b) % m,
{
    vstd::arithmetic::div_mod::lemma_add_mod_noop(a, b, m);
    vstd::arithmetic::div_mod::lemma_mod_twice(b, m);
    vstd::arithmetic::div_mod::lemma_add_mod_noop(a % m, b, m);
    vstd::arithmetic::div_mod::lemma_mod_twice(a, m);
}

/// Consecutive frame targets are 29780 or 29781 cycles apart.
pub proof fn lemma_targets_grow(n: nat)
    ensures
        frame_target(n + 1int) >= frame_target(n as int) + 29780,
        frame_target(n + 1int) <= frame_target(n as int) + 29781,
{
    assert((n + 1) * 89342 + 2 == n * 89342 + 2 + 89342) by (nonlinear_arith);
}

/// The frame targets never drift: after `n` frames the target is within one
/// cycle above n * 29780⅔, so the fractional cycle is carried.
pub proof fn lemma_frame_pacing(n: nat)
    ensures
        n * 89342 <= frame_target(n as int) * 3,
        frame_target(n as int) * 3 < n * 89342 + 3,
        frame_target((n + 3) as int) == frame_target(n as int) + 89342,
{
    assert((n + 3) * 89342 + 2 == n * 89342 + 2 + 3 * 89342) by (nonlinear_arith);
}

} // verus!
