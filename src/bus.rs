//! The CPU's address space: work RAM, the picture and sound units' registers,
//! the controller port and cartridge space, behind one read/write contract.
use vstd::prelude::*;
use crate::apu::APU;
use crate::cartridge::{chr_len, chr_of, mirroring_of, parse_error, parse_ines, prg_len, CartridgeError};
use crate::mapper::{Board, Mapper};
use crate::ppu::{PPU, PpuState};

verus! {

pub const RAM_SIZE: usize = 0x800;

/// Where a CPU address lands.
#[derive(PartialEq, Eq, Structural)]
pub enum Region {
    /// Work RAM, by index into the 2KB array.
    Ram(u16),
    /// A PPU register, by number 0..8.
    PpuRegister(u8),
    /// The sound and I/O registers 0x4000..=0x4017.
    Io(u16),
    /// 0x4018..0x4020, wired to nothing.
    Unmapped,
    /// 0x4020..=0xFFFF, decoded by the cartridge board.
    Cartridge(u16),
}

/// The region of `addr`. RAM repeats every 0x800 bytes below 0x2000 and the
/// PPU registers every 8 bytes below 0x4000.
pub open spec fn route(addr: u16) -> Region {
    if addr < 0x2000 {
        Region::Ram((addr % 0x800) as u16)
    } else if addr < 0x4000 {
        Region::PpuRegister((addr % 8) as u8)
    } else if addr < 0x4018 {
        Region::Io(addr)
    } else if addr < 0x4020 {
        Region::Unmapped
    } else {
        Region::Cartridge(addr)
    }
}

/// The controller port: a latch of eight buttons read out one bit at a time.
#[derive(Clone, Copy, Debug, PartialEq, Eq, Structural)]
pub struct Pad {
    pub buttons: u8,
    pub shift: u8,
    pub strobe: bool,
}

/// The system bus. It owns work RAM and the cartridge board, and routes
/// register accesses to the picture and sound units.
pub struct Bus {
    pub ram: Vec<u8>,
    pub board: Board,
    pub ppu: PPU,
    pub apu: APU,
    pub pad: Pad,
    /// Page of a requested OAM DMA transfer, not yet performed.
    pub dma_page: Option<u8>,
}

impl Bus {
    pub open spec fn wf(&self) -> bool {
        self.ram@.len() == 0x800 && self.ppu@.wf() && self.apu.wf()
    }

    /// `post` has the PPU raster where this bus has it, and the same buttons
    /// latched on the controller port, and the APU's cycle count: CPU
    /// accesses move none of them.
    pub open spec fn undisturbed(&self, post: &Bus) -> bool {
        post.ppu@.scanline == self.ppu@.scanline && post.ppu@.dot == self.ppu@.dot
            && post.ppu@.frames == self.ppu@.frames && post.pad.buttons == self.pad.buttons
            && post.apu.clocks == self.apu.clocks
    }

    /// Bus `post` differs from this one at most in its work RAM.
    pub open spec fn only_ram_changed(&self, post: &Bus) -> bool {
        post.board == self.board && post.ppu == self.ppu && post.apu == self.apu && post.pad
            == self.pad && post.dma_page == self.dma_page
    }

    /// Bus `post` differs from this one only in its PPU.
    pub open spec fn only_ppu_changed(&self, post: &Bus) -> bool {
        post.ram@ == self.ram@ && post.board == self.board && post.apu
            == self.apu && post.pad == self.pad && post.dma_page == self.dma_page
    }

    /// The byte a read at `addr` returns where reading has no side effect:
    /// work RAM and cartridge space.
    pub open spec fn peek(&self, addr: u16) -> Option<u8> {
        match route(addr) {
            Region::Ram(i) => Some(self.ram@[i as int]),
            Region::Cartridge(a) => Some(self.board.cpu_byte(a)),
            _ => None,
        }
    }

    /// `post` is this bus after a CPU read at `addr` that returned `r`.
    pub open spec fn read_effect(&self, post: &Bus, addr: u16, r: u8) -> bool {
        match route(addr) {
            Region::Ram(i) => r == self.ram@[i as int] && *post == *self,
            Region::PpuRegister(reg) => (r, post.ppu@) == self.ppu@.read_register(
                self.board,
                reg,
            ) && self.only_ppu_changed(post),
            Region::Io(a) => if a == 0x4015 {
                r == self.apu.status_value() && post.apu == (APU { frame: crate::apu::FrameCounter { irq: false, ..self.apu.frame }, ..self.apu })
                    && post.ram@ == self.ram@ && post.board == self.board
                    && post.ppu == self.ppu && post.pad == self.pad
                    && post.dma_page == self.dma_page
            } else if a == 0x4016 {
                r == 0x40 | (self.pad.shift & 1) && post.pad == if self.pad.strobe {
                    self.pad
                } else {
                    Pad { shift: (self.pad.shift >> 1u8) | 0x80, ..self.pad }
                } && post.ram@ == self.ram@ && post.board == self.board
                    && post.ppu == self.ppu && post.apu == self.apu && post.dma_page == self.dma_page
            } else {
                r == 0x40 && *post == *self
            },
            Region::Unmapped => r == 0 && *post == *self,
            Region::Cartridge(a) => r == self.board.cpu_byte(a) && *post == *self,
        }
    }

    /// `post` is this bus after a CPU write of `v` at `addr`.
    pub open spec fn write_effect(&self, post: &Bus, addr: u16, v: u8) -> bool {
        match route(addr) {
            Region::Ram(i) => post.ram@ == self.ram@.update(i as int, v)
                && post.board == self.board && post.ppu == self.ppu && post.apu == self.apu
                && post.pad == self.pad && post.dma_page == self.dma_page,
            Region::PpuRegister(reg) => post.ppu@ == self.ppu@.write_register(
                self.board.layout(),
                reg,
                v,
            ) && match self.ppu@.chr_target(reg) {
                Some(a) => self.board.ppu_written(post.board, a, v),
                None => post.board == self.board,
            } && post.ram@ == self.ram@ && post.apu == self.apu && post.pad
                == self.pad && post.dma_page == self.dma_page,
            Region::Io(a) => if a == 0x4014 {
                post.dma_page == Some(v) && post.ram@ == self.ram@ && post.board
                    == self.board && post.ppu == self.ppu && post.apu == self.apu
                    && post.pad == self.pad
            } else if a == 0x4016 {
                post.pad == (Pad {
                    strobe: v & 1 == 1,
                    shift: if v & 1 == 1 {
                        self.pad.buttons
                    } else {
                        self.pad.shift
                    },
                    ..self.pad
                }) && post.ram@ == self.ram@ && post.board == self.board
                    && post.ppu == self.ppu && post.apu == self.apu && post.dma_page == self.dma_page
            } else {
                post.ram@ == self.ram@ && post.board == self.board && post.ppu
                    == self.ppu && post.pad == self.pad && post.dma_page
                    == self.dma_page && post.apu == self.apu.after_write_register(a, v)
            },
            Region::Unmapped => *post == *self,
            Region::Cartridge(a) => self.board.cpu_written(post.board, a, v)
                && post.ram@ == self.ram@ && post.ppu == self.ppu && post.apu == self.apu
                && post.pad == self.pad && post.dma_page == self.dma_page,
        }
    }

    /// A bus with zeroed RAM and no program.
    pub fn new() -> (r: Bus)
        ensures
            r.wf(),
            r.ram@ == Seq::new(0x800, |i: int| 0u8),
            r.board matches Board::Nrom(m) && m.prg().len() == 0,
            r.dma_page is None,
            crate::ppu::power_on_state(r.ppu@),
            r.apu.powered_on(),
    {
        let ram: Vec<u8> = vec![0u8; RAM_SIZE];
        let r = Bus { ram, board: Board::empty(), ppu: PPU::new(), apu: APU::new(), pad: Pad { buttons: 0, shift: 0, strobe: false }, dma_page: None };
        assert(r.ram@ =~= Seq::new(0x800, |i: int| 0u8));
        r
    }

    /// Whether `post` is this bus with the cartridge of the well-formed image
    /// `d` installed: PRG right after the header, CHR after it (8KB of RAM
    /// when the image has none), work RAM and the units kept.
    pub open spec fn installed(&self, post: &Bus, d: Seq<u8>) -> bool {
        &&& (post.board matches Board::Nrom(m) && m.prg() == d.subrange(16, 16 + prg_len(d))
            && m.chr() == chr_of(d) && m.chr_writable() == (chr_len(d) == 0) && m.layout()
            == mirroring_of(d))
        &&& post.ram@ == self.ram@
        &&& post.ppu == self.ppu
        &&& post.apu == self.apu
        &&& post.pad == self.pad
    }

    /// Parses `rom_data` and installs the board it describes. On any error
    /// the bus is left as it was.
    pub fn load_cartridge(&mut self, rom_data: &[u8]) -> (r: Result<(), CartridgeError>)
        requires
            old(self).wf(),
        ensures
            final(self).wf(),
            match parse_error(rom_data@) {
                None => r is Ok && old(self).installed(final(self), rom_data@)
                    && final(self).dma_page is None,
                Some(e) => r == Err::<(), CartridgeError>(e) && *final(self) == *old(self),
            },
    {
        let cart = match parse_ines(rom_data) {
            Ok(c) => c,
            Err(e) => return Err(e),
        };
        self.board = Board::from_cartridge(cart);
        self.dma_page = None;
        Ok(())
    }

    /// The board installed in the cartridge slot.
    pub fn board(&self) -> (r: &Board)
        ensures
            *r == self.board,
    {
        &self.board
    }

    /// Latches the buttons the controller port will report.
    pub fn set_buttons(&mut self, buttons: u8)
        ensures
            final(self).pad == (Pad {
                buttons,
                shift: if old(self).pad.strobe {
                    buttons
                } else {
                    old(self).pad.shift
                },
                ..old(self).pad
            }),
            final(self).ram@ == old(self).ram@,
            final(self).board == old(self).board,
            final(self).ppu == old(self).ppu,
            final(self).apu == old(self).apu,
            final(self).dma_page == old(self).dma_page,
    {
        self.pad.buttons = buttons;
        if self.pad.strobe {
            self.pad.shift = buttons;
        }
    }

    /// Takes the pending OAM DMA request, if any.
    pub fn take_dma(&mut self) -> (r: Option<u8>)
        ensures
            r == old(self).dma_page,
            final(self).dma_page is None,
            final(self).ram@ == old(self).ram@,
            final(self).board == old(self).board,
            final(self).ppu == old(self).ppu,
            final(self).apu == old(self).apu,
            final(self).pad == old(self).pad,
    {
        let r = self.dma_page;
        self.dma_page = None;
        r
    }

    /// A CPU read. Reads of the PPU status, PPU data, APU status and
    /// controller registers have side effects, which are part of the read.
    pub fn read(&mut self, addr: u16) -> (r: u8)
        requires
            old(self).wf(),
        ensures
            final(self).wf(),
            old(self).read_effect(final(self), addr, r),
            old(self).undisturbed(final(self)),
            old(self).peek(addr) matches Some(v) ==> r == v && *final(self) == *old(self),
            final(self).dma_page == old(self).dma_page,
            final(self).ram@ == old(self).ram@ && final(self).board == old(self).board,
    {
        if addr < 0x2000 {
            self.ram[(addr % 0x800) as usize]
        } else if addr < 0x4000 {
            self.ppu.read_register(&self.board, (addr % 8) as u8)
        } else if addr < 0x4018 {
            if addr == 0x4015 {
                self.apu.read_status()
            } else if addr == 0x4016 {
                let r = 0x40 | (self.pad.shift & 1);
                if !self.pad.strobe {
                    self.pad.shift = (self.pad.shift >> 1u8) | 0x80;
                }
                r
            } else {
                0x40
            }
        } else if addr < 0x4020 {
            0
        } else {
            self.board.read(addr)
        }
    }

    /// A CPU write.
    pub fn write(&mut self, addr: u16, value: u8)
        requires
            old(self).wf(),
        ensures
            final(self).wf(),
            old(self).write_effect(final(self), addr, value),
            old(self).undisturbed(final(self)),
            final(self).dma_page == if addr == 0x4014 {
                Some(value)
            } else {
                old(self).dma_page
            },
    {
        if addr < 0x2000 {
            self.ram.set((addr % 0x800) as usize, value);
        } else if addr < 0x4000 {
            self.ppu.write_register(&mut self.board, (addr % 8) as u8, value);
        } else if addr < 0x4018 {
            if addr == 0x4014 {
                self.dma_page = Some(value);
            } else if addr == 0x4016 {
                self.pad.strobe = value & 1 == 1;
                if self.pad.strobe {
                    self.pad.shift = self.pad.buttons;
                }
            } else {
                self.apu.write_register(addr, value);
            }
        } else if addr < 0x4020 {
        } else {
            self.board.write(addr, value);
        }
    }

    /// One PPU dot, fetching pattern data through the board.
    pub fn step_ppu(&mut self)
        requires
            old(self).wf(),
        ensures
            final(self).wf(),
            final(self).ppu@ == old(self).ppu@.step(old(self).board),
            old(self).only_ppu_changed(final(self)),
    {
        self.ppu.step(&self.board);
    }

    /// One APU cycle, fetching sample bytes through the board.
    pub fn step_apu(&mut self)
        requires
            old(self).wf(),
        ensures
            final(self).wf(),
            final(self).apu == (APU { audio_buffer: final(self).apu.audio_buffer, ..old(self).apu.after_clocks(old(self).board) }),
            old(self).apu.sample_phase + crate::apu::SAMPLE_HZ >= crate::apu::CPU_HZ ==> final(self).apu.audio_buffer@
                == old(self).apu.audio_buffer@.push(final(self).apu.current_sample() as i16),
            old(self).apu.sample_phase + crate::apu::SAMPLE_HZ < crate::apu::CPU_HZ ==> final(self).apu.audio_buffer@
                == old(self).apu.audio_buffer@,
            final(self).ram@ == old(self).ram@,
            final(self).board == old(self).board,
            final(self).ppu == old(self).ppu,
            final(self).pad == old(self).pad,
            final(self).dma_page == old(self).dma_page,
    {
        self.apu.step(&self.board);
    }
}

/// Work RAM repeats every 0x800 bytes: `addr` and `addr ^ 0x800` land on the
/// same byte, so reads and writes at either address have the same effect.
pub proof fn lemma_ram_mirroring(b: Bus, post: Bus, addr: u16, r: u8, v: u8)
    requires
        addr < 0x2000,
    ensures
        route(addr) == route(addr ^ 0x800),
        b.read_effect(&post, addr, r) == b.read_effect(&post, addr ^ 0x800, r),
        b.write_effect(&post, addr, v) == b.write_effect(&post, addr ^ 0x800, v),
{
    assert((addr ^ 0x800) < 0x2000 && (addr ^ 0x800) % 0x800 == addr % 0x800) by (bit_vector)
        requires
            addr < 0x2000,
    ;
}

/// The PPU registers repeat every 8 bytes over 0x2000..0x4000: reads and
/// writes at `addr` have the effect of those at `0x2000 + addr % 8`.
pub proof fn lemma_ppu_register_mirroring(b: Bus, post: Bus, addr: u16, r: u8, v: u8)
    requires
        0x2000 <= addr < 0x4000,
    ensures
        route(addr) == route((0x2000 + addr % 8) as u16),
        b.read_effect(&post, addr, r) == b.read_effect(&post, (0x2000 + addr % 8) as u16, r),
        b.write_effect(&post, addr, v) == b.write_effect(&post, (0x2000 + addr % 8) as u16, v),
{
}

} // verus!
