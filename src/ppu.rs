//! The picture unit: memory-mapped registers, dot/scanline timing and
//! per-dot rendering of background tiles and sprites into an RGBA frame.
use vstd::prelude::*;
use crate::cartridge::Mirroring;
use crate::mapper::{Board, Mapper};
use crate::palette::{system_palette, system_palette_table};

verus! {

pub const WIDTH: usize = 256;
pub const HEIGHT: usize = 240;
pub const FRAME_BYTES: usize = 245760;
pub const DOTS_PER_LINE: u16 = 341;
pub const LINES_PER_FRAME: u16 = 262;
pub const VRAM_SIZE: usize = 4096;

/// The abstract state of the picture unit.
pub struct PpuState {
    pub vram: Seq<u8>,
    pub oam: Seq<u8>,
    pub palette: Seq<u8>,
    pub ctrl: u8,
    pub mask: u8,
    pub status: u8,
    pub oam_addr: u8,
    /// Current VRAM address (15 bits used).
    pub v: u16,
    /// Latched VRAM address / scroll.
    pub t: u16,
    pub fine_x: u8,
    /// Write toggle shared by the scroll and address registers.
    pub w: bool,
    pub read_buffer: u8,
    pub scanline: u16,
    pub dot: u16,
    pub frames: u64,
    /// An NMI is waiting to be taken by the CPU.
    pub nmi: bool,
    /// The frame being drawn.
    pub back: Seq<u8>,
    /// The last completed frame.
    pub front: Seq<u8>,
    pub rgb: Seq<u8>,
}

/// Index into the 4KB nametable memory of PPU address `addr` (in 0x2000..0x3F00).
pub open spec fn vram_index(addr: u16, layout: Mirroring) -> int {
    let off = addr as int % 0x1000;
    let table = off / 0x400;
    let within = off % 0x400;
    let phys = match layout {
        Mirroring::Horizontal => table / 2,
        Mirroring::Vertical => table % 2,
        Mirroring::FourScreen => table,
    };
    phys * 0x400 + within
}

/// Index into palette memory of PPU address `addr`; entries 0x10/0x14/0x18/0x1C
/// share storage with 0x00/0x04/0x08/0x0C.
pub open spec fn palette_index(addr: u16) -> int {
    let p = addr as int % 32;
    if p >= 16 && p % 4 == 0 {
        p - 16
    } else {
        p
    }
}

/// Two-bit pixel value of column `bit` from a pair of pattern planes.
pub open spec fn pattern_bit(lo: u8, hi: u8, bit: int) -> int {
    ((lo >> (bit as u8)) & 1) as int + 2 * ((hi >> (bit as u8)) & 1) as int
}

impl PpuState {
    pub open spec fn wf(self) -> bool {
        &&& self.vram.len() == 4096
        &&& self.oam.len() == 256
        &&& self.palette.len() == 32
        &&& self.back.len() == 245760
        &&& self.front.len() == 245760
        &&& self.rgb == system_palette()
        &&& self.dot <= 340
        &&& self.scanline <= 261
    }

    pub open spec fn increment(self) -> int {
        if self.ctrl & 4 != 0 {
            32
        } else {
            1
        }
    }

    pub open spec fn next_v(self) -> u16 {
        ((self.v as int + self.increment()) % 0x8000) as u16
    }

    /// The byte at `addr` of the PPU's own address space.
    pub open spec fn memory(self, cart: Board, addr: u16) -> u8 {
        let a = (addr % 0x4000) as u16;
        if a < 0x2000 {
            cart.ppu_byte(a)
        } else if a < 0x3F00 {
            self.vram[vram_index(a, cart.layout())]
        } else {
            self.palette[palette_index(a)]
        }
    }

    /// Value and new state of a CPU read of register `reg` (0..8).
    pub open spec fn read_register(self, cart: Board, reg: u8) -> (u8, PpuState) {
        if reg == 2 {
            (self.status & 0xE0, PpuState { status: self.status & 0x7F, w: false, ..self })
        } else if reg == 4 {
            (self.oam[self.oam_addr as int], self)
        } else if reg == 7 {
            let a = (self.v % 0x4000) as u16;
            if a >= 0x3F00 {
                (
                    self.palette[palette_index(a)],
                    PpuState {
                        read_buffer: self.vram[vram_index(a, cart.layout())],
                        v: self.next_v(),
                        ..self
                    },
                )
            } else {
                (
                    self.read_buffer,
                    PpuState { read_buffer: self.memory(cart, a), v: self.next_v(), ..self },
                )
            }
        } else {
            (0, self)
        }
    }

    /// New state after a CPU write of `value` to register `reg` (0..8). A data
    /// write below 0x2000 goes to the cartridge instead (see `chr_target`).
    pub open spec fn write_register(self, layout: Mirroring, reg: u8, value: u8) -> PpuState {
        if reg == 0 {
            PpuState {
                ctrl: value,
                t: (self.t & 0xF3FF) | (((value & 3) as u16) << 10u16),
                nmi: self.nmi || (self.ctrl & 0x80 == 0 && value & 0x80 != 0 && self.status & 0x80
                    != 0),
                ..self
            }
        } else if reg == 1 {
            PpuState { mask: value, ..self }
        } else if reg == 3 {
            PpuState { oam_addr: value, ..self }
        } else if reg == 4 {
            PpuState {
                oam: self.oam.update(self.oam_addr as int, value),
                oam_addr: ((self.oam_addr as int + 1) % 256) as u8,
                ..self
            }
        } else if reg == 5 {
            if !self.w {
                PpuState {
                    t: (self.t & 0xFFE0) | ((value >> 3u8) as u16),
                    fine_x: value & 7,
                    w: true,
                    ..self
                }
            } else {
                PpuState {
                    t: (self.t & 0x8C1F) | (((value & 7) as u16) << 12u16) | (((value & 0xF8) as u16)
                        << 2u16),
                    w: false,
                    ..self
                }
            }
        } else if reg == 6 {
            if !self.w {
                PpuState { t: (self.t & 0x80FF) | (((value & 0x3F) as u16) << 8u16), w: true, ..self }
            } else {
                let nt = (self.t & 0xFF00) | (value as u16);
                PpuState { t: nt, v: nt, w: false, ..self }
            }
        } else if reg == 7 {
            let a = (self.v % 0x4000) as u16;
            if a < 0x2000 {
                PpuState { v: self.next_v(), ..self }
            } else if a < 0x3F00 {
                PpuState {
                    vram: self.vram.update(vram_index(a, layout), value),
                    v: self.next_v(),
                    ..self
                }
            } else {
                PpuState {
                    palette: self.palette.update(palette_index(a), value),
                    v: self.next_v(),
                    ..self
                }
            }
        } else {
            self
        }
    }

    /// The pattern address a data write to register `reg` stores to, if it
    /// lands in cartridge pattern memory.
    pub open spec fn chr_target(self, reg: u8) -> Option<u16> {
        if reg == 7 && self.v % 0x4000 < 0x2000 {
            Some((self.v % 0x4000) as u16)
        } else {
            None
        }
    }

    pub open spec fn rendering(self) -> bool {
        self.mask & 0x18 != 0
    }

    pub open spec fn scroll_x(self) -> int {
        ((self.v >> 10u16) & 1) as int * 256 + (self.v & 0x1F) as int * 8 + self.fine_x as int
    }

    pub open spec fn scroll_y(self) -> int {
        ((self.v >> 11u16) & 1) as int * 240 + ((self.v >> 5u16) & 0x1F) as int * 8 + ((self.v
            >> 12u16) & 7) as int
    }

    /// Background palette entry (0 = transparent) at screen pixel (x, y).
    pub open spec fn bg_pixel(self, cart: Board, x: int, y: int) -> int {
        if self.mask & 0x08 == 0 || (x < 8 && self.mask & 0x02 == 0) {
            0
        } else {
            let wx = (self.scroll_x() + x) % 512;
            let wy = (self.scroll_y() + y) % 480;
            let nt = wx / 256 + 2 * (wy / 240);
            let col = (wx % 256) / 8;
            let row = (wy % 240) / 8;
            let tile = self.vram[vram_index((0x2000 + nt * 0x400 + row * 32 + col) as u16, cart.layout())];
            let attr = self.vram[vram_index(
                (0x23C0 + nt * 0x400 + (row / 4) * 8 + col / 4) as u16,
                cart.layout(),
            )];
            let shift = ((row % 4) / 2) * 4 + ((col % 4) / 2) * 2;
            let pal = (attr >> (shift as u8)) & 3;
            let base = if self.ctrl & 0x10 != 0 {
                0x1000int
            } else {
                0
            };
            let addr = base + tile as int * 16 + wy % 8;
            let p = pattern_bit(
                cart.ppu_byte(addr as u16),
                cart.ppu_byte((addr + 8) as u16),
                7 - wx % 8,
            );
            if p == 0 {
                0
            } else {
                pal as int * 4 + p
            }
        }
    }

    pub open spec fn sprite_height(self) -> int {
        if self.ctrl & 0x20 != 0 {
            16
        } else {
            8
        }
    }

    /// Palette entry (16..32, or 0 = transparent) of sprite `i` at pixel (x, y).
    pub open spec fn sprite_pixel(self, cart: Board, i: int, x: int, y: int) -> int {
        let sy = self.oam[4 * i] as int + 1;
        let tile = self.oam[4 * i + 1] as int;
        let attr = self.oam[4 * i + 2];
        let sx = self.oam[4 * i + 3] as int;
        let h = self.sprite_height();
        if self.mask & 0x10 == 0 || (x < 8 && self.mask & 0x04 == 0) || !(sy <= y < sy + h) || !(
        sx <= x < sx + 8) {
            0
        } else {
            let row = if attr & 0x80 != 0 {
                h - 1 - (y - sy)
            } else {
                y - sy
            };
            let col = if attr & 0x40 != 0 {
                7 - (x - sx)
            } else {
                x - sx
            };
            let addr = if h == 8 {
                (if self.ctrl & 0x08 != 0 {
                    0x1000int
                } else {
                    0
                }) + tile * 16 + row
            } else {
                (tile % 2) * 0x1000 + (tile - tile % 2 + row / 8) * 16 + row % 8
            };
            let p = pattern_bit(
                cart.ppu_byte(addr as u16),
                cart.ppu_byte((addr + 8) as u16),
                7 - col,
            );
            if p == 0 {
                0
            } else {
                16 + (attr & 3) as int * 4 + p
            }
        }
    }

    /// The first sprite at or after `i` that is opaque at (x, y), or 64.
    pub open spec fn first_sprite(self, cart: Board, x: int, y: int, i: int) -> int
        decreases 64 - i,
    {
        if i >= 64 {
            64
        } else if self.sprite_pixel(cart, i, x, y) != 0 {
            i
        } else {
            self.first_sprite(cart, x, y, i + 1)
        }
    }

    /// The palette entry shown at (x, y), after sprite/background priority.
    pub open spec fn pixel(self, cart: Board, x: int, y: int) -> int {
        let bg = self.bg_pixel(cart, x, y);
        let s = self.first_sprite(cart, x, y, 0);
        if s < 64 && (bg == 0 || self.oam[4 * s + 2] & 0x20 == 0) {
            self.sprite_pixel(cart, s, x, y)
        } else {
            bg
        }
    }

    pub open spec fn sprite0_hit(self, cart: Board, x: int, y: int) -> bool {
        self.sprite_pixel(cart, 0, x, y) != 0 && self.bg_pixel(cart, x, y) != 0 && x != 255
    }

    /// The output colour number (0..64) of palette entry `e`.
    pub open spec fn colour(self, e: int) -> int {
        self.palette[palette_index(e as u16)] as int % 64
    }

    /// Draws the pixel under the current dot into the back buffer.
    pub open spec fn render(self, cart: Board) -> PpuState {
        let x = self.dot as int - 1;
        let y = self.scanline as int;
        let o = (y * 256 + x) * 4;
        let c = self.colour(self.pixel(cart, x, y));
        PpuState {
            back: self.back.update(o, self.rgb[3 * c]).update(o + 1, self.rgb[3 * c + 1]).update(
                o + 2,
                self.rgb[3 * c + 2],
            ).update(o + 3, 255),
            status: if self.sprite0_hit(cart, x, y) {
                self.status | 0x40
            } else {
                self.status
            },
            ..self
        }
    }

    /// Vertical-blank entry and pre-render clearing.
    pub open spec fn timing_events(self) -> PpuState {
        if self.scanline == 241 && self.dot == 1 {
            PpuState { status: self.status | 0x80, nmi: self.nmi || self.ctrl & 0x80 != 0, ..self }
        } else if self.scanline == 261 && self.dot == 1 {
            PpuState { status: self.status & 0x1F, ..self }
        } else {
            self
        }
    }

    /// Reloads of the scroll position from the latched address.
    pub open spec fn scroll_reload(self) -> PpuState {
        if self.rendering() && self.dot == 257 && (self.scanline < 240 || self.scanline == 261) {
            PpuState { v: (self.v & 0xFBE0) | (self.t & 0x041F), ..self }
        } else if self.rendering() && self.dot == 304 && self.scanline == 261 {
            PpuState { v: (self.v & 0x041F) | (self.t & 0xFBE0), ..self }
        } else {
            self
        }
    }

    /// Moves to the next dot; finishing the last scanline publishes the frame.
    pub open spec fn advance(self) -> PpuState {
        if self.dot < 340 {
            PpuState { dot: (self.dot + 1) as u16, ..self }
        } else if self.scanline < 261 {
            PpuState { dot: 0, scanline: (self.scanline + 1) as u16, ..self }
        } else {
            PpuState {
                dot: 0,
                scanline: 0,
                frames: if self.frames == u64::MAX {
                    0
                } else {
                    (self.frames + 1) as u64
                },
                front: self.back,
                ..self
            }
        }
    }

    pub open spec fn visible(self) -> bool {
        self.scanline < 240 && 1 <= self.dot <= 256
    }

    /// One PPU dot.
    pub open spec fn step(self, cart: Board) -> PpuState {
        let s1 = if self.visible() {
            self.render(cart)
        } else {
            self
        };
        s1.timing_events().scroll_reload().advance()
    }
}


/// The picture unit's latches and counters, as one value.
#[derive(Clone, Copy, Debug, PartialEq, Eq, Structural)]
pub struct PpuRegisters {
    pub ctrl: u8,
    pub mask: u8,
    pub status: u8,
    pub oam_addr: u8,
    pub v: u16,
    pub t: u16,
    pub fine_x: u8,
    pub w: bool,
    pub read_buffer: u8,
    pub scanline: u16,
    pub dot: u16,
    pub nmi: bool,
}

/// The registers of `s`.
pub open spec fn registers_of(s: PpuState) -> PpuRegisters {
    PpuRegisters {
        ctrl: s.ctrl,
        mask: s.mask,
        status: s.status,
        oam_addr: s.oam_addr,
        v: s.v,
        t: s.t,
        fine_x: s.fine_x,
        w: s.w,
        read_buffer: s.read_buffer,
        scanline: s.scanline,
        dot: s.dot,
        nmi: s.nmi,
    }
}

/// Position of the raster within the frame, 0..89342.
pub open spec fn raster_pos(s: PpuState) -> int {
    s.scanline as int * 341 + s.dot as int
}

/// One dot moves the raster forward by one, wrapping at the end of the frame,
/// and a frame completes exactly when it wraps.
pub proof fn lemma_step_advances_raster(s: PpuState, cart: Board)
    requires
        s.wf(),
    ensures
        s.step(cart).wf(),
        raster_pos(s.step(cart)) == (raster_pos(s) + 1) % 89342,
        s.step(cart).frames == if raster_pos(s) == 89341 {
            if s.frames == u64::MAX {
                0
            } else {
                (s.frames + 1) as u64
            }
        } else {
            s.frames
        },
{
}

/// The state after `n` dots.
pub open spec fn run_dots(s: PpuState, cart: Board, n: nat) -> PpuState
    decreases n,
{
    if n == 0 {
        s
    } else {
        run_dots(s, cart, (n - 1) as nat).step(cart)
    }
}

/// Dots never touch sprite memory or the OAM address.
pub proof fn lemma_step_keeps_oam(s: PpuState, cart: Board)
    ensures
        s.step(cart).oam == s.oam,
        s.step(cart).oam_addr == s.oam_addr,
{
}

/// After `n` dots the raster has moved `n` places and one frame has been
/// completed for each time it passed the end of the frame.
pub proof fn lemma_run_dots(s: PpuState, cart: Board, n: nat)
    requires
        s.wf(),
        s.frames as int + (raster_pos(s) + n) / 89342 <= u64::MAX as int,
    ensures
        run_dots(s, cart, n).wf(),
        raster_pos(run_dots(s, cart, n)) == (raster_pos(s) + n) % 89342,
        run_dots(s, cart, n).frames == s.frames + (raster_pos(s) + n) / 89342,
    decreases n,
{
    if n > 0 {
        assert((raster_pos(s) + n - 1) / 89342 <= (raster_pos(s) + n) / 89342);
        lemma_run_dots(s, cart, (n - 1) as nat);
        let prev = run_dots(s, cart, (n - 1) as nat);
        lemma_step_advances_raster(prev, cart);
        let p = raster_pos(s) + n - 1;
        assert(p / 89342 + (if p % 89342 == 89341 { 1int } else { 0 }) == (p + 1) / 89342);
    }
}

/// Any 341 x 262 consecutive dots complete exactly one frame and bring the
/// raster back to where it started.
pub proof fn lemma_frame_of_dots(s: PpuState, cart: Board)
    requires
        s.wf(),
        s.frames < u64::MAX,
    ensures
        raster_pos(run_dots(s, cart, 89342)) == raster_pos(s),
        run_dots(s, cart, 89342).frames == s.frames + 1,
{
    lemma_run_dots(s, cart, 89342);
}

/// The picture unit at power-on: memories and latches zero, raster at dot 0
/// of scanline 0, no frame completed, a black frame.
pub open spec fn power_on_state(s: PpuState) -> bool {
    &&& s.vram == Seq::new(4096, |i: int| 0u8)
    &&& s.oam == Seq::new(256, |i: int| 0u8)
    &&& s.palette == Seq::new(32, |i: int| 0u8)
    &&& s.ctrl == 0 && s.mask == 0 && s.status == 0 && s.oam_addr == 0
    &&& s.v == 0 && s.t == 0 && s.fine_x == 0 && !s.w && s.read_buffer == 0
    &&& s.scanline == 0 && s.dot == 0 && s.frames == 0 && !s.nmi
    &&& s.front == Seq::new(245760, |i: int| 0u8)
}

/// What reset makes of `s`: latches and counters cleared, memories and the
/// last frame kept.
pub open spec fn reset_state(s: PpuState) -> PpuState {
    PpuState {
        ctrl: 0,
        mask: 0,
        status: 0,
        oam_addr: 0,
        v: 0,
        t: 0,
        fine_x: 0,
        w: false,
        read_buffer: 0,
        scanline: 0,
        dot: 0,
        nmi: false,
        ..s
    }
}

/// The picture unit.
pub struct PPU {
    vram: Vec<u8>,
    oam: Vec<u8>,
    palette: Vec<u8>,
    ctrl: u8,
    mask: u8,
    status: u8,
    oam_addr: u8,
    v: u16,
    t: u16,
    fine_x: u8,
    w: bool,
    read_buffer: u8,
    scanline: u16,
    dot: u16,
    frames: u64,
    nmi: bool,
    back: Vec<u8>,
    /// The last completed 256x240 RGBA frame.
    framebuffer: Vec<u8>,
    rgb: Vec<u8>,
}

impl View for PPU {
    type V = PpuState;

    closed spec fn view(&self) -> PpuState {
        PpuState {
            vram: self.vram@,
            oam: self.oam@,
            palette: self.palette@,
            ctrl: self.ctrl,
            mask: self.mask,
            status: self.status,
            oam_addr: self.oam_addr,
            v: self.v,
            t: self.t,
            fine_x: self.fine_x,
            w: self.w,
            read_buffer: self.read_buffer,
            scanline: self.scanline,
            dot: self.dot,
            frames: self.frames,
            nmi: self.nmi,
            back: self.back@,
            front: self.framebuffer@,
            rgb: self.rgb@,
        }
    }
}

fn vram_idx(addr: u16, layout: Mirroring) -> (r: usize)
    ensures
        r == vram_index(addr, layout),
        r < 4096,
{
    let off = addr as usize % 0x1000;
    let table = off / 0x400;
    let within = off % 0x400;
    let phys = match layout {
        Mirroring::Horizontal => table / 2,
        Mirroring::Vertical => table % 2,
        Mirroring::FourScreen => table,
    };
    phys * 0x400 + within
}

fn pal_idx(addr: u16) -> (r: usize)
    ensures
        r == palette_index(addr),
        r < 32,
{
    let p = addr as usize % 32;
    if p >= 16 && p % 4 == 0 {
        p - 16
    } else {
        p
    }
}

fn pattern_bits(lo: u8, hi: u8, bit: u8) -> (r: u8)
    requires
        bit < 8,
    ensures
        r as int == pattern_bit(lo, hi, bit as int),
        r < 4,
{
    let a = (lo >> bit) & 1;
    let b = (hi >> bit) & 1;
    assert(a <= 1 && b <= 1) by (bit_vector)
        requires
            a == (lo >> bit) & 1,
            b == (hi >> bit) & 1,
    ;
    a + 2 * b
}

impl PPU {
    pub closed spec fn wf(&self) -> bool {
        self@.wf()
    }

    /// A picture unit at power-on: all memories and latches zero, at dot 0 of scanline 0.
    pub fn new() -> (r: PPU)
        ensures
            r@.wf(),
            power_on_state(r@),
    {
        let vram: Vec<u8> = vec![0u8; VRAM_SIZE];
        let oam: Vec<u8> = vec![0u8; 256];
        let palette: Vec<u8> = vec![0u8; 32];
        let back: Vec<u8> = vec![0u8; FRAME_BYTES];
        let framebuffer: Vec<u8> = vec![0u8; FRAME_BYTES];
        let r = PPU {
            vram,
            oam,
            palette,
            ctrl: 0,
            mask: 0,
            status: 0,
            oam_addr: 0,
            v: 0,
            t: 0,
            fine_x: 0,
            w: false,
            read_buffer: 0,
            scanline: 0,
            dot: 0,
            frames: 0,
            nmi: false,
            back,
            framebuffer,
            rgb: system_palette_table(),
        };
        assert(r@.vram =~= Seq::new(4096, |i: int| 0u8));
        assert(r@.oam =~= Seq::new(256, |i: int| 0u8));
        assert(r@.palette =~= Seq::new(32, |i: int| 0u8));
        assert(r@.front =~= Seq::new(245760, |i: int| 0u8));
        r
    }

    /// Clears the control latches and restarts the raster at dot 0 of scanline
    /// 0; memories and the last frame are kept.
    pub fn reset(&mut self)
        requires
            old(self)@.wf(),
        ensures
            final(self)@ == reset_state(old(self)@),
            final(self)@.wf(),
    {
        self.ctrl = 0;
        self.mask = 0;
        self.status = 0;
        self.oam_addr = 0;
        self.v = 0;
        self.t = 0;
        self.fine_x = 0;
        self.w = false;
        self.read_buffer = 0;
        self.scanline = 0;
        self.dot = 0;
        self.nmi = false;
    }

    fn next_v(&self) -> (r: u16)
        ensures
            r == self@.next_v(),
    {
        let inc: u32 = if self.ctrl & 4 != 0 {
            32
        } else {
            1
        };
        ((self.v as u32 + inc) % 0x8000) as u16
    }

    /// A CPU read of register `reg` (the low three bits of 0x2000..0x2007).
    pub fn read_register(&mut self, cart: &Board, reg: u8) -> (r: u8)
        requires
            old(self)@.wf(),
            reg < 8,
        ensures
            (r, final(self)@) == old(self)@.read_register(*cart, reg),
            final(self)@.wf(),
    {
        if reg == 2 {
            let r = self.status & 0xE0;
            self.status = self.status & 0x7F;
            self.w = false;
            r
        } else if reg == 4 {
            self.oam[self.oam_addr as usize]
        } else if reg == 7 {
            let a = self.v % 0x4000;
            let nv = self.next_v();
            if a >= 0x3F00 {
                let r = self.palette[pal_idx(a)];
                self.read_buffer = self.vram[vram_idx(a, cart.mirroring())];
                self.v = nv;
                r
            } else {
                let r = self.read_buffer;
                let m = if a < 0x2000 {
                    cart.chr_read(a)
                } else {
                    self.vram[vram_idx(a, cart.mirroring())]
                };
                self.read_buffer = m;
                self.v = nv;
                r
            }
        } else {
            0
        }
    }

    /// A write to sprite memory at the OAM address, which then advances.
    pub fn write_oam_data(&mut self, value: u8)
        requires
            old(self)@.wf(),
        ensures
            final(self)@ == (PpuState {
                oam: old(self)@.oam.update(old(self)@.oam_addr as int, value),
                oam_addr: ((old(self)@.oam_addr as int + 1) % 256) as u8,
                ..old(self)@
            }),
            final(self)@.wf(),
    {
        self.oam.set(self.oam_addr as usize, value);
        self.oam_addr = if self.oam_addr == 255 {
            0
        } else {
            self.oam_addr + 1
        };
    }

    /// A CPU write of `value` to register `reg`.
    pub fn write_register(&mut self, cart: &mut Board, reg: u8, value: u8)
        requires
            old(self)@.wf(),
            reg < 8,
        ensures
            final(self)@ == old(self)@.write_register(old(cart).layout(), reg, value),
            final(self)@.wf(),
            match old(self)@.chr_target(reg) {
                Some(a) => old(cart).ppu_written(*final(cart), a, value),
                None => *final(cart) == *old(cart),
            },
    {
        if reg == 0 {
            if self.ctrl & 0x80 == 0 && value & 0x80 != 0 && self.status & 0x80 != 0 {
                self.nmi = true;
            }
            self.ctrl = value;
            self.t = (self.t & 0xF3FF) | (((value & 3) as u16) << 10u16);
        } else if reg == 1 {
            self.mask = value;
        } else if reg == 3 {
            self.oam_addr = value;
        } else if reg == 4 {
            self.write_oam_data(value);
        } else if reg == 5 {
            if !self.w {
                self.t = (self.t & 0xFFE0) | ((value >> 3u8) as u16);
                self.fine_x = value & 7;
                self.w = true;
            } else {
                self.t = (self.t & 0x8C1F) | (((value & 7) as u16) << 12u16) | (((value & 0xF8) as u16)
                    << 2u16);
                self.w = false;
            }
        } else if reg == 6 {
            if !self.w {
                self.t = (self.t & 0x80FF) | (((value & 0x3F) as u16) << 8u16);
                self.w = true;
            } else {
                let nt = (self.t & 0xFF00) | (value as u16);
                self.t = nt;
                self.v = nt;
                self.w = false;
            }
        } else if reg == 7 {
            let a = self.v % 0x4000;
            let nv = self.next_v();
            if a < 0x2000 {
                cart.chr_write(a, value);
            } else if a < 0x3F00 {
                let i = vram_idx(a, cart.mirroring());
                self.vram.set(i, value);
            } else {
                self.palette.set(pal_idx(a), value);
            }
            self.v = nv;
        }
    }

    pub fn registers(&self) -> (r: PpuRegisters)
        ensures
            r == registers_of(self@),
    {
        PpuRegisters {
            ctrl: self.ctrl,
            mask: self.mask,
            status: self.status,
            oam_addr: self.oam_addr,
            v: self.v,
            t: self.t,
            fine_x: self.fine_x,
            w: self.w,
            read_buffer: self.read_buffer,
            scanline: self.scanline,
            dot: self.dot,
            nmi: self.nmi,
        }
    }

    /// Nametable, sprite and palette memory, the frame being drawn and the
    /// last completed frame.
    pub fn memories(&self) -> (r: (&Vec<u8>, &Vec<u8>, &Vec<u8>, &Vec<u8>, &Vec<u8>))
        ensures
            r.0@ == self@.vram && r.1@ == self@.oam && r.2@ == self@.palette && r.3@ == self@.back
                && r.4@ == self@.front,
    {
        (&self.vram, &self.oam, &self.palette, &self.back, &self.framebuffer)
    }

    /// A picture unit rebuilt from its registers, frame count and memories.
    pub fn from_parts(
        regs: PpuRegisters,
        frames: u64,
        vram: Vec<u8>,
        oam: Vec<u8>,
        palette: Vec<u8>,
        back: Vec<u8>,
        front: Vec<u8>,
    ) -> (r: PPU)
        ensures
            registers_of(r@) == regs,
            r@.frames == frames,
            r@.vram == vram@ && r@.oam == oam@ && r@.palette == palette@ && r@.back == back@
                && r@.front == front@,
            r@.rgb == system_palette(),
    {
        PPU {
            vram,
            oam,
            palette,
            ctrl: regs.ctrl,
            mask: regs.mask,
            status: regs.status,
            oam_addr: regs.oam_addr,
            v: regs.v,
            t: regs.t,
            fine_x: regs.fine_x,
            w: regs.w,
            read_buffer: regs.read_buffer,
            scanline: regs.scanline,
            dot: regs.dot,
            frames,
            nmi: regs.nmi,
            back,
            framebuffer: front,
            rgb: system_palette_table(),
        }
    }

    /// Takes the pending NMI request, if any.
    pub fn take_nmi(&mut self) -> (r: bool)
        ensures
            r == old(self)@.nmi,
            final(self)@ == (PpuState { nmi: false, ..old(self)@ }),
            !old(self)@.nmi ==> *final(self) == *old(self),
    {
        let r = self.nmi;
        self.nmi = false;
        r
    }

    /// The last completed frame, 256x240 RGBA.
    pub fn get_framebuffer(&self) -> (r: &Vec<u8>)
        ensures
            r@ == self@.front,
    {
        &self.framebuffer
    }

    /// Number of frames completed since power-on (wrapping).
    pub fn frame_count(&self) -> (r: u64)
        ensures
            r == self@.frames,
    {
        self.frames
    }

    pub fn scanline(&self) -> (r: u16)
        ensures
            r == self@.scanline,
    {
        self.scanline
    }

    pub fn dot(&self) -> (r: u16)
        ensures
            r == self@.dot,
    {
        self.dot
    }

    /// Whether the vertical-blank flag is set.
    pub fn in_vblank(&self) -> (r: bool)
        ensures
            r == (self@.status & 0x80 != 0),
    {
        self.status & 0x80 != 0
    }

    fn bg_pixel_at(&self, cart: &Board, x: u16, y: u16) -> (r: u8)
        requires
            self@.wf(),
            x < 256,
            y < 240,
        ensures
            r as int == self@.bg_pixel(*cart, x as int, y as int),
            r < 16,
    {
        if self.mask & 0x08 == 0 || (x < 8 && self.mask & 0x02 == 0) {
            return 0;
        }
        let sx: usize = ((self.v >> 10u16) & 1) as usize * 256 + (self.v & 0x1F) as usize * 8
            + self.fine_x as usize;
        let sy: usize = ((self.v >> 11u16) & 1) as usize * 240 + ((self.v >> 5u16) & 0x1F) as usize
            * 8 + ((self.v >> 12u16) & 7) as usize;
        let v = self.v;
        assert(((v >> 10u16) & 1) <= 1 && (v & 0x1F) <= 31 && ((v >> 11u16) & 1) <= 1 && ((v
            >> 5u16) & 0x1F) <= 31 && ((v >> 12u16) & 7) <= 7) by (bit_vector);
        let wx = (sx + x as usize) % 512;
        let wy = (sy + y as usize) % 480;
        let nt = wx / 256 + 2 * (wy / 240);
        let col = (wx % 256) / 8;
        let row = (wy % 240) / 8;
        let layout = cart.mirroring();
        let tile = self.vram[vram_idx((0x2000 + nt * 0x400 + row * 32 + col) as u16, layout)];
        let attr = self.vram[vram_idx((0x23C0 + nt * 0x400 + (row / 4) * 8 + col / 4) as u16, layout)];
        let shift = ((row % 4) / 2) * 4 + ((col % 4) / 2) * 2;
        let pal = (attr >> (shift as u8)) & 3;
        assert(pal <= 3) by (bit_vector)
            requires
                pal == (attr >> (shift as u8)) & 3,
        ;
        let base: usize = if self.ctrl & 0x10 != 0 {
            0x1000
        } else {
            0
        };
        let addr = base + tile as usize * 16 + wy % 8;
        let p = pattern_bits(
            cart.chr_read(addr as u16),
            cart.chr_read((addr + 8) as u16),
            (7 - wx % 8) as u8,
        );
        if p == 0 {
            0
        } else {
            pal * 4 + p
        }
    }

    fn sprite_pixel_at(&self, cart: &Board, i: usize, x: u16, y: u16) -> (r: u8)
        requires
            self@.wf(),
            i < 64,
            x < 256,
            y < 240,
        ensures
            r as int == self@.sprite_pixel(*cart, i as int, x as int, y as int),
            r < 32,
            r != 0 ==> r >= 16,
    {
        let sy = self.oam[4 * i] as usize + 1;
        let tile = self.oam[4 * i + 1] as usize;
        let attr = self.oam[4 * i + 2];
        let sx = self.oam[4 * i + 3] as usize;
        let h: usize = if self.ctrl & 0x20 != 0 {
            16
        } else {
            8
        };
        let xu = x as usize;
        let yu = y as usize;
        if self.mask & 0x10 == 0 || (x < 8 && self.mask & 0x04 == 0) || !(sy <= yu && yu < sy + h)
            || !(sx <= xu && xu < sx + 8) {
            return 0;
        }
        let row = if attr & 0x80 != 0 {
            h - 1 - (yu - sy)
        } else {
            yu - sy
        };
        let col = if attr & 0x40 != 0 {
            7 - (xu - sx)
        } else {
            xu - sx
        };
        let addr: usize = if h == 8 {
            (if self.ctrl & 0x08 != 0 {
                0x1000usize
            } else {
                0
            }) + tile * 16 + row
        } else {
            (tile % 2) * 0x1000 + (tile - tile % 2 + row / 8) * 16 + row % 8
        };
        let p = pattern_bits(
            cart.chr_read(addr as u16),
            cart.chr_read((addr + 8) as u16),
            (7 - col) as u8,
        );
        if p == 0 {
            0
        } else {
            let a = attr & 3;
            assert(a <= 3) by (bit_vector)
                requires
                    a == attr & 3,
            ;
            16 + a * 4 + p
        }
    }

    /// Draws the pixel under the current dot.
    fn render_dot(&mut self, cart: &Board)
        requires
            old(self)@.wf(),
            old(self)@.visible(),
        ensures
            final(self)@ == old(self)@.render(*cart),
            final(self)@.wf(),
    {
        let x = self.dot - 1;
        let y = self.scanline;
        let bg = self.bg_pixel_at(cart, x, y);
        let mut i: usize = 0;
        let mut found: usize = 64;
        let mut sp: u8 = 0;
        while i < 64
            invariant
                self@.wf(),
                x < 256,
                y < 240,
                i <= 64,
                found == 64 ==> self@.first_sprite(*cart, x as int, y as int, 0)
                    == self@.first_sprite(*cart, x as int, y as int, i as int),
                found != 64 ==> found < 64 && found == self@.first_sprite(
                    *cart,
                    x as int,
                    y as int,
                    0,
                ) && sp as int == self@.sprite_pixel(*cart, found as int, x as int, y as int),
            decreases 64 - i,
        {
            if found == 64 {
                let p = self.sprite_pixel_at(cart, i, x, y);
                if p != 0 {
                    found = i;
                    sp = p;
                }
            }
            i = i + 1;
        }
        assert(found == self@.first_sprite(*cart, x as int, y as int, 0));
        let e: u8 = if found < 64 && (bg == 0 || self.oam[4 * found + 2] & 0x20 == 0) {
            sp
        } else {
            bg
        };
        let hit = if self.sprite_pixel_at(cart, 0, x, y) != 0 && bg != 0 && x != 255 {
            true
        } else {
            false
        };
        let c = (self.palette[pal_idx(e as u16)] % 64) as usize;
        let o = (y as usize * 256 + x as usize) * 4;
        let red = self.rgb[3 * c];
        let green = self.rgb[3 * c + 1];
        let blue = self.rgb[3 * c + 2];
        self.back.set(o, red);
        self.back.set(o + 1, green);
        self.back.set(o + 2, blue);
        self.back.set(o + 3, 255);
        if hit {
            self.status = self.status | 0x40;
        }
    }

    /// Advances the raster by one dot.
    pub fn step(&mut self, cart: &Board)
        requires
            old(self)@.wf(),
        ensures
            final(self)@ == old(self)@.step(*cart),
            final(self)@.wf(),
    {
        if self.scanline < 240 && self.dot >= 1 && self.dot <= 256 {
            self.render_dot(cart);
        }
        if self.scanline == 241 && self.dot == 1 {
            self.status = self.status | 0x80;
            if self.ctrl & 0x80 != 0 {
                self.nmi = true;
            }
        } else if self.scanline == 261 && self.dot == 1 {
            self.status = self.status & 0x1F;
        }
        let rendering = self.mask & 0x18 != 0;
        if rendering && self.dot == 257 && (self.scanline < 240 || self.scanline == 261) {
            self.v = (self.v & 0xFBE0) | (self.t & 0x041F);
        } else if rendering && self.dot == 304 && self.scanline == 261 {
            self.v = (self.v & 0x041F) | (self.t & 0xFBE0);
        }
        if self.dot < 340 {
            self.dot = self.dot + 1;
        } else if self.scanline < 261 {
            self.dot = 0;
            self.scanline = self.scanline + 1;
        } else {
            self.dot = 0;
            self.scanline = 0;
            self.frames = if self.frames == u64::MAX {
                0
            } else {
                self.frames + 1
            };
            let frame = self.back.clone();
            assert(frame@ =~= self.back@);
            self.framebuffer = frame;
        }
    }
}

} // verus!
