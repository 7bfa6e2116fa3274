//! Cartridge address decoding: the capability interface and its variants.
use vstd::prelude::*;
use crate::cartridge::{Cartridge, Mirroring};

verus! {

/// What the console asks of a cartridge board, from the CPU side and the PPU side.
pub trait Mapper: Sized {
    /// The byte the CPU sees at `addr`.
    spec fn cpu_byte(&self, addr: u16) -> u8;

    /// The byte the PPU sees at pattern address `addr`.
    spec fn ppu_byte(&self, addr: u16) -> u8;

    /// `post` is this board after the CPU wrote `value` at `addr`.
    spec fn cpu_written(&self, post: Self, addr: u16, value: u8) -> bool;

    /// `post` is this board after the PPU wrote `value` at pattern address `addr`.
    spec fn ppu_written(&self, post: Self, addr: u16, value: u8) -> bool;

    /// The nametable layout the board currently selects.
    spec fn layout(&self) -> Mirroring;

    fn read(&self, addr: u16) -> (r: u8)
        ensures
            r == self.cpu_byte(addr),
    ;

    fn write(&mut self, addr: u16, value: u8)
        ensures
            old(self).cpu_written(*final(self), addr, value),
    ;

    fn chr_read(&self, addr: u16) -> (r: u8)
        ensures
            r == self.ppu_byte(addr),
    ;

    fn chr_write(&mut self, addr: u16, value: u8)
        ensures
            old(self).ppu_written(*final(self), addr, value),
    ;

    fn mirroring(&self) -> (m: Mirroring)
        ensures
            m == self.layout(),
    ;
}

/// Mapper 0: fixed PRG and CHR, no bank registers. A 16KB PRG image repeats
/// across the whole 32KB window.
pub struct Mapper0 {
    prg_rom: Vec<u8>,
    chr_rom: Vec<u8>,
    chr_is_ram: bool,
    nametables: Mirroring,
}

/// The byte at `offset` of `rom`, with `offset` wrapped to the image length.
pub open spec fn wrapped(rom: Seq<u8>, offset: int) -> u8 {
    if rom.len() == 0 {
        0
    } else {
        rom[offset % (rom.len() as int)]
    }
}

impl Mapper0 {
    pub closed spec fn prg(&self) -> Seq<u8> {
        self.prg_rom@
    }

    pub closed spec fn chr(&self) -> Seq<u8> {
        self.chr_rom@
    }

    pub closed spec fn chr_writable(&self) -> bool {
        self.chr_is_ram
    }

    /// A board over the given PRG and CHR images, with read-only CHR and
    /// horizontal nametables.
    pub fn new(prg_rom: Vec<u8>, chr_rom: Vec<u8>) -> (r: Self)
        ensures
            r.prg() == prg_rom@,
            r.chr() == chr_rom@,
            !r.chr_writable(),
            r.layout() == Mirroring::Horizontal,
    {
        Mapper0 { prg_rom, chr_rom, chr_is_ram: false, nametables: Mirroring::Horizontal }
    }

    /// A board from its parts.
    pub fn from_parts(prg_rom: Vec<u8>, chr_rom: Vec<u8>, chr_is_ram: bool, nametables: Mirroring) -> (r: Self)
        ensures
            r.prg() == prg_rom@,
            r.chr() == chr_rom@,
            r.chr_writable() == chr_is_ram,
            r.layout() == nametables,
    {
        Mapper0 { prg_rom, chr_rom, chr_is_ram, nametables }
    }

    /// Program and pattern memory, whether the latter is RAM, and the layout.
    pub fn parts(&self) -> (r: (&Vec<u8>, &Vec<u8>, bool, Mirroring))
        ensures
            r.0@ == self.prg(),
            r.1@ == self.chr(),
            r.2 == self.chr_writable(),
            r.3 == self.layout(),
    {
        (&self.prg_rom, &self.chr_rom, self.chr_is_ram, self.nametables)
    }

    /// The board for a parsed image.
    pub fn from_cartridge(cart: Cartridge) -> (r: Self)
        ensures
            r.prg() == cart.prg_rom@,
            r.chr() == cart.chr_rom@,
            r.chr_writable() == cart.chr_is_ram,
            r.layout() == cart.mirroring,
    {
        Mapper0 {
            prg_rom: cart.prg_rom,
            chr_rom: cart.chr_rom,
            chr_is_ram: cart.chr_is_ram,
            nametables: cart.mirroring,
        }
    }
}

impl Mapper for Mapper0 {
    open spec fn cpu_byte(&self, addr: u16) -> u8 {
        if addr >= 0x8000 {
            wrapped(self.prg(), addr - 0x8000)
        } else {
            0
        }
    }

    open spec fn ppu_byte(&self, addr: u16) -> u8 {
        wrapped(self.chr(), (addr % 0x2000) as int)
    }

    open spec fn cpu_written(&self, post: Self, addr: u16, value: u8) -> bool {
        post == *self
    }

    open spec fn ppu_written(&self, post: Self, addr: u16, value: u8) -> bool {
        &&& post.prg() == self.prg()
        &&& post.chr_writable() == self.chr_writable()
        &&& post.layout() == self.layout()
        &&& post.chr() == if self.chr_writable() && self.chr().len() > 0 {
            self.chr().update((addr % 0x2000) as int % (self.chr().len() as int), value)
        } else {
            self.chr()
        }
    }

    closed spec fn layout(&self) -> Mirroring {
        self.nametables
    }

    fn read(&self, addr: u16) -> (r: u8) {
        if addr >= 0x8000 && self.prg_rom.len() > 0 {
            let offset = (addr - 0x8000) as usize;
            self.prg_rom[offset % self.prg_rom.len()]
        } else {
            0
        }
    }

    /// Mapper 0 has no registers and its PRG is read-only.
    fn write(&mut self, addr: u16, value: u8) {
    }

    fn chr_read(&self, addr: u16) -> (r: u8) {
        if self.chr_rom.len() > 0 {
            let offset = (addr % 0x2000) as usize;
            self.chr_rom[offset % self.chr_rom.len()]
        } else {
            0
        }
    }

    fn chr_write(&mut self, addr: u16, value: u8) {
        if self.chr_is_ram && self.chr_rom.len() > 0 {
            let offset = (addr % 0x2000) as usize;
            let i = offset % self.chr_rom.len();
            self.chr_rom.set(i, value);
        }
    }

    fn mirroring(&self) -> (m: Mirroring) {
        self.nametables
    }
}

/// The boards this library provides, tagged by iNES mapper number. A new board
/// is a new variant; the bus only ever speaks to the `Mapper` interface.
pub enum Board {
    Nrom(Mapper0),
}

impl Board {
    /// The board for a parsed image. Every mapper number gets the fixed
    /// mapping; bank-switching boards would be further variants.
    pub fn from_cartridge(cart: Cartridge) -> (r: Board)
        ensures
            (r matches Board::Nrom(m) && m.prg() == cart.prg_rom@ && m.chr() == cart.chr_rom@
                && m.chr_writable() == cart.chr_is_ram && m.layout() == cart.mirroring),
    {
        Board::Nrom(Mapper0::from_cartridge(cart))
    }

    /// A board with no program: every CPU read of cartridge space gives 0.
    pub fn empty() -> (r: Board)
        ensures
            (r matches Board::Nrom(m) && m.prg().len() == 0 && m.chr().len() == 0),
    {
        Board::Nrom(Mapper0::new(Vec::new(), Vec::new()))
    }
}

impl Mapper for Board {
    open spec fn cpu_byte(&self, addr: u16) -> u8 {
        match self {
            Board::Nrom(m) => m.cpu_byte(addr),
        }
    }

    open spec fn ppu_byte(&self, addr: u16) -> u8 {
        match self {
            Board::Nrom(m) => m.ppu_byte(addr),
        }
    }

    open spec fn cpu_written(&self, post: Self, addr: u16, value: u8) -> bool {
        match (self, post) {
            (Board::Nrom(m), Board::Nrom(p)) => m.cpu_written(p, addr, value),
        }
    }

    open spec fn ppu_written(&self, post: Self, addr: u16, value: u8) -> bool {
        match (self, post) {
            (Board::Nrom(m), Board::Nrom(p)) => m.ppu_written(p, addr, value),
        }
    }

    open spec fn layout(&self) -> Mirroring {
        match self {
            Board::Nrom(m) => m.layout(),
        }
    }

    fn read(&self, addr: u16) -> (r: u8) {
        match self {
            Board::Nrom(m) => m.read(addr),
        }
    }

    fn write(&mut self, addr: u16, value: u8) {
        match self {
            Board::Nrom(m) => m.write(addr, value),
        }
    }

    fn chr_read(&self, addr: u16) -> (r: u8) {
        match self {
            Board::Nrom(m) => m.chr_read(addr),
        }
    }

    fn chr_write(&mut self, addr: u16, value: u8) {
        match self {
            Board::Nrom(m) => m.chr_write(addr, value),
        }
    }

    fn mirroring(&self) -> (m: Mirroring) {
        match self {
            Board::Nrom(m) => m.mirroring(),
        }
    }
}

/// A 16KB program appears twice in the 32KB cartridge window.
pub proof fn lemma_half_size_prg_mirrors(m: Mapper0, addr: u16)
    requires
        m.prg().len() == 0x4000,
        0x8000 <= addr < 0xC000,
    ensures
        m.cpu_byte(addr) == m.cpu_byte((addr + 0x4000) as u16),
{
}

} // verus!
