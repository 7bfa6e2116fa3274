//! Parsing of iNES cartridge images.
use vstd::prelude::*;

verus! {

/// How the two physical nametables fill the four logical ones.
#[derive(Clone, Copy, Debug, PartialEq, Eq, Structural)]
pub enum Mirroring {
    Horizontal,
    Vertical,
    FourScreen,
}

/// Why an image was refused; every kind is an invalid cartridge image.
#[derive(Clone, Copy, Debug, PartialEq, Eq, Structural)]
pub enum CartridgeError {
    /// Fewer bytes than the 16-byte header.
    TooShort,
    /// The first four bytes are not `N E S 0x1A`.
    BadMagic,
    /// The header declares more PRG/CHR data than the file holds.
    Truncated,
}

/// A parsed image: header fields plus the PRG and CHR bytes.
pub struct Cartridge {
    pub prg_rom: Vec<u8>,
    pub chr_rom: Vec<u8>,
    pub mapper_id: u8,
    pub mirroring: Mirroring,
    /// Whether the image had no CHR banks, so pattern memory is writable RAM.
    pub chr_is_ram: bool,
}

pub const HEADER_LEN: usize = 16;
pub const PRG_BANK: usize = 16384;
pub const CHR_BANK: usize = 8192;

pub open spec fn has_magic(d: Seq<u8>) -> bool {
    d.len() >= 4 && d[0] == 0x4E && d[1] == 0x45 && d[2] == 0x53 && d[3] == 0x1A
}

/// Offset of the PRG data: right after the 16-byte header.
pub open spec fn prg_start(d: Seq<u8>) -> int {
    16
}

pub open spec fn prg_len(d: Seq<u8>) -> int
    recommends
        d.len() >= 16,
{
    d[4] as int * 16384
}

pub open spec fn chr_len(d: Seq<u8>) -> int
    recommends
        d.len() >= 16,
{
    d[5] as int * 8192
}

pub open spec fn mapper_id_of(d: Seq<u8>) -> u8
    recommends
        d.len() >= 16,
{
    (d[6] >> 4) | (d[7] & 0xF0)
}

pub open spec fn mirroring_of(d: Seq<u8>) -> Mirroring
    recommends
        d.len() >= 16,
{
    if d[6] & 8 != 0 {
        Mirroring::FourScreen
    } else if d[6] & 1 != 0 {
        Mirroring::Vertical
    } else {
        Mirroring::Horizontal
    }
}

/// The declared data fits in the file.
pub open spec fn sizes_fit(d: Seq<u8>) -> bool {
    prg_start(d) + prg_len(d) + chr_len(d) <= d.len()
}

/// The error that parsing `d` yields, if any, in the order the checks are made.
pub open spec fn parse_error(d: Seq<u8>) -> Option<CartridgeError> {
    if d.len() < 16 {
        Some(CartridgeError::TooShort)
    } else if !has_magic(d) {
        Some(CartridgeError::BadMagic)
    } else if !sizes_fit(d) {
        Some(CartridgeError::Truncated)
    } else {
        None
    }
}

/// The CHR bytes a parsed image carries: the declared banks, or 8KB of zeroed RAM.
pub open spec fn chr_of(d: Seq<u8>) -> Seq<u8> {
    if chr_len(d) == 0 {
        Seq::new(8192, |i: int| 0u8)
    } else {
        d.subrange(prg_start(d) + prg_len(d), prg_start(d) + prg_len(d) + chr_len(d))
    }
}

/// `c` is the cartridge described by the well-formed image `d`.
pub open spec fn parsed_from(c: &Cartridge, d: Seq<u8>) -> bool {
    &&& c.prg_rom@ == d.subrange(prg_start(d), prg_start(d) + prg_len(d))
    &&& c.chr_rom@ == chr_of(d)
    &&& c.chr_is_ram == (chr_len(d) == 0)
    &&& c.mapper_id == mapper_id_of(d)
    &&& c.mirroring == mirroring_of(d)
}

/// A copy of `data[start..start + len]`.
pub fn copy_range(data: &[u8], start: usize, len: usize) -> (r: Vec<u8>)
    requires
        start + len <= data.len(),
    ensures
        r@ == data@.subrange(start as int, start + len),
{
    let mut r: Vec<u8> = Vec::with_capacity(len);
    let mut i: usize = 0;
    while i < len
        invariant
            i <= len,
            start + len <= data.len(),
            r@ == data@.subrange(start as int, start + i),
        decreases len - i,
    {
        r.push(data[start + i]);
        i = i + 1;
        assert(r@ =~= data@.subrange(start as int, start + i));
    }
    r
}

/// Parses an iNES image: header, optional trainer, PRG banks, then CHR banks.
pub fn parse_ines(data: &[u8]) -> (r: Result<Cartridge, CartridgeError>)
    ensures
        match r {
            Ok(c) => parse_error(data@) is None && parsed_from(&c, data@),
            Err(e) => parse_error(data@) == Some(e),
        },
{
    if data.len() < HEADER_LEN {
        return Err(CartridgeError::TooShort);
    }
    if data[0] != 0x4E || data[1] != 0x45 || data[2] != 0x53 || data[3] != 0x1A {
        return Err(CartridgeError::BadMagic);
    }
    let start: usize = HEADER_LEN;
    let prg_size: usize = data[4] as usize * PRG_BANK;
    let chr_size: usize = data[5] as usize * CHR_BANK;
    if start + prg_size + chr_size > data.len() {
        return Err(CartridgeError::Truncated);
    }
    let prg_rom = copy_range(data, start, prg_size);
    let chr_is_ram = chr_size == 0;
    let chr_rom = if chr_is_ram {
        let v: Vec<u8> = vec![0u8; CHR_BANK];
        assert(v@ =~= Seq::new(8192, |i: int| 0u8));
        v
    } else {
        copy_range(data, start + prg_size, chr_size)
    };
    let mirroring = if data[6] & 8 != 0 {
        Mirroring::FourScreen
    } else if data[6] & 1 != 0 {
        Mirroring::Vertical
    } else {
        Mirroring::Horizontal
    };
    Ok(Cartridge { prg_rom, chr_rom, mapper_id: (data[6] >> 4) | (data[7] & 0xF0), mirroring, chr_is_ram })
}

} // verus!
