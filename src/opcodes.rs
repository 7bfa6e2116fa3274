//! The 6502 instruction set as data: one (operation, addressing mode) pair per
//! opcode byte, and the documented cycle costs.
use vstd::prelude::*;

verus! {

/// The operations. Undocumented opcodes decode to `Nop` over the addressing
/// mode of their column (the multi-byte NOP family), except 0xEB, which
/// behaves as `Sbc` immediate.
#[derive(Clone, Copy, Debug, PartialEq, Eq, Structural)]
pub enum Op {
    Adc, And, Asl, Bcc, Bcs, Beq, Bit, Bmi, Bne, Bpl, Brk, Bvc, Bvs, Clc, Cld, Cli, Clv, Cmp, Cpx,
    Cpy, Dec, Dex, Dey, Eor, Inc, Inx, Iny, Jmp, Jsr, Lda, Ldx, Ldy, Lsr, Nop, Ora, Pha, Php, Pla,
    Plp, Rol, Ror, Rti, Rts, Sbc, Sec, Sed, Sei, Sta, Stx, Sty, Tax, Tay, Tsx, Txa, Txs, Tya,
}

/// The addressing modes.
#[derive(Clone, Copy, Debug, PartialEq, Eq, Structural)]
pub enum Mode {
    Implied,
    Accumulator,
    Immediate,
    ZeroPage,
    ZeroPageX,
    ZeroPageY,
    Relative,
    Absolute,
    AbsoluteX,
    AbsoluteY,
    Indirect,
    IndexedIndirect,
    IndirectIndexed,
}

/// A decoded opcode.
#[derive(Clone, Copy, Debug, PartialEq, Eq, Structural)]
pub struct Instr {
    pub op: Op,
    pub mode: Mode,
    /// Documented base cost in CPU cycles.
    pub cycles: u8,
    /// Whether crossing a page while indexing costs one more cycle.
    pub page_penalty: bool,
}

pub open spec fn is_read_op(op: Op) -> bool {
    matches!(op, Op::Adc | Op::And | Op::Bit | Op::Cmp | Op::Cpx | Op::Cpy | Op::Eor | Op::Lda | Op::Ldx | Op::Ldy | Op::Ora | Op::Sbc | Op::Nop)
}

pub open spec fn is_store(op: Op) -> bool {
    matches!(op, Op::Sta | Op::Stx | Op::Sty)
}

pub open spec fn is_rmw(op: Op) -> bool {
    matches!(op, Op::Asl | Op::Lsr | Op::Rol | Op::Ror | Op::Inc | Op::Dec)
}

pub open spec fn is_branch(op: Op) -> bool {
    matches!(op, Op::Bcc | Op::Bcs | Op::Beq | Op::Bmi | Op::Bne | Op::Bpl | Op::Bvc | Op::Bvs)
}

/// The documented base cost of `op` in `mode`: reads cost one cycle per bus
/// access, stores always pay for the indexed re-read, and read-modify-write
/// instructions add a dummy write.
pub open spec fn base_cycles(op: Op, mode: Mode) -> u8 {
    match op {
        Op::Brk => 7,
        Op::Jsr | Op::Rts | Op::Rti => 6,
        Op::Pha | Op::Php => 3,
        Op::Pla | Op::Plp => 4,
        Op::Jmp => if mode == Mode::Indirect { 5 } else { 3 },
        _ => if is_rmw(op) {
            match mode {
                Mode::Accumulator => 2,
                Mode::ZeroPage => 5,
                Mode::ZeroPageX | Mode::Absolute => 6,
                _ => 7,
            }
        } else if is_store(op) {
            match mode {
                Mode::ZeroPage => 3,
                Mode::ZeroPageX | Mode::ZeroPageY | Mode::Absolute => 4,
                Mode::AbsoluteX | Mode::AbsoluteY => 5,
                _ => 6,
            }
        } else {
            match mode {
                Mode::ZeroPage => 3,
                Mode::ZeroPageX | Mode::ZeroPageY | Mode::Absolute | Mode::AbsoluteX | Mode::AbsoluteY => 4,
                Mode::IndexedIndirect => 6,
                Mode::IndirectIndexed | Mode::Indirect => 5,
                _ => 2,
            }
        },
    }
}

pub open spec fn page_penalty(op: Op, mode: Mode) -> bool {
    is_read_op(op) && matches!(mode, Mode::AbsoluteX | Mode::AbsoluteY | Mode::IndirectIndexed)
}

/// The decoded form of `opcode`.
pub open spec fn instr_of(opcode: u8) -> Instr {
    let (op, mode) = decode_spec(opcode);
    Instr { op, mode, cycles: base_cycles(op, mode), page_penalty: page_penalty(op, mode) }
}

/// Cycles an instruction takes: its base cost, one more for an indexed page
/// crossing where that costs, one for a taken branch and one more when the
/// branch lands on another page.
pub open spec fn cycle_cost(i: Instr, crossed: bool, taken: bool, branch_crossed: bool) -> int {
    i.cycles as int + (if i.page_penalty && crossed { 1int } else { 0 }) + (if taken {
        1 + if branch_crossed { 1int } else { 0 }
    } else {
        0
    })
}

pub open spec fn decode_spec(opcode: u8) -> (Op, Mode) {
    match opcode {
        0x00 => (Op::Brk, Mode::Implied),
        0x01 => (Op::Ora, Mode::IndexedIndirect),
        0x02 => (Op::Nop, Mode::Implied),
        0x03 => (Op::Nop, Mode::IndexedIndirect),
        0x04 => (Op::Nop, Mode::ZeroPage),
        0x05 => (Op::Ora, Mode::ZeroPage),
        0x06 => (Op::Asl, Mode::ZeroPage),
        0x07 => (Op::Nop, Mode::ZeroPage),
        0x08 => (Op::Php, Mode::Implied),
        0x09 => (Op::Ora, Mode::Immediate),
        0x0A => (Op::Asl, Mode::Accumulator),
        0x0B => (Op::Nop, Mode::Immediate),
        0x0C => (Op::Nop, Mode::Absolute),
        0x0D => (Op::Ora, Mode::Absolute),
        0x0E => (Op::Asl, Mode::Absolute),
        0x0F => (Op::Nop, Mode::Absolute),
        0x10 => (Op::Bpl, Mode::Relative),
        0x11 => (Op::Ora, Mode::IndirectIndexed),
        0x12 => (Op::Nop, Mode::Implied),
        0x13 => (Op::Nop, Mode::IndirectIndexed),
        0x14 => (Op::Nop, Mode::ZeroPageX),
        0x15 => (Op::Ora, Mode::ZeroPageX),
        0x16 => (Op::Asl, Mode::ZeroPageX),
        0x17 => (Op::Nop, Mode::ZeroPageX),
        0x18 => (Op::Clc, Mode::Implied),
        0x19 => (Op::Ora, Mode::AbsoluteY),
        0x1A => (Op::Nop, Mode::Implied),
        0x1B => (Op::Nop, Mode::AbsoluteY),
        0x1C => (Op::Nop, Mode::AbsoluteX),
        0x1D => (Op::Ora, Mode::AbsoluteX),
        0x1E => (Op::Asl, Mode::AbsoluteX),
        0x1F => (Op::Nop, Mode::AbsoluteX),
        0x20 => (Op::Jsr, Mode::Absolute),
        0x21 => (Op::And, Mode::IndexedIndirect),
        0x22 => (Op::Nop, Mode::Implied),
        0x23 => (Op::Nop, Mode::IndexedIndirect),
        0x24 => (Op::Bit, Mode::ZeroPage),
        0x25 => (Op::And, Mode::ZeroPage),
        0x26 => (Op::Rol, Mode::ZeroPage),
        0x27 => (Op::Nop, Mode::ZeroPage),
        0x28 => (Op::Plp, Mode::Implied),
        0x29 => (Op::And, Mode::Immediate),
        0x2A => (Op::Rol, Mode::Accumulator),
        0x2B => (Op::Nop, Mode::Immediate),
        0x2C => (Op::Bit, Mode::Absolute),
        0x2D => (Op::And, Mode::Absolute),
        0x2E => (Op::Rol, Mode::Absolute),
        0x2F => (Op::Nop, Mode::Absolute),
        0x30 => (Op::Bmi, Mode::Relative),
        0x31 => (Op::And, Mode::IndirectIndexed),
        0x32 => (Op::Nop, Mode::Implied),
        0x33 => (Op::Nop, Mode::IndirectIndexed),
        0x34 => (Op::Nop, Mode::ZeroPageX),
        0x35 => (Op::And, Mode::ZeroPageX),
        0x36 => (Op::Rol, Mode::ZeroPageX),
        0x37 => (Op::Nop, Mode::ZeroPageX),
        0x38 => (Op::Sec, Mode::Implied),
        0x39 => (Op::And, Mode::AbsoluteY),
        0x3A => (Op::Nop, Mode::Implied),
        0x3B => (Op::Nop, Mode::AbsoluteY),
        0x3C => (Op::Nop, Mode::AbsoluteX),
        0x3D => (Op::And, Mode::AbsoluteX),
        0x3E => (Op::Rol, Mode::AbsoluteX),
        0x3F => (Op::Nop, Mode::AbsoluteX),
        0x40 => (Op::Rti, Mode::Implied),
        0x41 => (Op::Eor, Mode::IndexedIndirect),
        0x42 => (Op::Nop, Mode::Implied),
        0x43 => (Op::Nop, Mode::IndexedIndirect),
        0x44 => (Op::Nop, Mode::ZeroPage),
        0x45 => (Op::Eor, Mode::ZeroPage),
        0x46 => (Op::Lsr, Mode::ZeroPage),
        0x47 => (Op::Nop, Mode::ZeroPage),
        0x48 => (Op::Pha, Mode::Implied),
        0x49 => (Op::Eor, Mode::Immediate),
        0x4A => (Op::Lsr, Mode::Accumulator),
        0x4B => (Op::Nop, Mode::Immediate),
        0x4C => (Op::Jmp, Mode::Absolute),
        0x4D => (Op::Eor, Mode::Absolute),
        0x4E => (Op::Lsr, Mode::Absolute),
        0x4F => (Op::Nop, Mode::Absolute),
        0x50 => (Op::Bvc, Mode::Relative),
        0x51 => (Op::Eor, Mode::IndirectIndexed),
        0x52 => (Op::Nop, Mode::Implied),
        0x53 => (Op::Nop, Mode::IndirectIndexed),
        0x54 => (Op::Nop, Mode::ZeroPageX),
        0x55 => (Op::Eor, Mode::ZeroPageX),
        0x56 => (Op::Lsr, Mode::ZeroPageX),
        0x57 => (Op::Nop, Mode::ZeroPageX),
        0x58 => (Op::Cli, Mode::Implied),
        0x59 => (Op::Eor, Mode::AbsoluteY),
        0x5A => (Op::Nop, Mode::Implied),
        0x5B => (Op::Nop, Mode::AbsoluteY),
        0x5C => (Op::Nop, Mode::AbsoluteX),
        0x5D => (Op::Eor, Mode::AbsoluteX),
        0x5E => (Op::Lsr, Mode::AbsoluteX),
        0x5F => (Op::Nop, Mode::AbsoluteX),
        0x60 => (Op::Rts, Mode::Implied),
        0x61 => (Op::Adc, Mode::IndexedIndirect),
        0x62 => (Op::Nop, Mode::Implied),
        0x63 => (Op::Nop, Mode::IndexedIndirect),
        0x64 => (Op::Nop, Mode::ZeroPage),
        0x65 => (Op::Adc, Mode::ZeroPage),
        0x66 => (Op::Ror, Mode::ZeroPage),
        0x67 => (Op::Nop, Mode::ZeroPage),
        0x68 => (Op::Pla, Mode::Implied),
        0x69 => (Op::Adc, Mode::Immediate),
        0x6A => (Op::Ror, Mode::Accumulator),
        0x6B => (Op::Nop, Mode::Immediate),
        0x6C => (Op::Jmp, Mode::Indirect),
        0x6D => (Op::Adc, Mode::Absolute),
        0x6E => (Op::Ror, Mode::Absolute),
        0x6F => (Op::Nop, Mode::Absolute),
        0x70 => (Op::Bvs, Mode::Relative),
        0x71 => (Op::Adc, Mode::IndirectIndexed),
        0x72 => (Op::Nop, Mode::Implied),
        0x73 => (Op::Nop, Mode::IndirectIndexed),
        0x74 => (Op::Nop, Mode::ZeroPageX),
        0x75 => (Op::Adc, Mode::ZeroPageX),
        0x76 => (Op::Ror, Mode::ZeroPageX),
        0x77 => (Op::Nop, Mode::ZeroPageX),
        0x78 => (Op::Sei, Mode::Implied),
        0x79 => (Op::Adc, Mode::AbsoluteY),
        0x7A => (Op::Nop, Mode::Implied),
        0x7B => (Op::Nop, Mode::AbsoluteY),
        0x7C => (Op::Nop, Mode::AbsoluteX),
        0x7D => (Op::Adc, Mode::AbsoluteX),
        0x7E => (Op::Ror, Mode::AbsoluteX),
        0x7F => (Op::Nop, Mode::AbsoluteX),
        0x80 => (Op::Nop, Mode::Immediate),
        0x81 => (Op::Sta, Mode::IndexedIndirect),
        0x82 => (Op::Nop, Mode::Immediate),
        0x83 => (Op::Nop, Mode::IndexedIndirect),
        0x84 => (Op::Sty, Mode::ZeroPage),
        0x85 => (Op::Sta, Mode::ZeroPage),
        0x86 => (Op::Stx, Mode::ZeroPage),
        0x87 => (Op::Nop, Mode::ZeroPage),
        0x88 => (Op::Dey, Mode::Implied),
        0x89 => (Op::Nop, Mode::Immediate),
        0x8A => (Op::Txa, Mode::Implied),
        0x8B => (Op::Nop, Mode::Immediate),
        0x8C => (Op::Sty, Mode::Absolute),
        0x8D => (Op::Sta, Mode::Absolute),
        0x8E => (Op::Stx, Mode::Absolute),
        0x8F => (Op::Nop, Mode::Absolute),
        0x90 => (Op::Bcc, Mode::Relative),
        0x91 => (Op::Sta, Mode::IndirectIndexed),
        0x92 => (Op::Nop, Mode::Implied),
        0x93 => (Op::Nop, Mode::IndirectIndexed),
        0x94 => (Op::Sty, Mode::ZeroPageX),
        0x95 => (Op::Sta, Mode::ZeroPageX),
        0x96 => (Op::Stx, Mode::ZeroPageY),
        0x97 => (Op::Nop, Mode::ZeroPageY),
        0x98 => (Op::Tya, Mode::Implied),
        0x99 => (Op::Sta, Mode::AbsoluteY),
        0x9A => (Op::Txs, Mode::Implied),
        0x9B => (Op::Nop, Mode::AbsoluteY),
        0x9C => (Op::Nop, Mode::AbsoluteX),
        0x9D => (Op::Sta, Mode::AbsoluteX),
        0x9E => (Op::Nop, Mode::AbsoluteY),
        0x9F => (Op::Nop, Mode::AbsoluteY),
        0xA0 => (Op::Ldy, Mode::Immediate),
        0xA1 => (Op::Lda, Mode::IndexedIndirect),
        0xA2 => (Op::Ldx, Mode::Immediate),
        0xA3 => (Op::Nop, Mode::IndexedIndirect),
        0xA4 => (Op::Ldy, Mode::ZeroPage),
        0xA5 => (Op::Lda, Mode::ZeroPage),
        0xA6 => (Op::Ldx, Mode::ZeroPage),
        0xA7 => (Op::Nop, Mode::ZeroPage),
        0xA8 => (Op::Tay, Mode::Implied),
        0xA9 => (Op::Lda, Mode::Immediate),
        0xAA => (Op::Tax, Mode::Implied),
        0xAB => (Op::Nop, Mode::Immediate),
        0xAC => (Op::Ldy, Mode::Absolute),
        0xAD => (Op::Lda, Mode::Absolute),
        0xAE => (Op::Ldx, Mode::Absolute),
        0xAF => (Op::Nop, Mode::Absolute),
        0xB0 => (Op::Bcs, Mode::Relative),
        0xB1 => (Op::Lda, Mode::IndirectIndexed),
        0xB2 => (Op::Nop, Mode::Implied),
        0xB3 => (Op::Nop, Mode::IndirectIndexed),
        0xB4 => (Op::Ldy, Mode::ZeroPageX),
        0xB5 => (Op::Lda, Mode::ZeroPageX),
        0xB6 => (Op::Ldx, Mode::ZeroPageY),
        0xB7 => (Op::Nop, Mode::ZeroPageY),
        0xB8 => (Op::Clv, Mode::Implied),
        0xB9 => (Op::Lda, Mode::AbsoluteY),
        0xBA => (Op::Tsx, Mode::Implied),
        0xBB => (Op::Nop, Mode::AbsoluteY),
        0xBC => (Op::Ldy, Mode::AbsoluteX),
        0xBD => (Op::Lda, Mode::AbsoluteX),
        0xBE => (Op::Ldx, Mode::AbsoluteY),
        0xBF => (Op::Nop, Mode::AbsoluteY),
        0xC0 => (Op::Cpy, Mode::Immediate),
        0xC1 => (Op::Cmp, Mode::IndexedIndirect),
        0xC2 => (Op::Nop, Mode::Immediate),
        0xC3 => (Op::Nop, Mode::IndexedIndirect),
        0xC4 => (Op::Cpy, Mode::ZeroPage),
        0xC5 => (Op::Cmp, Mode::ZeroPage),
        0xC6 => (Op::Dec, Mode::ZeroPage),
        0xC7 => (Op::Nop, Mode::ZeroPage),
        0xC8 => (Op::Iny, Mode::Implied),
        0xC9 => (Op::Cmp, Mode::Immediate),
        0xCA => (Op::Dex, Mode::Implied),
        0xCB => (Op::Nop, Mode::Immediate),
        0xCC => (Op::Cpy, Mode::Absolute),
        0xCD => (Op::Cmp, Mode::Absolute),
        0xCE => (Op::Dec, Mode::Absolute),
        0xCF => (Op::Nop, Mode::Absolute),
        0xD0 => (Op::Bne, Mode::Relative),
        0xD1 => (Op::Cmp, Mode::IndirectIndexed),
        0xD2 => (Op::Nop, Mode::Implied),
        0xD3 => (Op::Nop, Mode::IndirectIndexed),
        0xD4 => (Op::Nop, Mode::ZeroPageX),
        0xD5 => (Op::Cmp, Mode::ZeroPageX),
        0xD6 => (Op::Dec, Mode::ZeroPageX),
        0xD7 => (Op::Nop, Mode::ZeroPageX),
        0xD8 => (Op::Cld, Mode::Implied),
        0xD9 => (Op::Cmp, Mode::AbsoluteY),
        0xDA => (Op::Nop, Mode::Implied),
        0xDB => (Op::Nop, Mode::AbsoluteY),
        0xDC => (Op::Nop, Mode::AbsoluteX),
        0xDD => (Op::Cmp, Mode::AbsoluteX),
        0xDE => (Op::Dec, Mode::AbsoluteX),
        0xDF => (Op::Nop, Mode::AbsoluteX),
        0xE0 => (Op::Cpx, Mode::Immediate),
        0xE1 => (Op::Sbc, Mode::IndexedIndirect),
        0xE2 => (Op::Nop, Mode::Immediate),
        0xE3 => (Op::Nop, Mode::IndexedIndirect),
        0xE4 => (Op::Cpx, Mode::ZeroPage),
        0xE5 => (Op::Sbc, Mode::ZeroPage),
        0xE6 => (Op::Inc, Mode::ZeroPage),
        0xE7 => (Op::Nop, Mode::ZeroPage),
        0xE8 => (Op::Inx, Mode::Implied),
        0xE9 => (Op::Sbc, Mode::Immediate),
        0xEA => (Op::Nop, Mode::Implied),
        0xEB => (Op::Sbc, Mode::Immediate),
        0xEC => (Op::Cpx, Mode::Absolute),
        0xED => (Op::Sbc, Mode::Absolute),
        0xEE => (Op::Inc, Mode::Absolute),
        0xEF => (Op::Nop, Mode::Absolute),
        0xF0 => (Op::Beq, Mode::Relative),
        0xF1 => (Op::Sbc, Mode::IndirectIndexed),
        0xF2 => (Op::Nop, Mode::Implied),
        0xF3 => (Op::Nop, Mode::IndirectIndexed),
        0xF4 => (Op::Nop, Mode::ZeroPageX),
        0xF5 => (Op::Sbc, Mode::ZeroPageX),
        0xF6 => (Op::Inc, Mode::ZeroPageX),
        0xF7 => (Op::Nop, Mode::ZeroPageX),
        0xF8 => (Op::Sed, Mode::Implied),
        0xF9 => (Op::Sbc, Mode::AbsoluteY),
        0xFA => (Op::Nop, Mode::Implied),
        0xFB => (Op::Nop, Mode::AbsoluteY),
        0xFC => (Op::Nop, Mode::AbsoluteX),
        0xFD => (Op::Sbc, Mode::AbsoluteX),
        0xFE => (Op::Inc, Mode::AbsoluteX),
        _ => (Op::Nop, Mode::AbsoluteX),
    }
}

pub fn decode_op(opcode: u8) -> (r: (Op, Mode))
    ensures
        r == decode_spec(opcode),
{
    match opcode {
        0x00 => (Op::Brk, Mode::Implied),
        0x01 => (Op::Ora, Mode::IndexedIndirect),
        0x02 => (Op::Nop, Mode::Implied),
        0x03 => (Op::Nop, Mode::IndexedIndirect),
        0x04 => (Op::Nop, Mode::ZeroPage),
        0x05 => (Op::Ora, Mode::ZeroPage),
        0x06 => (Op::Asl, Mode::ZeroPage),
        0x07 => (Op::Nop, Mode::ZeroPage),
        0x08 => (Op::Php, Mode::Implied),
        0x09 => (Op::Ora, Mode::Immediate),
        0x0A => (Op::Asl, Mode::Accumulator),
        0x0B => (Op::Nop, Mode::Immediate),
        0x0C => (Op::Nop, Mode::Absolute),
        0x0D => (Op::Ora, Mode::Absolute),
        0x0E => (Op::Asl, Mode::Absolute),
        0x0F => (Op::Nop, Mode::Absolute),
        0x10 => (Op::Bpl, Mode::Relative),
        0x11 => (Op::Ora, Mode::IndirectIndexed),
        0x12 => (Op::Nop, Mode::Implied),
        0x13 => (Op::Nop, Mode::IndirectIndexed),
        0x14 => (Op::Nop, Mode::ZeroPageX),
        0x15 => (Op::Ora, Mode::ZeroPageX),
        0x16 => (Op::Asl, Mode::ZeroPageX),
        0x17 => (Op::Nop, Mode::ZeroPageX),
        0x18 => (Op::Clc, Mode::Implied),
        0x19 => (Op::Ora, Mode::AbsoluteY),
        0x1A => (Op::Nop, Mode::Implied),
        0x1B => (Op::Nop, Mode::AbsoluteY),
        0x1C => (Op::Nop, Mode::AbsoluteX),
        0x1D => (Op::Ora, Mode::AbsoluteX),
        0x1E => (Op::Asl, Mode::AbsoluteX),
        0x1F => (Op::Nop, Mode::AbsoluteX),
        0x20 => (Op::Jsr, Mode::Absolute),
        0x21 => (Op::And, Mode::IndexedIndirect),
        0x22 => (Op::Nop, Mode::Implied),
        0x23 => (Op::Nop, Mode::IndexedIndirect),
        0x24 => (Op::Bit, Mode::ZeroPage),
        0x25 => (Op::And, Mode::ZeroPage),
        0x26 => (Op::Rol, Mode::ZeroPage),
        0x27 => (Op::Nop, Mode::ZeroPage),
        0x28 => (Op::Plp, Mode::Implied),
        0x29 => (Op::And, Mode::Immediate),
        0x2A => (Op::Rol, Mode::Accumulator),
        0x2B => (Op::Nop, Mode::Immediate),
        0x2C => (Op::Bit, Mode::Absolute),
        0x2D => (Op::And, Mode::Absolute),
        0x2E => (Op::Rol, Mode::Absolute),
        0x2F => (Op::Nop, Mode::Absolute),
        0x30 => (Op::Bmi, Mode::Relative),
        0x31 => (Op::And, Mode::IndirectIndexed),
        0x32 => (Op::Nop, Mode::Implied),
        0x33 => (Op::Nop, Mode::IndirectIndexed),
        0x34 => (Op::Nop, Mode::ZeroPageX),
        0x35 => (Op::And, Mode::ZeroPageX),
        0x36 => (Op::Rol, Mode::ZeroPageX),
        0x37 => (Op::Nop, Mode::ZeroPageX),
        0x38 => (Op::Sec, Mode::Implied),
        0x39 => (Op::And, Mode::AbsoluteY),
        0x3A => (Op::Nop, Mode::Implied),
        0x3B => (Op::Nop, Mode::AbsoluteY),
        0x3C => (Op::Nop, Mode::AbsoluteX),
        0x3D => (Op::And, Mode::AbsoluteX),
        0x3E => (Op::Rol, Mode::AbsoluteX),
        0x3F => (Op::Nop, Mode::AbsoluteX),
        0x40 => (Op::Rti, Mode::Implied),
        0x41 => (Op::Eor, Mode::IndexedIndirect),
        0x42 => (Op::Nop, Mode::Implied),
        0x43 => (Op::Nop, Mode::IndexedIndirect),
        0x44 => (Op::Nop, Mode::ZeroPage),
        0x45 => (Op::Eor, Mode::ZeroPage),
        0x46 => (Op::Lsr, Mode::ZeroPage),
        0x47 => (Op::Nop, Mode::ZeroPage),
        0x48 => (Op::Pha, Mode::Implied),
        0x49 => (Op::Eor, Mode::Immediate),
        0x4A => (Op::Lsr, Mode::Accumulator),
        0x4B => (Op::Nop, Mode::Immediate),
        0x4C => (Op::Jmp, Mode::Absolute),
        0x4D => (Op::Eor, Mode::Absolute),
        0x4E => (Op::Lsr, Mode::Absolute),
        0x4F => (Op::Nop, Mode::Absolute),
        0x50 => (Op::Bvc, Mode::Relative),
        0x51 => (Op::Eor, Mode::IndirectIndexed),
        0x52 => (Op::Nop, Mode::Implied),
        0x53 => (Op::Nop, Mode::IndirectIndexed),
        0x54 => (Op::Nop, Mode::ZeroPageX),
        0x55 => (Op::Eor, Mode::ZeroPageX),
        0x56 => (Op::Lsr, Mode::ZeroPageX),
        0x57 => (Op::Nop, Mode::ZeroPageX),
        0x58 => (Op::Cli, Mode::Implied),
        0x59 => (Op::Eor, Mode::AbsoluteY),
        0x5A => (Op::Nop, Mode::Implied),
        0x5B => (Op::Nop, Mode::AbsoluteY),
        0x5C => (Op::Nop, Mode::AbsoluteX),
        0x5D => (Op::Eor, Mode::AbsoluteX),
        0x5E => (Op::Lsr, Mode::AbsoluteX),
        0x5F => (Op::Nop, Mode::AbsoluteX),
        0x60 => (Op::Rts, Mode::Implied),
        0x61 => (Op::Adc, Mode::IndexedIndirect),
        0x62 => (Op::Nop, Mode::Implied),
        0x63 => (Op::Nop, Mode::IndexedIndirect),
        0x64 => (Op::Nop, Mode::ZeroPage),
        0x65 => (Op::Adc, Mode::ZeroPage),
        0x66 => (Op::Ror, Mode::ZeroPage),
        0x67 => (Op::Nop, Mode::ZeroPage),
        0x68 => (Op::Pla, Mode::Implied),
        0x69 => (Op::Adc, Mode::Immediate),
        0x6A => (Op::Ror, Mode::Accumulator),
        0x6B => (Op::Nop, Mode::Immediate),
        0x6C => (Op::Jmp, Mode::Indirect),
        0x6D => (Op::Adc, Mode::Absolute),
        0x6E => (Op::Ror, Mode::Absolute),
        0x6F => (Op::Nop, Mode::Absolute),
        0x70 => (Op::Bvs, Mode::Relative),
        0x71 => (Op::Adc, Mode::IndirectIndexed),
        0x72 => (Op::Nop, Mode::Implied),
        0x73 => (Op::Nop, Mode::IndirectIndexed),
        0x74 => (Op::Nop, Mode::ZeroPageX),
        0x75 => (Op::Adc, Mode::ZeroPageX),
        0x76 => (Op::Ror, Mode::ZeroPageX),
        0x77 => (Op::Nop, Mode::ZeroPageX),
        0x78 => (Op::Sei, Mode::Implied),
        0x79 => (Op::Adc, Mode::AbsoluteY),
        0x7A => (Op::Nop, Mode::Implied),
        0x7B => (Op::Nop, Mode::AbsoluteY),
        0x7C => (Op::Nop, Mode::AbsoluteX),
        0x7D => (Op::Adc, Mode::AbsoluteX),
        0x7E => (Op::Ror, Mode::AbsoluteX),
        0x7F => (Op::Nop, Mode::AbsoluteX),
        0x80 => (Op::Nop, Mode::Immediate),
        0x81 => (Op::Sta, Mode::IndexedIndirect),
        0x82 => (Op::Nop, Mode::Immediate),
        0x83 => (Op::Nop, Mode::IndexedIndirect),
        0x84 => (Op::Sty, Mode::ZeroPage),
        0x85 => (Op::Sta, Mode::ZeroPage),
        0x86 => (Op::Stx, Mode::ZeroPage),
        0x87 => (Op::Nop, Mode::ZeroPage),
        0x88 => (Op::Dey, Mode::Implied),
        0x89 => (Op::Nop, Mode::Immediate),
        0x8A => (Op::Txa, Mode::Implied),
        0x8B => (Op::Nop, Mode::Immediate),
        0x8C => (Op::Sty, Mode::Absolute),
        0x8D => (Op::Sta, Mode::Absolute),
        0x8E => (Op::Stx, Mode::Absolute),
        0x8F => (Op::Nop, Mode::Absolute),
        0x90 => (Op::Bcc, Mode::Relative),
        0x91 => (Op::Sta, Mode::IndirectIndexed),
        0x92 => (Op::Nop, Mode::Implied),
        0x93 => (Op::Nop, Mode::IndirectIndexed),
        0x94 => (Op::Sty, Mode::ZeroPageX),
        0x95 => (Op::Sta, Mode::ZeroPageX),
        0x96 => (Op::Stx, Mode::ZeroPageY),
        0x97 => (Op::Nop, Mode::ZeroPageY),
        0x98 => (Op::Tya, Mode::Implied),
        0x99 => (Op::Sta, Mode::AbsoluteY),
        0x9A => (Op::Txs, Mode::Implied),
        0x9B => (Op::Nop, Mode::AbsoluteY),
        0x9C => (Op::Nop, Mode::AbsoluteX),
        0x9D => (Op::Sta, Mode::AbsoluteX),
        0x9E => (Op::Nop, Mode::AbsoluteY),
        0x9F => (Op::Nop, Mode::AbsoluteY),
        0xA0 => (Op::Ldy, Mode::Immediate),
        0xA1 => (Op::Lda, Mode::IndexedIndirect),
        0xA2 => (Op::Ldx, Mode::Immediate),
        0xA3 => (Op::Nop, Mode::IndexedIndirect),
        0xA4 => (Op::Ldy, Mode::ZeroPage),
        0xA5 => (Op::Lda, Mode::ZeroPage),
        0xA6 => (Op::Ldx, Mode::ZeroPage),
        0xA7 => (Op::Nop, Mode::ZeroPage),
        0xA8 => (Op::Tay, Mode::Implied),
        0xA9 => (Op::Lda, Mode::Immediate),
        0xAA => (Op::Tax, Mode::Implied),
        0xAB => (Op::Nop, Mode::Immediate),
        0xAC => (Op::Ldy, Mode::Absolute),
        0xAD => (Op::Lda, Mode::Absolute),
        0xAE => (Op::Ldx, Mode::Absolute),
        0xAF => (Op::Nop, Mode::Absolute),
        0xB0 => (Op::Bcs, Mode::Relative),
        0xB1 => (Op::Lda, Mode::IndirectIndexed),
        0xB2 => (Op::Nop, Mode::Implied),
        0xB3 => (Op::Nop, Mode::IndirectIndexed),
        0xB4 => (Op::Ldy, Mode::ZeroPageX),
        0xB5 => (Op::Lda, Mode::ZeroPageX),
        0xB6 => (Op::Ldx, Mode::ZeroPageY),
        0xB7 => (Op::Nop, Mode::ZeroPageY),
        0xB8 => (Op::Clv, Mode::Implied),
        0xB9 => (Op::Lda, Mode::AbsoluteY),
        0xBA => (Op::Tsx, Mode::Implied),
        0xBB => (Op::Nop, Mode::AbsoluteY),
        0xBC => (Op::Ldy, Mode::AbsoluteX),
        0xBD => (Op::Lda, Mode::AbsoluteX),
        0xBE => (Op::Ldx, Mode::AbsoluteY),
        0xBF => (Op::Nop, Mode::AbsoluteY),
        0xC0 => (Op::Cpy, Mode::Immediate),
        0xC1 => (Op::Cmp, Mode::IndexedIndirect),
        0xC2 => (Op::Nop, Mode::Immediate),
        0xC3 => (Op::Nop, Mode::IndexedIndirect),
        0xC4 => (Op::Cpy, Mode::ZeroPage),
        0xC5 => (Op::Cmp, Mode::ZeroPage),
        0xC6 => (Op::Dec, Mode::ZeroPage),
        0xC7 => (Op::Nop, Mode::ZeroPage),
        0xC8 => (Op::Iny, Mode::Implied),
        0xC9 => (Op::Cmp, Mode::Immediate),
        0xCA => (Op::Dex, Mode::Implied),
        0xCB => (Op::Nop, Mode::Immediate),
        0xCC => (Op::Cpy, Mode::Absolute),
        0xCD => (Op::Cmp, Mode::Absolute),
        0xCE => (Op::Dec, Mode::Absolute),
        0xCF => (Op::Nop, Mode::Absolute),
        0xD0 => (Op::Bne, Mode::Relative),
        0xD1 => (Op::Cmp, Mode::IndirectIndexed),
        0xD2 => (Op::Nop, Mode::Implied),
        0xD3 => (Op::Nop, Mode::IndirectIndexed),
        0xD4 => (Op::Nop, Mode::ZeroPageX),
        0xD5 => (Op::Cmp, Mode::ZeroPageX),
        0xD6 => (Op::Dec, Mode::ZeroPageX),
        0xD7 => (Op::Nop, Mode::ZeroPageX),
        0xD8 => (Op::Cld, Mode::Implied),
        0xD9 => (Op::Cmp, Mode::AbsoluteY),
        0xDA => (Op::Nop, Mode::Implied),
        0xDB => (Op::Nop, Mode::AbsoluteY),
        0xDC => (Op::Nop, Mode::AbsoluteX),
        0xDD => (Op::Cmp, Mode::AbsoluteX),
        0xDE => (Op::Dec, Mode::AbsoluteX),
        0xDF => (Op::Nop, Mode::AbsoluteX),
        0xE0 => (Op::Cpx, Mode::Immediate),
        0xE1 => (Op::Sbc, Mode::IndexedIndirect),
        0xE2 => (Op::Nop, Mode::Immediate),
        0xE3 => (Op::Nop, Mode::IndexedIndirect),
        0xE4 => (Op::Cpx, Mode::ZeroPage),
        0xE5 => (Op::Sbc, Mode::ZeroPage),
        0xE6 => (Op::Inc, Mode::ZeroPage),
        0xE7 => (Op::Nop, Mode::ZeroPage),
        0xE8 => (Op::Inx, Mode::Implied),
        0xE9 => (Op::Sbc, Mode::Immediate),
        0xEA => (Op::Nop, Mode::Implied),
        0xEB => (Op::Sbc, Mode::Immediate),
        0xEC => (Op::Cpx, Mode::Absolute),
        0xED => (Op::Sbc, Mode::Absolute),
        0xEE => (Op::Inc, Mode::Absolute),
        0xEF => (Op::Nop, Mode::Absolute),
        0xF0 => (Op::Beq, Mode::Relative),
        0xF1 => (Op::Sbc, Mode::IndirectIndexed),
        0xF2 => (Op::Nop, Mode::Implied),
        0xF3 => (Op::Nop, Mode::IndirectIndexed),
        0xF4 => (Op::Nop, Mode::ZeroPageX),
        0xF5 => (Op::Sbc, Mode::ZeroPageX),
        0xF6 => (Op::Inc, Mode::ZeroPageX),
        0xF7 => (Op::Nop, Mode::ZeroPageX),
        0xF8 => (Op::Sed, Mode::Implied),
        0xF9 => (Op::Sbc, Mode::AbsoluteY),
        0xFA => (Op::Nop, Mode::Implied),
        0xFB => (Op::Nop, Mode::AbsoluteY),
        0xFC => (Op::Nop, Mode::AbsoluteX),
        0xFD => (Op::Sbc, Mode::AbsoluteX),
        0xFE => (Op::Inc, Mode::AbsoluteX),
        _ => (Op::Nop, Mode::AbsoluteX),
    }
}

fn is_read(op: Op) -> (r: bool)
    ensures
        r == is_read_op(op),
{
    matches!(op, Op::Adc | Op::And | Op::Bit | Op::Cmp | Op::Cpx | Op::Cpy | Op::Eor | Op::Lda | Op::Ldx | Op::Ldy | Op::Ora | Op::Sbc | Op::Nop)
}

fn cost_of(op: Op, mode: Mode) -> (r: u8)
    ensures
        r == base_cycles(op, mode),
{
    match op {
        Op::Brk => 7,
        Op::Jsr | Op::Rts | Op::Rti => 6,
        Op::Pha | Op::Php => 3,
        Op::Pla | Op::Plp => 4,
        Op::Jmp => if matches!(mode, Mode::Indirect) { 5 } else { 3 },
        Op::Asl | Op::Lsr | Op::Rol | Op::Ror | Op::Inc | Op::Dec => match mode {
            Mode::Accumulator => 2,
            Mode::ZeroPage => 5,
            Mode::ZeroPageX | Mode::Absolute => 6,
            _ => 7,
        },
        Op::Sta | Op::Stx | Op::Sty => match mode {
            Mode::ZeroPage => 3,
            Mode::ZeroPageX | Mode::ZeroPageY | Mode::Absolute => 4,
            Mode::AbsoluteX | Mode::AbsoluteY => 5,
            _ => 6,
        },
        _ => match mode {
            Mode::ZeroPage => 3,
            Mode::ZeroPageX | Mode::ZeroPageY | Mode::Absolute | Mode::AbsoluteX | Mode::AbsoluteY => 4,
            Mode::IndexedIndirect => 6,
            Mode::IndirectIndexed | Mode::Indirect => 5,
            _ => 2,
        },
    }
}

/// Decodes an opcode byte through the dispatch table.
pub fn decode(opcode: u8) -> (r: Instr)
    ensures
        r == instr_of(opcode),
{
    let (op, mode) = decode_op(opcode);
    let penalty = is_read(op) && matches!(mode, Mode::AbsoluteX | Mode::AbsoluteY | Mode::IndirectIndexed);
    Instr { op, mode, cycles: cost_of(op, mode), page_penalty: penalty }
}

/// The cycles an executed instruction took.
pub fn total_cycles(i: Instr, crossed: bool, taken: bool, branch_crossed: bool) -> (r: u8)
    requires
        i.cycles <= 7,
    ensures
        r as int == cycle_cost(i, crossed, taken, branch_crossed),
{
    let mut r = i.cycles;
    if i.page_penalty && crossed {
        r = r + 1;
    }
    if taken {
        r = r + 1;
        if branch_crossed {
            r = r + 1;
        }
    }
    r
}

/// Every base cost lies between two and seven cycles.
pub proof fn lemma_base_cycles_range(opcode: u8)
    ensures
        2 <= instr_of(opcode).cycles <= 7,
{
}

} // verus!
