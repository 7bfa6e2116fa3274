//! The 6502 instruction engine: fetch, decode through the opcode table,
//! address resolution, execution against the register file and the bus, and
//! interrupt entry.
use vstd::prelude::*;
use crate::bus::{route, Bus, Region};
use crate::mapper::Mapper;
use crate::opcodes::{
    cycle_cost, decode, instr_of, is_branch, is_read_op, is_rmw, is_store, page_penalty,
    total_cycles, Mode, Op,
};

verus! {

/// The register file.
#[derive(Clone, Copy, Debug, PartialEq, Eq, Structural)]
pub struct Cpu6502 {
    pub a: u8,
    pub x: u8,
    pub y: u8,
    pub pc: u16,
    pub sp: u8,
    pub carry: bool,
    pub zero: bool,
    pub irq_disable: bool,
    pub decimal: bool,
    pub overflow: bool,
    pub negative: bool,
}

/// What one executed instruction cost, and why.
#[derive(Clone, Copy, Debug, PartialEq, Eq, Structural)]
pub struct Executed {
    pub opcode: u8,
    pub cycles: u8,
    /// An indexed address crossed a page.
    pub crossed: bool,
    /// A branch was taken.
    pub taken: bool,
    /// A taken branch landed on another page.
    pub branch_crossed: bool,
}

/// The little-endian word `hi:lo`.
pub open spec fn word_of(lo: u8, hi: u8) -> u16 {
    (hi as int * 256 + lo as int) as u16
}

/// A two's-complement byte as a signed offset.
pub open spec fn signed(b: u8) -> int {
    if b < 128 {
        b as int
    } else {
        b as int - 256
    }
}

pub fn word(lo: u8, hi: u8) -> (r: u16)
    ensures
        r == word_of(lo, hi),
{
    (hi as u16) * 256 + lo as u16
}

/// `base + idx` in the 16-bit space, and whether the sum left base's page.
pub fn indexed(base: u16, idx: u8) -> (r: (u16, bool))
    ensures
        r.0 == (base as int + idx as int) % 65536,
        r.1 == (base as int / 256 != r.0 as int / 256),
{
    let sum: u32 = base as u32 + idx as u32;
    let a = (sum % 65536) as u16;
    (a, base / 256 != a / 256)
}

/// The target of a relative branch from `pc` (the address after the
/// operand), and whether it lies on another page.
pub fn branch_target(pc: u16, offset: u8) -> (r: (u16, bool))
    ensures
        r.0 == (pc as int + signed(offset) + 65536) % 65536,
        r.1 == (pc as int / 256 != r.0 as int / 256),
{
    let t: u32 = (pc as u32 + offset as u32 + (if offset >= 128 { 65280u32 } else { 0u32 })) % 65536;
    let a = t as u16;
    (a, pc / 256 != a / 256)
}

impl Cpu6502 {
    pub open spec fn with_zn(self, v: u8) -> Cpu6502 {
        Cpu6502 { zero: v == 0, negative: v >= 0x80, ..self }
    }

    /// The status byte: N V 1 B D I Z C.
    pub open spec fn status_byte(self, brk: bool) -> u8 {
        (if self.negative { 0x80u8 } else { 0u8 }) | (if self.overflow { 0x40u8 } else { 0u8 }) | 0x20u8 | (
        if brk { 0x10u8 } else { 0u8 }) | (if self.decimal { 0x08u8 } else { 0u8 }) | (
        if self.irq_disable { 0x04u8 } else { 0u8 }) | (if self.zero { 0x02u8 } else { 0u8 }) | (
        if self.carry { 0x01u8 } else { 0u8 })
    }

    pub open spec fn with_status(self, p: u8) -> Cpu6502 {
        Cpu6502 {
            carry: p & 1 != 0,
            zero: p & 2 != 0,
            irq_disable: p & 4 != 0,
            decimal: p & 8 != 0,
            overflow: p & 0x40 != 0,
            negative: p & 0x80 != 0,
            ..self
        }
    }

    /// Add with carry (binary; this CPU has no decimal arithmetic).
    pub open spec fn adc(self, m: u8) -> Cpu6502 {
        let sum = self.a as int + m as int + (if self.carry { 1int } else { 0 });
        let r = (sum % 256) as u8;
        Cpu6502 {
            a: r,
            carry: sum > 255,
            overflow: (self.a ^ r) & (m ^ r) & 0x80 != 0,
            ..self
        }.with_zn(r)
    }

    pub open spec fn compare(self, reg: u8, m: u8) -> Cpu6502 {
        Cpu6502 { carry: reg >= m, ..self }.with_zn(((reg as int - m as int + 256) % 256) as u8)
    }

    /// Effect of an operation that reads operand `m`.
    pub open spec fn read_op(self, op: Op, m: u8) -> Cpu6502 {
        match op {
            Op::Adc => self.adc(m),
            Op::Sbc => self.adc(m ^ 0xFF),
            Op::And => Cpu6502 { a: self.a & m, ..self }.with_zn(self.a & m),
            Op::Ora => Cpu6502 { a: self.a | m, ..self }.with_zn(self.a | m),
            Op::Eor => Cpu6502 { a: self.a ^ m, ..self }.with_zn(self.a ^ m),
            Op::Lda => Cpu6502 { a: m, ..self }.with_zn(m),
            Op::Ldx => Cpu6502 { x: m, ..self }.with_zn(m),
            Op::Ldy => Cpu6502 { y: m, ..self }.with_zn(m),
            Op::Cmp => self.compare(self.a, m),
            Op::Cpx => self.compare(self.x, m),
            Op::Cpy => self.compare(self.y, m),
            Op::Bit => Cpu6502 {
                zero: self.a & m == 0,
                overflow: m & 0x40 != 0,
                negative: m & 0x80 != 0,
                ..self
            },
            _ => self,
        }
    }

    /// The value a read-modify-write operation makes of `m`.
    pub open spec fn rmw_value(self, op: Op, m: u8) -> u8 {
        match op {
            Op::Asl => ((m as int * 2) % 256) as u8,
            Op::Lsr => (m as int / 2) as u8,
            Op::Rol => ((m as int * 2) % 256 + (if self.carry { 1int } else { 0 })) as u8,
            Op::Ror => (m as int / 2 + (if self.carry { 128int } else { 0 })) as u8,
            Op::Inc => ((m as int + 1) % 256) as u8,
            Op::Dec => ((m as int + 255) % 256) as u8,
            _ => m,
        }
    }

    /// Flags after a read-modify-write operation on `m`.
    pub open spec fn rmw(self, op: Op, m: u8) -> Cpu6502 {
        Cpu6502 {
            carry: match op {
                Op::Asl | Op::Rol => m >= 0x80,
                Op::Lsr | Op::Ror => m % 2 == 1,
                _ => self.carry,
            },
            ..self
        }.with_zn(self.rmw_value(op, m))
    }

    /// Effect of a one-byte operation on registers and flags only.
    pub open spec fn implied(self, op: Op) -> Cpu6502 {
        match op {
            Op::Clc => Cpu6502 { carry: false, ..self },
            Op::Sec => Cpu6502 { carry: true, ..self },
            Op::Cli => Cpu6502 { irq_disable: false, ..self },
            Op::Sei => Cpu6502 { irq_disable: true, ..self },
            Op::Cld => Cpu6502 { decimal: false, ..self },
            Op::Sed => Cpu6502 { decimal: true, ..self },
            Op::Clv => Cpu6502 { overflow: false, ..self },
            Op::Dex => Cpu6502 { x: ((self.x as int + 255) % 256) as u8, ..self }.with_zn(((self.x as int + 255) % 256) as u8),
            Op::Dey => Cpu6502 { y: ((self.y as int + 255) % 256) as u8, ..self }.with_zn(((self.y as int + 255) % 256) as u8),
            Op::Inx => Cpu6502 { x: ((self.x as int + 1) % 256) as u8, ..self }.with_zn(((self.x as int + 1) % 256) as u8),
            Op::Iny => Cpu6502 { y: ((self.y as int + 1) % 256) as u8, ..self }.with_zn(((self.y as int + 1) % 256) as u8),
            Op::Tax => Cpu6502 { x: self.a, ..self }.with_zn(self.a),
            Op::Tay => Cpu6502 { y: self.a, ..self }.with_zn(self.a),
            Op::Tsx => Cpu6502 { x: self.sp, ..self }.with_zn(self.sp),
            Op::Txa => Cpu6502 { a: self.x, ..self }.with_zn(self.x),
            Op::Tya => Cpu6502 { a: self.y, ..self }.with_zn(self.y),
            Op::Txs => Cpu6502 { sp: self.x, ..self },
            _ => self,
        }
    }

    pub open spec fn branch_taken(self, op: Op) -> bool {
        match op {
            Op::Bcc => !self.carry,
            Op::Bcs => self.carry,
            Op::Beq => self.zero,
            Op::Bne => !self.zero,
            Op::Bmi => self.negative,
            Op::Bpl => !self.negative,
            Op::Bvc => !self.overflow,
            Op::Bvs => self.overflow,
            _ => false,
        }
    }

    /// Only the program counter and stack pointer differ between `self` and `o`.
    pub open spec fn same_regs(self, o: Cpu6502) -> bool {
        Cpu6502 { pc: o.pc, sp: o.sp, ..self } == o
    }

    /// The register file at power-on.
    pub open spec fn power_on() -> Cpu6502 {
        Cpu6502 {
            a: 0,
            x: 0,
            y: 0,
            pc: 0,
            sp: 0xFD,
            carry: false,
            zero: false,
            irq_disable: true,
            decimal: false,
            overflow: false,
            negative: false,
        }
    }

    pub fn new() -> (r: Cpu6502)
        ensures
            r == Cpu6502::power_on(),
            r == (Cpu6502 {
                a: 0,
                x: 0,
                y: 0,
                pc: 0,
                sp: 0xFD,
                carry: false,
                zero: false,
                irq_disable: true,
                decimal: false,
                overflow: false,
                negative: false,
            }),
    {
        Cpu6502 {
            a: 0,
            x: 0,
            y: 0,
            pc: 0,
            sp: 0xFD,
            carry: false,
            zero: false,
            irq_disable: true,
            decimal: false,
            overflow: false,
            negative: false,
        }
    }

    pub fn status(&self, brk: bool) -> (r: u8)
        ensures
            r == self.status_byte(brk),
    {
        (if self.negative { 0x80u8 } else { 0u8 }) | (if self.overflow { 0x40u8 } else { 0u8 }) | 0x20u8 | (
        if brk { 0x10u8 } else { 0u8 }) | (if self.decimal { 0x08u8 } else { 0u8 }) | (
        if self.irq_disable { 0x04u8 } else { 0u8 }) | (if self.zero { 0x02u8 } else { 0u8 }) | (
        if self.carry { 0x01u8 } else { 0u8 })
    }

    pub fn set_status(&mut self, p: u8)
        ensures
            *final(self) == old(self).with_status(p),
    {
        self.carry = p & 1 != 0;
        self.zero = p & 2 != 0;
        self.irq_disable = p & 4 != 0;
        self.decimal = p & 8 != 0;
        self.overflow = p & 0x40 != 0;
        self.negative = p & 0x80 != 0;
    }

    fn set_zn(&mut self, v: u8)
        ensures
            *final(self) == old(self).with_zn(v),
    {
        self.zero = v == 0;
        self.negative = v >= 0x80;
    }

    /// Applies an operation that reads operand `m`.
    pub fn apply_read(&mut self, op: Op, m: u8)
        ensures
            *final(self) == old(self).read_op(op, m),
    {
        match op {
            Op::Adc | Op::Sbc => {
                let v = if matches!(op, Op::Sbc) { m ^ 0xFF } else { m };
                let sum: u16 = self.a as u16 + v as u16 + (if self.carry { 1u16 } else { 0u16 });
                let r = (sum % 256) as u8;
                self.overflow = (self.a ^ r) & (v ^ r) & 0x80 != 0;
                self.carry = sum > 255;
                self.a = r;
                self.set_zn(r);
            },
            Op::And => {
                self.a = self.a & m;
                self.set_zn(self.a);
            },
            Op::Ora => {
                self.a = self.a | m;
                self.set_zn(self.a);
            },
            Op::Eor => {
                self.a = self.a ^ m;
                self.set_zn(self.a);
            },
            Op::Lda => {
                self.a = m;
                self.set_zn(m);
            },
            Op::Ldx => {
                self.x = m;
                self.set_zn(m);
            },
            Op::Ldy => {
                self.y = m;
                self.set_zn(m);
            },
            Op::Cmp | Op::Cpx | Op::Cpy => {
                let reg = match op {
                    Op::Cmp => self.a,
                    Op::Cpx => self.x,
                    _ => self.y,
                };
                self.carry = reg >= m;
                let d = ((reg as u16 + 256 - m as u16) % 256) as u8;
                self.set_zn(d);
            },
            Op::Bit => {
                self.zero = self.a & m == 0;
                self.overflow = m & 0x40 != 0;
                self.negative = m & 0x80 != 0;
            },
            _ => {},
        }
    }

    /// Applies a read-modify-write operation to `m`, returning the new value.
    pub fn apply_rmw(&mut self, op: Op, m: u8) -> (r: u8)
        ensures
            r == old(self).rmw_value(op, m),
            *final(self) == old(self).rmw(op, m),
    {
        let r: u8 = match op {
            Op::Asl => ((m as u16 * 2) % 256) as u8,
            Op::Lsr => m / 2,
            Op::Rol => ((m as u16 * 2) % 256 + (if self.carry { 1u16 } else { 0u16 })) as u8,
            Op::Ror => m / 2 + (if self.carry { 128u8 } else { 0u8 }),
            Op::Inc => ((m as u16 + 1) % 256) as u8,
            Op::Dec => ((m as u16 + 255) % 256) as u8,
            _ => m,
        };
        match op {
            Op::Asl | Op::Rol => {
                self.carry = m >= 0x80;
            },
            Op::Lsr | Op::Ror => {
                self.carry = m % 2 == 1;
            },
            _ => {},
        }
        self.set_zn(r);
        r
    }

    /// Applies a one-byte register or flag operation.
    pub fn apply_implied(&mut self, op: Op)
        ensures
            *final(self) == old(self).implied(op),
    {
        match op {
            Op::Clc => self.carry = false,
            Op::Sec => self.carry = true,
            Op::Cli => self.irq_disable = false,
            Op::Sei => self.irq_disable = true,
            Op::Cld => self.decimal = false,
            Op::Sed => self.decimal = true,
            Op::Clv => self.overflow = false,
            Op::Dex => {
                self.x = ((self.x as u16 + 255) % 256) as u8;
                self.set_zn(self.x);
            },
            Op::Dey => {
                self.y = ((self.y as u16 + 255) % 256) as u8;
                self.set_zn(self.y);
            },
            Op::Inx => {
                self.x = ((self.x as u16 + 1) % 256) as u8;
                self.set_zn(self.x);
            },
            Op::Iny => {
                self.y = ((self.y as u16 + 1) % 256) as u8;
                self.set_zn(self.y);
            },
            Op::Tax => {
                self.x = self.a;
                self.set_zn(self.a);
            },
            Op::Tay => {
                self.y = self.a;
                self.set_zn(self.a);
            },
            Op::Tsx => {
                self.x = self.sp;
                self.set_zn(self.sp);
            },
            Op::Txa => {
                self.a = self.x;
                self.set_zn(self.x);
            },
            Op::Tya => {
                self.a = self.y;
                self.set_zn(self.y);
            },
            Op::Txs => self.sp = self.x,
            _ => {},
        }
    }

    pub fn taken(&self, op: Op) -> (r: bool)
        ensures
            r == self.branch_taken(op),
    {
        match op {
            Op::Bcc => !self.carry,
            Op::Bcs => self.carry,
            Op::Beq => self.zero,
            Op::Bne => !self.zero,
            Op::Bmi => self.negative,
            Op::Bpl => !self.negative,
            Op::Bvc => !self.overflow,
            Op::Bvs => self.overflow,
            _ => false,
        }
    }
}


/// Bytes of operand that follow the opcode in `mode`.
pub open spec fn operand_len(mode: Mode) -> int {
    match mode {
        Mode::Implied | Mode::Accumulator => 0,
        Mode::Absolute | Mode::AbsoluteX | Mode::AbsoluteY | Mode::Indirect => 2,
        _ => 1,
    }
}

/// `base + idx` in the 16-bit space, and whether it left base's page.
pub open spec fn indexed_spec(base: u16, idx: u8) -> (u16, bool) {
    let a = ((base as int + idx as int) % 65536) as u16;
    (a, base as int / 256 != a as int / 256)
}

/// The address after `pc`.
pub open spec fn next_pc(pc: u16) -> u16 {
    ((pc as int + 1) % 65536) as u16
}

/// Zero-page address from the operand at `c.pc`, indexed by `idx`.
pub open spec fn zero_page_address(b: &Bus, c: Cpu6502, idx: u8) -> Option<(u16, bool)> {
    match b.peek(c.pc) {
        Some(o) => Some((((o as int + idx as int) % 256) as u16, false)),
        None => None,
    }
}

/// Absolute address from the two operand bytes at `c.pc`, indexed by `idx`.
pub open spec fn absolute_address(b: &Bus, c: Cpu6502, idx: u8) -> Option<(u16, bool)> {
    match (b.peek(c.pc), b.peek(next_pc(c.pc))) {
        (Some(lo), Some(hi)) => Some(indexed_spec(word_of(lo, hi), idx)),
        _ => None,
    }
}

/// Target of `JMP (ptr)`; the pointer's high byte comes from the same page.
pub open spec fn indirect_address(b: &Bus, c: Cpu6502) -> Option<(u16, bool)> {
    match (b.peek(c.pc), b.peek(next_pc(c.pc))) {
        (Some(lo), Some(hi)) => {
            let ptr = word_of(lo, hi);
            let next = (ptr & 0xFF00) | (((ptr as int + 1) % 256) as u16);
            match (b.peek(ptr), b.peek(next)) {
                (Some(tlo), Some(thi)) => Some((word_of(tlo, thi), false)),
                _ => None,
            }
        },
        _ => None,
    }
}

/// `(zp,X)`: the word at zero-page `operand + X`.
pub open spec fn indexed_indirect_address(b: &Bus, c: Cpu6502) -> Option<(u16, bool)> {
    match b.peek(c.pc) {
        Some(o) => {
            let zp = (o as int + c.x as int) % 256;
            match (b.peek(zp as u16), b.peek(((zp + 1) % 256) as u16)) {
                (Some(tlo), Some(thi)) => Some((word_of(tlo, thi), false)),
                _ => None,
            }
        },
        None => None,
    }
}

/// `(zp),Y`: the word at zero-page `operand`, plus Y.
pub open spec fn indirect_indexed_address(b: &Bus, c: Cpu6502) -> Option<(u16, bool)> {
    match b.peek(c.pc) {
        Some(o) => match (b.peek(o as u16), b.peek(((o as int + 1) % 256) as u16)) {
            (Some(tlo), Some(thi)) => Some(indexed_spec(word_of(tlo, thi), c.y)),
            _ => None,
        },
        None => None,
    }
}

/// Branch target: the address after the operand plus the signed offset.
pub open spec fn relative_address(b: &Bus, c: Cpu6502) -> Option<(u16, bool)> {
    match b.peek(c.pc) {
        Some(o) => {
            let p2 = next_pc(c.pc);
            let t = ((p2 as int + signed(o) + 65536) % 65536) as u16;
            Some((t, p2 as int / 256 != t as int / 256))
        },
        None => None,
    }
}

/// The effective address (and page crossing) that `mode` yields for a CPU
/// whose PC points at the operand, when every byte it reads is in RAM or
/// cartridge space; `None` when one is not.
#[verifier::opaque]
pub open spec fn operand_address(b: &Bus, c: Cpu6502, mode: Mode) -> Option<(u16, bool)> {
    match mode {
        Mode::Implied | Mode::Accumulator => Some((0u16, false)),
        Mode::Immediate => Some((c.pc, false)),
        Mode::ZeroPage => zero_page_address(b, c, 0),
        Mode::ZeroPageX => zero_page_address(b, c, c.x),
        Mode::ZeroPageY => zero_page_address(b, c, c.y),
        Mode::Relative => relative_address(b, c),
        Mode::Absolute => absolute_address(b, c, 0),
        Mode::AbsoluteX => absolute_address(b, c, c.x),
        Mode::AbsoluteY => absolute_address(b, c, c.y),
        Mode::Indirect => indirect_address(b, c),
        Mode::IndexedIndirect => indexed_indirect_address(b, c),
        Mode::IndirectIndexed => indirect_indexed_address(b, c),
    }
}

/// One-byte operations on registers and flags only.
pub open spec fn is_register_op(op: Op) -> bool {
    matches!(op, Op::Clc | Op::Sec | Op::Cli | Op::Sei | Op::Cld | Op::Sed | Op::Clv | Op::Dex | Op::Dey | Op::Inx | Op::Iny | Op::Tax | Op::Tay | Op::Tsx | Op::Txa | Op::Tya | Op::Txs)
}

/// Stack and control-flow operations.
pub open spec fn is_flow(op: Op) -> bool {
    matches!(op, Op::Jmp | Op::Jsr | Op::Rts | Op::Rti | Op::Brk | Op::Pha | Op::Php | Op::Pla | Op::Plp)
}

/// The register a store writes.
pub open spec fn store_value(op: Op, c: Cpu6502) -> u8 {
    match op {
        Op::Stx => c.x,
        Op::Sty => c.y,
        _ => c.a,
    }
}

/// What executing `opcode` (already fetched; `pre.pc` points at its operand)
/// does, for the instructions whose operands lie in RAM or cartridge space:
/// reads and ALU operations, stores, read-modify-write operations, branches,
/// jumps, calls and returns, and stack operations.
#[verifier::opaque]
pub open spec fn executes(pre: Cpu6502, pre_bus: &Bus, post: Cpu6502, post_bus: &Bus, opcode: u8) -> bool {
    let i = instr_of(opcode);
    let adv = Cpu6502 { pc: ((pre.pc as int + operand_len(i.mode)) % 65536) as u16, ..pre };
    &&& match operand_address(pre_bus, pre, i.mode) {
        Some((addr, _)) => {
            &&& (is_read_op(i.op) && i.mode != Mode::Implied) ==> (pre_bus.peek(addr) matches Some(m)
                ==> *post_bus == *pre_bus && post == adv.read_op(i.op, m))
            &&& is_store(i.op) ==> pre_bus.write_effect(post_bus, addr, store_value(i.op, pre)) && post
                == adv
            &&& is_branch(i.op) ==> *post_bus == *pre_bus && post == if pre.branch_taken(i.op) {
                Cpu6502 { pc: addr, ..pre }
            } else {
                adv
            }
            &&& is_flow(i.op) ==> flow_effect(adv, pre_bus, post, post_bus, i.op, addr)
            &&& (is_rmw(i.op) && i.mode != Mode::Accumulator) ==> (pre_bus.peek(addr) matches Some(m)
                ==> pre_bus.write_effect(post_bus, addr, adv.rmw_value(i.op, m)) && post == adv.rmw(
                i.op,
                m,
            ))
        },
        None => true,
    }
    &&& is_register_op(i.op) ==> *post_bus == *pre_bus && post == pre.implied(i.op)
    &&& (i.op == Op::Nop && i.mode == Mode::Implied) ==> *post_bus == *pre_bus && post == pre
    &&& (is_rmw(i.op) && i.mode == Mode::Accumulator) ==> *post_bus == *pre_bus && post == Cpu6502 {
        a: adv.rmw_value(i.op, pre.a),
        ..adv.rmw(i.op, pre.a)
    }
}

/// Work RAM after an interrupt entry from `c` pushes PC (high byte first) and
/// the status byte with the break bit `brk`.
pub open spec fn pushed_frame(ram: Seq<u8>, c: Cpu6502, brk: bool) -> Seq<u8> {
    ram.update(0x100 + c.sp as int, (c.pc / 256) as u8).update(
        0x100 + (c.sp as int + 255) % 256,
        (c.pc % 256) as u8,
    ).update(0x100 + (c.sp as int + 254) % 256, c.status_byte(brk))
}

/// The byte `k` places above the stack pointer.
pub open spec fn stack_byte(ram: Seq<u8>, sp: u8, k: int) -> u8 {
    ram[0x100 + (sp as int + k) % 256]
}

/// The stack pointer moved by `k`, wrapping within the page.
pub open spec fn sp_moved(sp: u8, k: int) -> u8 {
    ((sp as int + k + 512) % 256) as u8
}

/// What a stack or control-flow instruction does, from the register file
/// `c` (PC past the operand) and effective address `addr`.
#[verifier::opaque]
pub open spec fn flow_effect(c: Cpu6502, b: &Bus, post: Cpu6502, post_bus: &Bus, op: Op, addr: u16) -> bool {
    let ram = b.ram@;
    match op {
        Op::Pha => b.only_ram_changed(post_bus) && post_bus.ram@ == ram.update(0x100 + c.sp as int, c.a)
            && post == Cpu6502 { sp: sp_moved(c.sp, -1), ..c },
        Op::Php => b.only_ram_changed(post_bus) && post_bus.ram@ == ram.update(
            0x100 + c.sp as int,
            c.status_byte(true),
        ) && post == Cpu6502 { sp: sp_moved(c.sp, -1), ..c },
        Op::Pla => *post_bus == *b && post == Cpu6502 {
            sp: sp_moved(c.sp, 1),
            a: stack_byte(ram, c.sp, 1),
            ..c
        }.with_zn(stack_byte(ram, c.sp, 1)),
        Op::Plp => *post_bus == *b && post == Cpu6502 { sp: sp_moved(c.sp, 1), ..c }.with_status(
            stack_byte(ram, c.sp, 1),
        ),
        Op::Jsr => {
            let ret = ((c.pc as int + 65535) % 65536) as u16;
            b.only_ram_changed(post_bus) && post_bus.ram@ == ram.update(
                0x100 + c.sp as int,
                (ret / 256) as u8,
            ).update(0x100 + (c.sp as int + 255) % 256, (ret % 256) as u8) && post == Cpu6502 {
                sp: sp_moved(c.sp, -2),
                pc: addr,
                ..c
            }
        },
        Op::Rts => *post_bus == *b && post == Cpu6502 {
            sp: sp_moved(c.sp, 2),
            pc: ((word_of(stack_byte(ram, c.sp, 1), stack_byte(ram, c.sp, 2)) as int + 1) % 65536) as u16,
            ..c
        },
        Op::Rti => *post_bus == *b && post == Cpu6502 {
            sp: sp_moved(c.sp, 3),
            pc: word_of(stack_byte(ram, c.sp, 2), stack_byte(ram, c.sp, 3)),
            ..c.with_status(stack_byte(ram, c.sp, 1))
        },
        Op::Brk => {
            let pushed = Cpu6502 { pc: next_pc(c.pc), ..c };
            b.only_ram_changed(post_bus) && post_bus.ram@ == pushed_frame(ram, pushed, true) && post
                == Cpu6502 {
                sp: sp_moved(c.sp, -3),
                irq_disable: true,
                pc: word_of(b.board.cpu_byte(0xFFFE), b.board.cpu_byte(0xFFFF)),
                ..c
            }
        },
        Op::Jmp => *post_bus == *b && post == Cpu6502 { pc: addr, ..c },
        _ => true,
    }
}

/// The register file once an opcode has been fetched.
pub open spec fn after_fetch(c: Cpu6502) -> Cpu6502 {
    Cpu6502 { pc: next_pc(c.pc), ..c }
}

/// `post` and `post_ram` are the register file and work RAM that running the
/// instruction `opcode`, fetched by `pre` from `pre_bus`, leaves.
pub open spec fn ran_instruction(pre: Cpu6502, pre_bus: &Bus, post: Cpu6502, post_ram: Seq<u8>, opcode: u8) -> bool {
    exists|mid: Bus| #[trigger] executes(after_fetch(pre), pre_bus, post, &mid, opcode) && mid.ram@ == post_ram
}

impl Cpu6502 {
    /// Reads the byte at the program counter and moves past it.
    pub fn fetch(&mut self, bus: &mut Bus) -> (r: u8)
        requires
            old(bus).wf(),
        ensures
            final(bus).wf(),
            old(bus).undisturbed(final(bus)),
            final(bus).dma_page == old(bus).dma_page,
            old(bus).read_effect(final(bus), old(self).pc, r),
            old(bus).peek(old(self).pc) matches Some(v) ==> r == v && *final(bus) == *old(bus),
            *final(self) == (Cpu6502 { pc: ((old(self).pc as int + 1) % 65536) as u16, ..*old(self) }),
    {
        let r = bus.read(self.pc);
        self.pc = ((self.pc as u32 + 1) % 65536) as u16;
        r
    }

    /// Pushes `v` at 0x100 + SP, then decrements SP.
    pub fn push(&mut self, bus: &mut Bus, v: u8)
        requires
            old(bus).wf(),
        ensures
            final(bus).wf(),
            old(bus).undisturbed(final(bus)),
            final(bus).dma_page == old(bus).dma_page,
            final(bus).ram@ == old(bus).ram@.update(0x100 + old(self).sp as int, v),
            final(bus).board == old(bus).board,
            final(bus).ppu == old(bus).ppu,
            final(bus).apu == old(bus).apu,
            final(bus).pad == old(bus).pad,
            final(bus).dma_page == old(bus).dma_page,
            *final(self) == (Cpu6502 { sp: ((old(self).sp as int + 255) % 256) as u8, ..*old(self) }),
    {
        bus.write(0x100 + self.sp as u16, v);
        self.sp = ((self.sp as u16 + 255) % 256) as u8;
    }

    /// Increments SP, then pulls the byte at 0x100 + SP.
    pub fn pull(&mut self, bus: &mut Bus) -> (r: u8)
        requires
            old(bus).wf(),
        ensures
            final(bus).wf(),
            old(bus).undisturbed(final(bus)),
            final(bus).dma_page == old(bus).dma_page,
            *final(bus) == *old(bus),
            r == old(bus).ram@[0x100 + (old(self).sp as int + 1) % 256],
            *final(self) == (Cpu6502 { sp: ((old(self).sp as int + 1) % 256) as u8, ..*old(self) }),
    {
        self.sp = ((self.sp as u16 + 1) % 256) as u8;
        bus.read(0x100 + self.sp as u16)
    }

    /// Reads an interrupt vector from cartridge space.
    pub fn read_vector(&self, bus: &mut Bus, addr: u16) -> (r: u16)
        requires
            old(bus).wf(),
            0xFFFA <= addr <= 0xFFFE,
        ensures
            *final(bus) == *old(bus),
            r == word_of(old(bus).board.cpu_byte(addr), old(bus).board.cpu_byte((addr + 1) as u16)),
    {
        let lo = bus.read(addr);
        let hi = bus.read(addr + 1);
        word(lo, hi)
    }

    /// Zero-page operand, indexed by `idx`.
    fn resolve_zero_page(&mut self, bus: &mut Bus, idx: u8) -> (r: (u16, bool))
        requires
            old(bus).wf(),
        ensures
            final(bus).wf(),
            old(bus).undisturbed(final(bus)),
            final(bus).dma_page == old(bus).dma_page,
            *final(self) == (Cpu6502 { pc: next_pc(old(self).pc), ..*old(self) }),
            !r.1,
            zero_page_address(old(bus), *old(self), idx) matches Some(p) ==> r == p && *final(bus)
                == *old(bus),
    {
        let b = self.fetch(bus);
        (((b as u16 + idx as u16) % 256), false)
    }

    /// Absolute operand, indexed by `idx`.
    fn resolve_absolute(&mut self, bus: &mut Bus, idx: u8) -> (r: (u16, bool))
        requires
            old(bus).wf(),
        ensures
            final(bus).wf(),
            old(bus).undisturbed(final(bus)),
            final(bus).dma_page == old(bus).dma_page,
            *final(self) == (Cpu6502 { pc: ((old(self).pc as int + 2) % 65536) as u16, ..*old(self) }),
            idx == 0 ==> !r.1,
            absolute_address(old(bus), *old(self), idx) matches Some(p) ==> r == p && *final(bus)
                == *old(bus),
    {
        let lo = self.fetch(bus);
        let hi = self.fetch(bus);
        indexed(word(lo, hi), idx)
    }

    /// `JMP (ptr)`, with the pointer's high byte fetched from the same page.
    #[verifier::rlimit(40)]
    fn resolve_indirect(&mut self, bus: &mut Bus) -> (r: (u16, bool))
        requires
            old(bus).wf(),
        ensures
            final(bus).wf(),
            old(bus).undisturbed(final(bus)),
            final(bus).dma_page == old(bus).dma_page,
            *final(self) == (Cpu6502 { pc: ((old(self).pc as int + 2) % 65536) as u16, ..*old(self) }),
            !r.1,
            indirect_address(old(bus), *old(self)) matches Some(p) ==> r == p
                && *final(bus) == *old(bus),
    {
        let lo = self.fetch(bus);
        let hi = self.fetch(bus);
        let ptr = word(lo, hi);
        let low = ((ptr as u32 + 1) % 256) as u16;
        let next = (ptr & 0xFF00) | low;
        let ghost b0 = *bus;
        let tlo = bus.read(ptr);
        let ghost b1 = *bus;
        let thi = bus.read(next);
        proof {
            if indirect_address(&b0, *old(self)) is Some {
                assert(b0 == *old(bus));
                assert(b1 == b0);
            }
        }
        (word(tlo, thi), false)
    }

    /// `(zp,X)` operand.
    fn resolve_indexed_indirect(&mut self, bus: &mut Bus) -> (r: (u16, bool))
        requires
            old(bus).wf(),
        ensures
            final(bus).wf(),
            old(bus).undisturbed(final(bus)),
            final(bus).dma_page == old(bus).dma_page,
            *final(self) == (Cpu6502 { pc: next_pc(old(self).pc), ..*old(self) }),
            !r.1,
            indexed_indirect_address(old(bus), *old(self)) matches Some(p) ==> r == p
                && *final(bus) == *old(bus),
    {
        let b = self.fetch(bus);
        let zp = (b as u16 + self.x as u16) % 256;
        let tlo = bus.read(zp);
        let thi = bus.read((zp + 1) % 256);
        (word(tlo, thi), false)
    }

    /// `(zp),Y` operand.
    fn resolve_indirect_indexed(&mut self, bus: &mut Bus) -> (r: (u16, bool))
        requires
            old(bus).wf(),
        ensures
            final(bus).wf(),
            old(bus).undisturbed(final(bus)),
            final(bus).dma_page == old(bus).dma_page,
            *final(self) == (Cpu6502 { pc: next_pc(old(self).pc), ..*old(self) }),
            indirect_indexed_address(old(bus), *old(self)) matches Some(p) ==> r == p
                && *final(bus) == *old(bus),
    {
        let zp = self.fetch(bus) as u16;
        let tlo = bus.read(zp);
        let thi = bus.read((zp + 1) % 256);
        indexed(word(tlo, thi), self.y)
    }

    /// Branch offset: the target and whether it is on another page.
    fn resolve_relative(&mut self, bus: &mut Bus) -> (r: (u16, bool))
        requires
            old(bus).wf(),
        ensures
            final(bus).wf(),
            old(bus).undisturbed(final(bus)),
            final(bus).dma_page == old(bus).dma_page,
            *final(self) == (Cpu6502 { pc: next_pc(old(self).pc), ..*old(self) }),
            relative_address(old(bus), *old(self)) matches Some(p) ==> r == p
                && *final(bus) == *old(bus),
    {
        let b = self.fetch(bus);
        branch_target(self.pc, b)
    }

    /// Reads the operand bytes of `mode` and computes the effective address,
    /// with whether indexing crossed a page. For `Relative` the address is
    /// the branch target.
    fn resolve(&mut self, bus: &mut Bus, mode: Mode) -> (r: (u16, bool))
        requires
            old(bus).wf(),
        ensures
            final(bus).wf(),
            old(bus).undisturbed(final(bus)),
            final(bus).dma_page == old(bus).dma_page,
            *final(self) == (Cpu6502 {
                pc: ((old(self).pc as int + operand_len(mode)) % 65536) as u16,
                ..*old(self)
            }),
            r.1 ==> matches!(mode, Mode::AbsoluteX | Mode::AbsoluteY | Mode::IndirectIndexed | Mode::Relative),
            operand_address(old(bus), *old(self), mode) matches Some(p) ==> r == p && *final(bus)
                == *old(bus),
            (mode == Mode::Implied || mode == Mode::Accumulator || mode == Mode::Immediate) ==> *final(bus) == *old(bus),
            mode == Mode::Immediate ==> r.0 == old(self).pc,
    {
        proof {
            reveal(operand_address);
        }
        match mode {
            Mode::Implied | Mode::Accumulator => (0, false),
            Mode::Immediate => {
                let a = self.pc;
                self.pc = ((self.pc as u32 + 1) % 65536) as u16;
                (a, false)
            },
            Mode::ZeroPage => self.resolve_zero_page(bus, 0),
            Mode::ZeroPageX => {
                let x = self.x;
                self.resolve_zero_page(bus, x)
            },
            Mode::ZeroPageY => {
                let y = self.y;
                self.resolve_zero_page(bus, y)
            },
            Mode::Relative => self.resolve_relative(bus),
            Mode::Absolute => self.resolve_absolute(bus, 0),
            Mode::AbsoluteX => {
                let x = self.x;
                self.resolve_absolute(bus, x)
            },
            Mode::AbsoluteY => {
                let y = self.y;
                self.resolve_absolute(bus, y)
            },
            Mode::Indirect => self.resolve_indirect(bus),
            Mode::IndexedIndirect => self.resolve_indexed_indirect(bus),
            Mode::IndirectIndexed => self.resolve_indirect_indexed(bus),
        }
    }

    /// Pushes the program counter, high byte first, and the status byte.
    fn push_frame(&mut self, bus: &mut Bus, brk: bool)
        requires
            old(bus).wf(),
        ensures
            final(bus).wf(),
            old(bus).undisturbed(final(bus)),
            final(bus).dma_page == old(bus).dma_page,
            final(bus).board == old(bus).board,
            final(self).same_regs(*old(self)),
            final(self).pc == old(self).pc,
            final(self).sp == ((old(self).sp as int + 253) % 256) as u8,
            final(bus).ram@ == pushed_frame(old(bus).ram@, *old(self), brk),
            old(bus).only_ram_changed(final(bus)),
    {
        let pc = self.pc;
        self.push(bus, (pc / 256) as u8);
        self.push(bus, (pc % 256) as u8);
        let p = self.status(brk);
        self.push(bus, p);
    }

    /// Services a non-maskable interrupt: pushes PC and status, sets the
    /// interrupt-disable flag and jumps through 0xFFFA.
    pub fn nmi(&mut self, bus: &mut Bus) -> (r: u8)
        requires
            old(bus).wf(),
        ensures
            final(bus).wf(),
            old(bus).undisturbed(final(bus)),
            final(bus).dma_page == old(bus).dma_page,
            r == 7,
            final(bus).ram@ == pushed_frame(old(bus).ram@, *old(self), false),
            final(self).pc == word_of(old(bus).board.cpu_byte(0xFFFA), old(bus).board.cpu_byte(0xFFFB)),
            final(self).sp == ((old(self).sp as int + 253) % 256) as u8,
            final(self).irq_disable,
            *final(self) == (Cpu6502 { pc: final(self).pc, sp: final(self).sp, irq_disable: true, ..*old(self) }),
    {
        self.push_frame(bus, false);
        self.irq_disable = true;
        self.pc = self.read_vector(bus, 0xFFFA);
        7
    }

    /// Services a maskable interrupt unless the interrupt-disable flag is
    /// set; returns the cycles spent (0 when masked).
    pub fn irq(&mut self, bus: &mut Bus) -> (r: u8)
        requires
            old(bus).wf(),
        ensures
            final(bus).wf(),
            old(bus).undisturbed(final(bus)),
            final(bus).dma_page == old(bus).dma_page,
            old(self).irq_disable ==> r == 0 && *final(self) == *old(self) && *final(bus) == *old(bus),
            !old(self).irq_disable ==> r == 7 && final(bus).ram@ == pushed_frame(
                old(bus).ram@,
                *old(self),
                false,
            ) && final(self).pc == word_of(
                old(bus).board.cpu_byte(0xFFFE),
                old(bus).board.cpu_byte(0xFFFF),
            ) && final(self).sp == ((old(self).sp as int + 253) % 256) as u8 && *final(self) == (
            Cpu6502 { pc: final(self).pc, sp: final(self).sp, irq_disable: true, ..*old(self) }),
    {
        if self.irq_disable {
            return 0;
        }
        self.push_frame(bus, false);
        self.irq_disable = true;
        self.pc = self.read_vector(bus, 0xFFFE);
        7
    }

    /// Loads PC from the reset vector at 0xFFFC/0xFFFD and puts SP and the
    /// flags in their post-reset state (SP 0xFD, interrupts disabled).
    pub fn reset(&mut self, bus: &mut Bus)
        requires
            old(bus).wf(),
        ensures
            *final(bus) == *old(bus),
            *final(self) == (Cpu6502 {
                pc: word_of(old(bus).board.cpu_byte(0xFFFC), old(bus).board.cpu_byte(0xFFFD)),
                sp: 0xFD,
                carry: false,
                zero: false,
                irq_disable: true,
                decimal: false,
                overflow: false,
                negative: false,
                ..*old(self)
            }),
    {
        self.pc = self.read_vector(bus, 0xFFFC);
        self.sp = 0xFD;
        self.carry = false;
        self.zero = false;
        self.irq_disable = true;
        self.decimal = false;
        self.overflow = false;
        self.negative = false;
    }

    fn flow_push(&mut self, bus: &mut Bus, op: Op, addr: u16)
        requires
            old(bus).wf(),
            op == Op::Pha || op == Op::Php,
        ensures
            final(bus).wf(),
            old(bus).undisturbed(final(bus)),
            final(bus).dma_page == old(bus).dma_page,
            flow_effect(*old(self), old(bus), *final(self), final(bus), op, addr),
    {
        reveal(flow_effect);
        let v = if matches!(op, Op::Pha) {
            self.a
        } else {
            self.status(true)
        };
        self.push(bus, v);
    }

    fn flow_pull(&mut self, bus: &mut Bus, op: Op, addr: u16)
        requires
            old(bus).wf(),
            op == Op::Pla || op == Op::Plp,
        ensures
            final(bus).wf(),
            old(bus).undisturbed(final(bus)),
            final(bus).dma_page == old(bus).dma_page,
            flow_effect(*old(self), old(bus), *final(self), final(bus), op, addr),
    {
        reveal(flow_effect);
        let v = self.pull(bus);
        if matches!(op, Op::Pla) {
            self.a = v;
            self.set_zn(v);
        } else {
            self.set_status(v);
        }
    }

    fn flow_jsr(&mut self, bus: &mut Bus, addr: u16)
        requires
            old(bus).wf(),
        ensures
            final(bus).wf(),
            old(bus).undisturbed(final(bus)),
            final(bus).dma_page == old(bus).dma_page,
            flow_effect(*old(self), old(bus), *final(self), final(bus), Op::Jsr, addr),
    {
        reveal(flow_effect);
        let ret = ((self.pc as u32 + 65535) % 65536) as u16;
        self.push(bus, (ret / 256) as u8);
        self.push(bus, (ret % 256) as u8);
        self.pc = addr;
    }

    fn flow_rts(&mut self, bus: &mut Bus, addr: u16)
        requires
            old(bus).wf(),
        ensures
            final(bus).wf(),
            old(bus).undisturbed(final(bus)),
            final(bus).dma_page == old(bus).dma_page,
            flow_effect(*old(self), old(bus), *final(self), final(bus), Op::Rts, addr),
    {
        reveal(flow_effect);
        let lo = self.pull(bus);
        let hi = self.pull(bus);
        self.pc = ((word(lo, hi) as u32 + 1) % 65536) as u16;
    }

    #[verifier::rlimit(40)]
    fn flow_rti(&mut self, bus: &mut Bus, addr: u16)
        requires
            old(bus).wf(),
        ensures
            final(bus).wf(),
            old(bus).undisturbed(final(bus)),
            final(bus).dma_page == old(bus).dma_page,
            flow_effect(*old(self), old(bus), *final(self), final(bus), Op::Rti, addr),
    {
        let ghost c = *self;
        let ghost ram = bus.ram@;
        let p = self.pull(bus);
        self.set_status(p);
        let lo = self.pull(bus);
        let hi = self.pull(bus);
        self.pc = word(lo, hi);
        proof {
            let sp = c.sp as int;
            assert(((sp + 1) % 256 + 1) % 256 == (sp + 2) % 256);
            assert((((sp + 1) % 256 + 1) % 256 + 1) % 256 == (sp + 3) % 256);
            assert((sp + 3 + 512) % 256 == (sp + 3) % 256);
            assert(p == stack_byte(ram, c.sp, 1));
            assert(lo == stack_byte(ram, c.sp, 2));
            assert(hi == stack_byte(ram, c.sp, 3));
            reveal(flow_effect);
        }
    }

    fn flow_brk(&mut self, bus: &mut Bus, addr: u16)
        requires
            old(bus).wf(),
        ensures
            final(bus).wf(),
            old(bus).undisturbed(final(bus)),
            final(bus).dma_page == old(bus).dma_page,
            flow_effect(*old(self), old(bus), *final(self), final(bus), Op::Brk, addr),
    {
        reveal(flow_effect);
        self.pc = ((self.pc as u32 + 1) % 65536) as u16;
        self.push_frame(bus, true);
        self.irq_disable = true;
        self.pc = self.read_vector(bus, 0xFFFE);
    }

    /// Control-flow and stack operations.
    fn exec_flow(&mut self, bus: &mut Bus, op: Op, addr: u16)
        requires
            old(bus).wf(),
            matches!(op, Op::Jmp | Op::Jsr | Op::Rts | Op::Rti | Op::Brk | Op::Pha | Op::Php | Op::Pla | Op::Plp),
        ensures
            final(bus).wf(),
            old(bus).undisturbed(final(bus)),
            final(bus).dma_page == old(bus).dma_page,
            flow_effect(*old(self), old(bus), *final(self), final(bus), op, addr),
    {
        match op {
            Op::Jmp => {
                proof {
                    reveal(flow_effect);
                }
                self.pc = addr;
            },
            Op::Jsr => self.flow_jsr(bus, addr),
            Op::Rts => self.flow_rts(bus, addr),
            Op::Rti => self.flow_rti(bus, addr),
            Op::Brk => self.flow_brk(bus, addr),
            Op::Pha | Op::Php => self.flow_push(bus, op, addr),
            _ => self.flow_pull(bus, op, addr),
        }
    }

    /// Executes the instruction whose opcode was just fetched.
    #[verifier::rlimit(60)]
    pub fn execute(&mut self, bus: &mut Bus, opcode: u8) -> (e: Executed)
        requires
            old(bus).wf(),
        ensures
            final(bus).wf(),
            old(bus).undisturbed(final(bus)),
            e.opcode == opcode,
            e.cycles as int == cycle_cost(instr_of(opcode), e.crossed, e.taken, e.branch_crossed),
            e.crossed ==> page_penalty(instr_of(opcode).op, instr_of(opcode).mode),
            e.taken ==> is_branch(instr_of(opcode).op),
            e.branch_crossed ==> e.taken,
            is_branch(instr_of(opcode).op) ==> e.taken == old(self).branch_taken(instr_of(opcode).op),
            executes(*old(self), old(bus), *final(self), final(bus), opcode),
            operand_address(old(bus), *old(self), instr_of(opcode).mode) matches Some((addr, _)) ==> (
            final(bus).dma_page == if addr == 0x4014 && is_store(instr_of(opcode).op) {
                Some(store_value(instr_of(opcode).op, *old(self)))
            } else if addr == 0x4014 && is_rmw(instr_of(opcode).op) && instr_of(opcode).mode
                != Mode::Accumulator {
                final(bus).dma_page
            } else {
                old(bus).dma_page
            }),
            operand_address(old(bus), *old(self), instr_of(opcode).mode) matches Some((addr, _)) ==> (
            (addr == 0x4014 && is_store(instr_of(opcode).op)) ==> final(bus).ram@ == old(bus).ram@
                && final(bus).board == old(bus).board && final(bus).ppu == old(bus).ppu),
            operand_address(old(bus), *old(self), instr_of(opcode).mode) matches Some((_, cr)) ==> (
            e.crossed == (cr && page_penalty(instr_of(opcode).op, instr_of(opcode).mode))
                && e.branch_crossed == (e.taken && cr)),
    {
        let instr = decode(opcode);
        proof {
            crate::opcodes::lemma_base_cycles_range(opcode);
            reveal(executes);
        }
        let (addr, crossed_raw) = self.resolve(bus, instr.mode);
        let crossed = crossed_raw && instr.page_penalty;
        let mut taken = false;
        let mut branch_crossed = false;
        match instr.op {
            Op::Adc | Op::And | Op::Bit | Op::Cmp | Op::Cpx | Op::Cpy | Op::Eor | Op::Lda | Op::Ldx
            | Op::Ldy | Op::Ora | Op::Sbc | Op::Nop => {
                if !matches!(instr.mode, Mode::Implied) {
                    let m = bus.read(addr);
                    self.apply_read(instr.op, m);
                }
            },
            Op::Sta => bus.write(addr, self.a),
            Op::Stx => bus.write(addr, self.x),
            Op::Sty => bus.write(addr, self.y),
            Op::Asl | Op::Lsr | Op::Rol | Op::Ror | Op::Inc | Op::Dec => {
                if matches!(instr.mode, Mode::Accumulator) {
                    let a = self.a;
                    let r = self.apply_rmw(instr.op, a);
                    self.a = r;
                } else {
                    let m = bus.read(addr);
                    let r = self.apply_rmw(instr.op, m);
                    bus.write(addr, r);
                }
            },
            Op::Bcc | Op::Bcs | Op::Beq | Op::Bmi | Op::Bne | Op::Bpl | Op::Bvc | Op::Bvs => {
                if self.taken(instr.op) {
                    taken = true;
                    branch_crossed = crossed_raw;
                    self.pc = addr;
                }
            },
            Op::Jmp | Op::Jsr | Op::Rts | Op::Rti | Op::Brk | Op::Pha | Op::Php | Op::Pla | Op::Plp => {
                self.exec_flow(bus, instr.op, addr);
            },
            _ => self.apply_implied(instr.op),
        }
        let cycles = total_cycles(instr, crossed, taken, branch_crossed);
        Executed { opcode, cycles, crossed, taken, branch_crossed }
    }

    /// Fetches, decodes and executes one instruction.
    pub fn step(&mut self, bus: &mut Bus) -> (e: Executed)
        requires
            old(bus).wf(),
        ensures
            final(bus).wf(),
            old(bus).undisturbed(final(bus)),
            e.cycles as int == cycle_cost(instr_of(e.opcode), e.crossed, e.taken, e.branch_crossed),
            e.crossed ==> page_penalty(instr_of(e.opcode).op, instr_of(e.opcode).mode),
            e.taken ==> is_branch(instr_of(e.opcode).op),
            e.branch_crossed ==> e.taken,
            old(bus).peek(old(self).pc) matches Some(b) ==> e.opcode == b && executes(
                Cpu6502 { pc: next_pc(old(self).pc), ..*old(self) },
                old(bus),
                *final(self),
                final(bus),
                b,
            ),
            old(bus).peek(old(self).pc) is Some ==> (operand_address(
                old(bus),
                after_fetch(*old(self)),
                instr_of(e.opcode).mode,
            ) matches Some((_, cr)) ==> e.crossed == (cr && page_penalty(
                instr_of(e.opcode).op,
                instr_of(e.opcode).mode,
            )) && e.branch_crossed == (e.taken && cr)),
            old(bus).peek(old(self).pc) is Some ==> (is_branch(instr_of(e.opcode).op) ==> e.taken
                == old(self).branch_taken(instr_of(e.opcode).op)),
            old(bus).peek(old(self).pc) is Some ==> (operand_address(
                old(bus),
                after_fetch(*old(self)),
                instr_of(e.opcode).mode,
            ) matches Some((addr, _)) ==> (final(bus).dma_page == if addr == 0x4014 && is_store(
                instr_of(e.opcode).op,
            ) {
                Some(store_value(instr_of(e.opcode).op, *old(self)))
            } else if addr == 0x4014 && is_rmw(instr_of(e.opcode).op) && instr_of(e.opcode).mode
                != Mode::Accumulator {
                final(bus).dma_page
            } else {
                old(bus).dma_page
            }) && ((addr == 0x4014 && is_store(instr_of(e.opcode).op)) ==> final(bus).ram@
                == old(bus).ram@ && final(bus).board == old(bus).board && final(bus).ppu
                == old(bus).ppu)),
            2 <= e.cycles <= 9,
    {
        let opcode = self.fetch(bus);
        proof {
            crate::opcodes::lemma_base_cycles_range(opcode);
        }
        self.execute(bus, opcode)
    }
}

} // verus!
