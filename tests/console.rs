use retroblaze::bus::Bus;
use retroblaze::cartridge::{parse_ines, CartridgeError, Mirroring};
use retroblaze::cpu::Cpu6502;
use retroblaze::input_state::InputState;
use retroblaze::mapper::{Board, Mapper, Mapper0};
use retroblaze::nes::NES;
use retroblaze::ppu::PPU;
use retroblaze::state::StateError;

/// An iNES image with one 16KB PRG bank holding `program` at 0x8000, an
/// 8KB CHR bank, and the reset vector pointing at 0x8000.
fn rom_with(program: &[u8]) -> Vec<u8> {
    let mut rom = vec![0x4E, 0x45, 0x53, 0x1A, 1, 1, 0, 0, 0, 0, 0, 0, 0, 0, 0, 0];
    let mut prg = vec![0xEAu8; 16384];
    prg[..program.len()].copy_from_slice(program);
    prg[0x3FFA] = 0x00;
    prg[0x3FFB] = 0x80;
    prg[0x3FFC] = 0x00;
    prg[0x3FFD] = 0x80;
    prg[0x3FFE] = 0x00;
    prg[0x3FFF] = 0x80;
    rom.extend_from_slice(&prg);
    rom.extend_from_slice(&vec![0u8; 8192]);
    rom
}

fn console_with(program: &[u8]) -> NES {
    let mut nes = NES::new();
    nes.load_rom(&rom_with(program)).unwrap();
    nes
}

#[test]
fn reset_loads_vector_from_single_bank_cartridge() {
    let mut rom = rom_with(&[]);
    rom[16 + 0x3FFC] = 0x34;
    rom[16 + 0x3FFD] = 0x92;
    let mut nes = NES::new();
    assert_eq!(nes.load_rom(&rom), Ok(()));
    assert_eq!(nes.cpu.pc, 0x9234);
    nes.cpu.pc = 0;
    nes.reset();
    assert_eq!(nes.cpu.pc, 0x9234);
    assert_eq!(nes.cpu.sp, 0xFD);
    assert!(nes.cpu.irq_disable);
}

#[test]
fn lda_immediate_sets_accumulator_and_flags() {
    let mut nes = console_with(&[0xA9, 0x42]);
    let cycles = nes.step();
    assert_eq!(nes.cpu.a, 0x42);
    assert!(!nes.cpu.zero);
    assert!(!nes.cpu.negative);
    assert_eq!(cycles, 2);
    assert_eq!(nes.cpu.pc, 0x8002);
}

#[test]
fn lda_immediate_zero_and_negative() {
    let mut nes = console_with(&[0xA9, 0x00, 0xA9, 0x80]);
    nes.step();
    assert!(nes.cpu.zero && !nes.cpu.negative);
    nes.step();
    assert!(!nes.cpu.zero && nes.cpu.negative);
}

#[test]
fn oam_dma_on_even_cycle_stalls_513() {
    // LDA #$02 (2 cycles), STA $4014: the transfer starts at cycle 6.
    let mut nes = console_with(&[0xA9, 0x02, 0x8D, 0x14, 0x40]);
    assert_eq!(nes.step(), 2);
    assert_eq!(nes.step(), 4 + 513);
    assert_eq!(nes.last_stall, 513);
}

#[test]
fn oam_dma_on_odd_cycle_stalls_514() {
    // LDA $00 (3 cycles), STA $4014: the transfer starts at cycle 7.
    let mut nes = console_with(&[0xA5, 0x00, 0x8D, 0x14, 0x40]);
    assert_eq!(nes.step(), 3);
    assert_eq!(nes.step(), 4 + 514);
    assert_eq!(nes.last_stall, 514);
}

#[test]
fn oam_dma_copies_ram_page() {
    // LDA #$07; STA $0203; LDA #$02; STA $4014
    let mut nes = console_with(&[0xA9, 0x07, 0x8D, 0x03, 0x02, 0xA9, 0x02, 0x8D, 0x14, 0x40]);
    for _ in 0..4 {
        nes.step();
    }
    // OAMADDR is 0: read back sprite byte 3 through OAMADDR/OAMDATA.
    nes.bus.write(0x2003, 3);
    assert_eq!(nes.bus.read(0x2004), 0x07);
}

#[test]
fn ppu_full_frame_of_dots() {
    let mut ppu = PPU::new();
    let board = Board::empty();
    let mut saw_vblank = false;
    for i in 0..(341 * 262) {
        ppu.step(&board);
        if ppu.in_vblank() {
            saw_vblank = true;
        }
        if i == 341 * 241 + 1 {
            assert!(ppu.in_vblank());
        }
    }
    assert_eq!(ppu.frame_count(), 1);
    assert!(saw_vblank);
    assert!(!ppu.in_vblank());
    assert_eq!(ppu.scanline(), 0);
    assert_eq!(ppu.dot(), 0);
    let fb = ppu.get_framebuffer();
    assert_eq!(fb.len(), 256 * 240 * 4);
    for p in 0..(256 * 240) {
        assert_eq!(fb[p * 4 + 3], 255);
    }
}

#[test]
fn ram_mirrors_every_2k() {
    let mut bus = Bus::new();
    for addr in [0x0000u16, 0x0123, 0x07FF, 0x0800, 0x1234, 0x1FFF] {
        bus.write(addr, (addr & 0xFF) as u8 ^ 0x5A);
        let v = bus.read(addr);
        assert_eq!(bus.read(addr ^ 0x800), v);
        assert_eq!(bus.read(addr & 0x7FF), v);
    }
}

#[test]
fn ppu_registers_mirror_every_8() {
    let mut bus = Bus::new();
    // Address 0x2400 through the mirrors at 0x3FFE (0x2006) and 0x2FFF (0x2007).
    bus.write(0x3FFE, 0x24);
    bus.write(0x3FFE, 0x00);
    bus.write(0x2FFF, 0x99);
    bus.write(0x2006, 0x24);
    bus.write(0x2006, 0x00);
    let _buffered = bus.read(0x3FEF);
    assert_eq!(bus.read(0x2007), 0x99);
}

#[test]
fn status_read_clears_vblank() {
    let mut bus = Bus::new();
    for _ in 0..(341 * 241 + 2) {
        bus.step_ppu();
    }
    assert_eq!(bus.read(0x2002) & 0x80, 0x80);
    assert_eq!(bus.read(0x3FFA) & 0x80, 0);
}

#[test]
fn half_size_prg_repeats() {
    let mut prg = vec![0u8; 16384];
    prg[0] = 0x11;
    prg[0x3FFF] = 0x22;
    let m = Mapper0::new(prg, vec![0u8; 8192]);
    assert_eq!(m.read(0x8000), m.read(0xC000));
    assert_eq!(m.read(0xC000), 0x11);
    assert_eq!(m.read(0xBFFF), 0x22);
    assert_eq!(m.read(0xFFFF), 0x22);
}

#[test]
fn malformed_rom_leaves_console_unchanged() {
    let mut nes = console_with(&[0xA9, 0x42, 0x4C, 0x02, 0x80]);
    nes.run_frame(&InputState::released());
    let pc = nes.cpu.pc;
    let cycles = nes.cycles;
    let frame = nes.get_framebuffer().clone();
    assert_eq!(nes.load_rom(&[0x4E, 0x45, 0x53]), Err(CartridgeError::TooShort));
    let mut bad = rom_with(&[]);
    bad[3] = 0x1B;
    assert_eq!(nes.load_rom(&bad), Err(CartridgeError::BadMagic));
    assert_eq!(nes.cpu.pc, pc);
    assert_eq!(nes.cycles, cycles);
    assert_eq!(nes.cpu.a, 0x42);
    assert_eq!(nes.get_framebuffer(), &frame);
}

#[test]
fn parse_errors_by_kind() {
    assert!(matches!(parse_ines(&[0u8; 15]), Err(CartridgeError::TooShort)));
    let mut rom = rom_with(&[]);
    rom[0] = b'X';
    assert!(matches!(parse_ines(&rom), Err(CartridgeError::BadMagic)));
    let mut rom = rom_with(&[]);
    rom.truncate(16 + 16384 + 100);
    assert!(matches!(parse_ines(&rom), Err(CartridgeError::Truncated)));
    let mut rom = rom_with(&[]);
    rom[6] = 0x10;
    let c = parse_ines(&rom).unwrap();
    assert_eq!(c.mapper_id, 1);
    let mut nes = NES::new();
    assert_eq!(nes.load_rom(&rom), Ok(()));
    assert_eq!(nes.cpu.pc, 0x8000);
}

#[test]
fn parse_header_fields() {
    let mut rom = rom_with(&[]);
    rom[6] = 0x01;
    let c = parse_ines(&rom).unwrap();
    assert_eq!(c.prg_rom.len(), 16384);
    assert_eq!(c.chr_rom.len(), 8192);
    assert_eq!(c.mirroring, Mirroring::Vertical);
    assert!(!c.chr_is_ram);
    let mut rom = rom_with(&[]);
    rom[5] = 0;
    rom.truncate(16 + 16384);
    let c = parse_ines(&rom).unwrap();
    assert!(c.chr_is_ram);
    assert_eq!(c.chr_rom.len(), 8192);
}

#[test]
fn frame_pacing_carries_fraction() {
    let mut nes = console_with(&[0x4C, 0x00, 0x80]);
    let input = InputState::released();
    for n in 1..=6u64 {
        nes.run_frame(&input);
        let target = (n * 89342 + 2) / 3;
        assert!(nes.cycles >= target);
        assert!(nes.cycles < target + 3);
    }
    assert_eq!(nes.frames, 6);
    // Six frames owe exactly 178684 cycles: no drift.
    assert_eq!((6 * 89342 + 2) / 3, 178684);
}

#[test]
fn save_then_load_replays_identically() {
    // A loop that writes the PPU and the APU so frames and samples change.
    let program = [
        0xA9, 0x1E, 0x8D, 0x01, 0x20, // LDA #$1E; STA $2001
        0xA9, 0x01, 0x8D, 0x15, 0x40, // LDA #$01; STA $4015
        0xA9, 0xBF, 0x8D, 0x00, 0x40, // LDA #$BF; STA $4000
        0xA9, 0x40, 0x8D, 0x02, 0x40, // LDA #$40; STA $4002
        0xA9, 0x08, 0x8D, 0x03, 0x40, // LDA #$08; STA $4003
        0xE8, 0x8E, 0x07, 0x20, 0x4C, 0x19, 0x80, // INX; STX $2007; JMP $8019
    ];
    let mut nes = console_with(&program);
    let input = InputState::released();
    nes.run_frame(&input);
    let saved = nes.save_state().unwrap();
    nes.take_audio_samples();
    nes.run_frame(&input);
    let frame_a = nes.get_framebuffer().clone();
    let samples_a = nes.take_audio_samples();
    let cycles_a = nes.cycles;

    let mut other = NES::new();
    assert_eq!(other.load_state(&saved), Ok(()));
    other.take_audio_samples();
    other.run_frame(&input);
    assert_eq!(other.get_framebuffer(), &frame_a);
    assert_eq!(other.take_audio_samples(), samples_a);
    assert_eq!(other.cycles, cycles_a);
    assert!(!samples_a.is_empty());
}

#[test]
fn load_state_refusals_keep_console() {
    let mut nes = console_with(&[0xA9, 0x42]);
    nes.step();
    let saved = nes.save_state().unwrap();
    let mut bad = saved.clone();
    bad[0] = b'X';
    assert_eq!(nes.load_state(&bad), Err(StateError::BadMagic));
    let mut bad = saved.clone();
    bad[4] = 2;
    assert_eq!(nes.load_state(&bad), Err(StateError::UnsupportedVersion(2)));
    let mut bad = saved.clone();
    bad.pop();
    assert_eq!(nes.load_state(&bad), Err(StateError::Corrupt));
    assert_eq!(nes.load_state(&[]), Err(StateError::BadMagic));
    assert_eq!(nes.cpu.a, 0x42);
    assert_eq!(nes.cpu.pc, 0x8002);
}

#[test]
fn controller_port_shifts_buttons() {
    let mut nes = console_with(&[]);
    let mut input = InputState::released();
    input.a = true;
    input.start = true;
    input.right = true;
    assert_eq!(input.pad_bits(), 0x89);
    nes.bus.set_buttons(input.pad_bits());
    nes.bus.write(0x4016, 1);
    nes.bus.write(0x4016, 0);
    let bits: Vec<u8> = (0..9).map(|_| nes.bus.read(0x4016) & 1).collect();
    assert_eq!(bits, vec![1, 0, 0, 1, 0, 0, 0, 1, 1]);
}

#[test]
fn nmi_enters_through_vector() {
    // Enable NMI, then spin.
    let mut rom = rom_with(&[0xA9, 0x80, 0x8D, 0x00, 0x20, 0x4C, 0x05, 0x80]);
    rom[16 + 0x3FFA] = 0x00;
    rom[16 + 0x3FFB] = 0x90;
    let mut nes = NES::new();
    nes.load_rom(&rom).unwrap();
    let mut entered = false;
    for _ in 0..20000 {
        nes.step();
        if nes.cpu.pc >= 0x9000 {
            entered = true;
            break;
        }
    }
    assert!(entered);
    assert!(nes.cpu.irq_disable);
    assert_eq!(nes.cpu.sp, 0xFA);
}

#[test]
fn cpu_new_power_on_state() {
    let c = Cpu6502::new();
    assert_eq!(c.sp, 0xFD);
    assert!(c.irq_disable);
    assert_eq!(c.status(false), 0x24);
    assert_eq!(c.status(true), 0x34);
}

#[test]
fn adc_and_sbc_flags() {
    // CLC; LDA #$50; ADC #$50 -> $A0, V set, C clear.
    let mut nes = console_with(&[0x18, 0xA9, 0x50, 0x69, 0x50, 0x38, 0xE9, 0xB0]);
    nes.step();
    nes.step();
    assert_eq!(nes.step(), 2);
    assert_eq!(nes.cpu.a, 0xA0);
    assert!(nes.cpu.overflow && !nes.cpu.carry && nes.cpu.negative);
    // SEC; SBC #$B0 -> $F0, borrow (C clear), V clear.
    nes.step();
    nes.step();
    assert_eq!(nes.cpu.a, 0xF0);
    assert!(!nes.cpu.carry && !nes.cpu.overflow && nes.cpu.negative);
}

#[test]
fn compare_and_bit() {
    // LDA #$40; CMP #$40; BIT $8000 (opcode byte 0xA9: N set, V clear).
    let mut nes = console_with(&[0xA9, 0x40, 0xC9, 0x40, 0x2C, 0x00, 0x80]);
    nes.step();
    nes.step();
    assert!(nes.cpu.zero && nes.cpu.carry);
    assert_eq!(nes.step(), 4);
    assert!(nes.cpu.negative && !nes.cpu.overflow);
    assert!(nes.cpu.zero);
}

#[test]
fn read_modify_write_memory() {
    // LDA #$81; STA $10; ASL $10 (5 cycles); ROR $10; INC $10; DEC $10; DEC $10
    let mut nes = console_with(&[
        0xA9, 0x81, 0x85, 0x10, 0x06, 0x10, 0x66, 0x10, 0xE6, 0x10, 0xC6, 0x10, 0xC6, 0x10,
    ]);
    nes.step();
    assert_eq!(nes.step(), 3);
    assert_eq!(nes.step(), 5);
    assert_eq!(nes.bus.read(0x10), 0x02);
    assert!(nes.cpu.carry);
    nes.step();
    assert_eq!(nes.bus.read(0x10), 0x81);
    assert!(!nes.cpu.carry);
    nes.step();
    assert_eq!(nes.bus.read(0x10), 0x82);
    nes.step();
    nes.step();
    assert_eq!(nes.bus.read(0x10), 0x80);
}

#[test]
fn jsr_rts_and_stack() {
    // JSR $8010; (at $8003) LDX #$07; ... at $8010: LDA #$33; PHA; PLA; RTS
    let mut program = vec![0xEAu8; 0x20];
    program[0..3].copy_from_slice(&[0x20, 0x10, 0x80]);
    program[3..5].copy_from_slice(&[0xA2, 0x07]);
    program[0x10..0x15].copy_from_slice(&[0xA9, 0x33, 0x48, 0x68, 0x60]);
    let mut nes = console_with(&program);
    assert_eq!(nes.step(), 6);
    assert_eq!(nes.cpu.pc, 0x8010);
    assert_eq!(nes.cpu.sp, 0xFB);
    assert_eq!(nes.bus.read(0x01FD), 0x80);
    assert_eq!(nes.bus.read(0x01FC), 0x02);
    nes.step();
    assert_eq!(nes.step(), 3);
    assert_eq!(nes.step(), 4);
    assert_eq!(nes.cpu.a, 0x33);
    assert_eq!(nes.step(), 6);
    assert_eq!(nes.cpu.pc, 0x8003);
    assert_eq!(nes.cpu.sp, 0xFD);
    nes.step();
    assert_eq!(nes.cpu.x, 0x07);
}

#[test]
fn brk_and_rti() {
    // CLI; BRK; pad; at the IRQ vector $9000: RTI.
    let mut rom = rom_with(&[0x58, 0x00, 0xEA, 0xA9, 0x01]);
    rom[16 + 0x1000] = 0x40;
    rom[16 + 0x3FFE] = 0x00;
    rom[16 + 0x3FFF] = 0x90;
    let mut nes = NES::new();
    nes.load_rom(&rom).unwrap();
    nes.step();
    assert!(!nes.cpu.irq_disable);
    assert_eq!(nes.step(), 7);
    assert_eq!(nes.cpu.pc, 0x9000);
    assert!(nes.cpu.irq_disable);
    assert_eq!(nes.bus.read(0x01FB) & 0x10, 0x10);
    assert_eq!(nes.step(), 6);
    assert_eq!(nes.cpu.pc, 0x8003);
    assert!(!nes.cpu.irq_disable);
}

#[test]
fn branch_costs_when_executed() {
    // LDX #$01; BNE +0 (taken, same page: 3); LDX #$00; BNE (not taken: 2)
    let mut nes = console_with(&[0xA2, 0x01, 0xD0, 0x00, 0xA2, 0x00, 0xD0, 0x10]);
    nes.step();
    assert_eq!(nes.step(), 3);
    assert_eq!(nes.cpu.pc, 0x8004);
    nes.step();
    assert_eq!(nes.step(), 2);
    assert_eq!(nes.cpu.pc, 0x8008);
}

#[test]
fn branch_across_page_costs_four() {
    // At $80F0: LDX #$01; BNE +$20 lands on $8114, another page.
    let mut program = vec![0xEAu8; 0x120];
    program[0..3].copy_from_slice(&[0x4C, 0xF0, 0x80]);
    program[0xF0..0xF4].copy_from_slice(&[0xA2, 0x01, 0xD0, 0x20]);
    let mut nes = console_with(&program);
    nes.step();
    nes.step();
    assert_eq!(nes.step(), 4);
    assert_eq!(nes.cpu.pc, 0x8114);
}

#[test]
fn indexed_read_page_cross_costs_one_more() {
    // LDX #$01; LDA $80FF,X (crosses: 5); LDA $8000,X (4)
    let mut nes = console_with(&[0xA2, 0x01, 0xBD, 0xFF, 0x80, 0xBD, 0x00, 0x80]);
    nes.step();
    assert_eq!(nes.step(), 5);
    assert_eq!(nes.step(), 4);
    assert_eq!(nes.cpu.a, 0x01);
}

#[test]
fn header_bit_two_does_not_move_prg() {
    // No banks, byte 6 = 0x04: a 16-byte image loads.
    let rom = vec![0x4E, 0x45, 0x53, 0x1A, 0, 0, 0x04, 0, 0, 0, 0, 0, 0, 0, 0, 0];
    assert!(parse_ines(&rom).is_ok());
    // One bank that exactly fits, with the same bit set: PRG starts at byte 16.
    let mut rom = rom_with(&[0x77]);
    rom.truncate(16 + 16384);
    rom[5] = 0;
    rom[6] = 0x04;
    let mut nes = NES::new();
    assert_eq!(nes.load_rom(&rom), Ok(()));
    assert_eq!(nes.bus.read(0x8000), 0x77);
    assert_eq!(nes.bus.read(0xC000), 0x77);
}
