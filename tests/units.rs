use retroblaze::apu::{mix, APU};
use retroblaze::bits::{get_bit, set_bit, would_borrow, would_carry};
use retroblaze::emulator::{Emulator, SystemType};
use retroblaze::genesis::Genesis;
use retroblaze::input_state::InputState;
use retroblaze::library::{system_for_extension, Game, GameLibrary};
use retroblaze::mapper::Board;
use retroblaze::opcodes::{decode, total_cycles, Mode, Op};
use retroblaze::snes::SNES;

#[test]
fn bit_helpers() {
    assert!(get_bit(0b0000_1000, 3));
    assert!(!get_bit(0b0000_1000, 2));
    assert_eq!(set_bit(0, 3, true), 8);
    assert_eq!(set_bit(0xFF, 0, false), 0xFE);
    assert_eq!(set_bit(0x80, 7, true), 0x80);
    assert!(would_carry(0xFF, 1));
    assert!(!would_carry(0x7F, 0x80));
    assert!(would_borrow(1, 2));
    assert!(!would_borrow(2, 2));
}

#[test]
fn documented_base_cycles() {
    let table: [(u8, Op, Mode, u8); 14] = [
        (0xA9, Op::Lda, Mode::Immediate, 2),
        (0xA5, Op::Lda, Mode::ZeroPage, 3),
        (0xBD, Op::Lda, Mode::AbsoluteX, 4),
        (0xB1, Op::Lda, Mode::IndirectIndexed, 5),
        (0xA1, Op::Lda, Mode::IndexedIndirect, 6),
        (0x9D, Op::Sta, Mode::AbsoluteX, 5),
        (0x91, Op::Sta, Mode::IndirectIndexed, 6),
        (0xFE, Op::Inc, Mode::AbsoluteX, 7),
        (0x0A, Op::Asl, Mode::Accumulator, 2),
        (0x20, Op::Jsr, Mode::Absolute, 6),
        (0x6C, Op::Jmp, Mode::Indirect, 5),
        (0x00, Op::Brk, Mode::Implied, 7),
        (0x68, Op::Pla, Mode::Implied, 4),
        (0xD0, Op::Bne, Mode::Relative, 2),
    ];
    for (opcode, op, mode, cycles) in table {
        let i = decode(opcode);
        assert_eq!(i.op, op);
        assert_eq!(i.mode, mode);
        assert_eq!(i.cycles, cycles);
    }
    assert!(decode(0xBD).page_penalty);
    assert!(!decode(0x9D).page_penalty);
}

#[test]
fn undocumented_opcodes_are_nops() {
    assert_eq!(decode(0x04).op, Op::Nop);
    assert_eq!(decode(0x04).mode, Mode::ZeroPage);
    assert_eq!(decode(0x1C).mode, Mode::AbsoluteX);
    assert_eq!(decode(0x02).op, Op::Nop);
    assert_eq!(decode(0xEB).op, Op::Sbc);
}

#[test]
fn branch_and_page_cross_costs() {
    let bne = decode(0xD0);
    assert_eq!(total_cycles(bne, false, false, false), 2);
    assert_eq!(total_cycles(bne, false, true, false), 3);
    assert_eq!(total_cycles(bne, false, true, true), 4);
    let lda = decode(0xBD);
    assert_eq!(total_cycles(lda, false, false, false), 4);
    assert_eq!(total_cycles(lda, true, false, false), 5);
    let sta = decode(0x9D);
    assert_eq!(total_cycles(sta, true, false, false), 5);
}

#[test]
fn mixer_formula_values() {
    assert_eq!(mix(0, 0, 0, 0, 0), 0);
    assert_eq!(mix(15, 0, 0, 0, 0), 4894);
    assert_eq!(mix(15, 15, 0, 0, 0), 8469);
    assert_eq!(mix(0, 0, 15, 0, 0), 8074);
    assert_eq!(mix(0, 0, 0, 0, 64), 11539);
    assert_eq!(mix(15, 15, 15, 15, 127), 32766);
}

#[test]
fn apu_produces_samples_at_output_rate() {
    let mut apu = APU::new();
    let board = Board::empty();
    for _ in 0..1789773 {
        apu.step(&board);
    }
    assert_eq!(apu.get_samples().len(), 44100);
    assert_eq!(apu.take_samples().len(), 44100);
    assert!(apu.get_samples().is_empty());
}

#[test]
fn apu_frame_interrupt_and_length() {
    let mut apu = APU::new();
    let board = Board::empty();
    apu.write_register(0x4015, 0x01);
    apu.write_register(0x4003, 0x08);
    assert_eq!(apu.pulse1.length, 254);
    assert_eq!(apu.read_status() & 0x01, 0x01);
    for _ in 0..29829 {
        apu.step(&board);
    }
    assert!(apu.irq_pending());
    assert_eq!(apu.read_status() & 0x40, 0x40);
    assert!(!apu.irq_pending());
    apu.write_register(0x4015, 0x00);
    assert_eq!(apu.read_status() & 0x01, 0);
}

#[test]
fn genesis_stripes() {
    let mut g = Genesis::new();
    g.run_frame();
    let fb = g.get_framebuffer();
    assert_eq!(fb.len(), 320 * 224 * 4);
    // Phase 127840 / 1000 = 127, 127 % 32 = 31: pixel (0, 0) is dark and dimmed.
    assert_eq!(&fb[0..4], &[16, 16, 48, 255]);
    // Pixel (1, 1): stripe position 1, bright, odd row.
    let o = (320 + 1) * 4;
    assert_eq!(&fb[o..o + 4], &[0, 100, 255, 255]);
    g.reset();
    let fb = g.get_framebuffer();
    assert_eq!(&fb[0..4], &[0, 80, 204, 255]);
}

#[test]
fn snes_frame_counting() {
    let mut s = SNES::new();
    assert_eq!(s.get_framebuffer().len(), 256 * 224 * 4);
    s.run_frame();
    s.run_frame();
    assert_eq!(s.cpu_cycles(), 2 * 89341);
    assert!(s.load_rom(&[]).is_ok());
    assert_eq!(s.cpu_cycles(), 0);
    assert!(!s.set_framebuffer(vec![0u8; 3]));
    assert!(s.set_framebuffer(vec![7u8; 256 * 224 * 4]));
    assert_eq!(s.get_framebuffer()[0], 7);
}

fn game(title: &str, system: &str) -> Game {
    Game {
        title: title.to_string(),
        system: system.to_string(),
        rom_path: format!("roms/{}", title),
        box_art_path: None,
        description: None,
        year: None,
    }
}

#[test]
fn library_filters_by_system_in_order() {
    let mut lib = GameLibrary::new();
    lib.add_game(game("a", "NES"));
    lib.add_game(game("b", "SNES"));
    lib.add_game(game("c", "NES"));
    let nes = lib.get_games_by_system("NES");
    assert_eq!(nes.len(), 2);
    assert_eq!(nes[0].title, "a");
    assert_eq!(nes[1].title, "c");
    assert!(lib.get_games_by_system("Genesis").is_empty());
}

#[test]
fn emulator_front_end() {
    let mut e = Emulator::new(SystemType::SNES);
    assert_eq!(e.system_type(), SystemType::SNES);
    assert_eq!(e.get_framebuffer().len(), 256 * 224 * 4);
    assert_eq!(e.run_frame(&InputState::released()), Ok(()));
    assert_eq!(e.save_state(), Ok(Vec::new()));
    let mut g = Emulator::new(SystemType::Genesis);
    assert_eq!(g.get_framebuffer().len(), 320 * 224 * 4);
    assert!(g.get_audio_samples().is_empty());
    let mut n = Emulator::new(SystemType::NES);
    assert!(n.load_rom(&[1, 2, 3]).is_err());
    assert_eq!(n.get_framebuffer().len(), 256 * 240 * 4);
    assert_eq!(n.run_frame(&InputState::released()), Ok(()));
    let state = n.save_state().unwrap();
    assert_eq!(&state[0..5], &[0x52, 0x42, 0x53, 0x54, 1]);
    assert_eq!(n.load_state(&state), Ok(()));
}

#[test]
fn rom_extensions_name_systems() {
    assert_eq!(system_for_extension("nes"), Some(SystemType::NES));
    assert_eq!(system_for_extension("NES"), Some(SystemType::NES));
    assert_eq!(system_for_extension("sfc"), Some(SystemType::SNES));
    assert_eq!(system_for_extension("Smc"), Some(SystemType::SNES));
    assert_eq!(system_for_extension("gen"), Some(SystemType::Genesis));
    assert_eq!(system_for_extension("MD"), Some(SystemType::Genesis));
    assert_eq!(system_for_extension("zip"), None);
    assert_eq!(system_for_extension("ne"), None);
}

#[test]
fn library_knows_its_rom_paths() {
    let mut lib = GameLibrary::new();
    lib.add_game(game("a", "NES"));
    assert!(lib.contains_rom("roms/a"));
    assert!(!lib.contains_rom("roms/b"));
}

#[test]
fn emulator_cores_run_their_frames() {
    let mut s = Emulator::new(SystemType::SNES);
    assert_eq!(s.snes_cycles(), Some(0));
    s.run_frame(&InputState::released()).unwrap();
    assert_eq!(s.snes_cycles(), Some(89341));
    assert!(!s.set_snes_frame(vec![1u8; 4]));
    assert!(s.set_snes_frame(vec![9u8; 256 * 224 * 4]));
    assert_eq!(s.get_framebuffer()[0], 9);
    let mut g = Emulator::new(SystemType::Genesis);
    assert_eq!(g.snes_cycles(), None);
    assert!(!g.set_snes_frame(vec![9u8; 256 * 224 * 4]));
    g.run_frame(&InputState::released()).unwrap();
    assert_eq!(&g.get_framebuffer()[0..4], &[16, 16, 48, 255]);
    g.reset();
    assert_eq!(&g.get_framebuffer()[0..4], &[0, 80, 204, 255]);
}
