//! Behavioural tests for construction, loading, decoding, and the
//! remaining opcodes, including both settings of each quirk.

use chip8::decode::{decode, Instr};
use chip8::machine::{build_chip8, build_chip8_with, get_fontset, load_fontset, Chip8, Fault, Quirks};

fn boot(rom: &[u8]) -> Chip8 {
    let mut c = build_chip8();
    c.load_rom(&rom.to_vec()).unwrap();
    c
}

fn boot_with(quirks: Quirks, rom: &[u8]) -> Chip8 {
    let mut c = build_chip8_with(quirks);
    c.load_rom(&rom.to_vec()).unwrap();
    c
}

fn run(c: &mut Chip8, n: usize) {
    for _ in 0..n {
        c.cycle().unwrap();
    }
}

#[test]
fn fresh_machine_state() {
    let c = build_chip8();
    assert_eq!(c.pc(), 0x200);
    assert_eq!(c.index_register(), 0);
    assert_eq!(c.delay_timer(), 0);
    assert_eq!(c.sound_timer(), 0);
    assert!(!c.play_sound());
    assert_eq!(c.waiting_for_key(), None);
    for x in 0..16 {
        assert_eq!(c.register(x), 0);
    }
    for row in 0..32 {
        for col in 0..64 {
            assert!(!c.pixel(col, row));
        }
    }
}

#[test]
fn fontset_has_the_classic_glyphs() {
    let font = get_fontset();
    assert_eq!(font.len(), 80);
    assert_eq!(&font[0..5], &[0xF0, 0x90, 0x90, 0x90, 0xF0]);
    assert_eq!(&font[75..80], &[0xF0, 0x80, 0xF0, 0x80, 0x80]);
}

#[test]
fn load_fontset_is_idempotent() {
    let mut c = build_chip8();
    load_fontset(&mut c);
    // The glyphs are still intact: drawing glyph F gives its top row.
    c.load_rom(&vec![0x60, 0x0F, 0xF0, 0x29, 0xD1, 0x15]).unwrap();
    run(&mut c, 3);
    assert!(c.pixel(0, 0) && c.pixel(1, 0) && c.pixel(2, 0) && c.pixel(3, 0));
}

#[test]
fn rom_larger_than_memory_is_rejected() {
    let mut c = build_chip8();
    assert_eq!(c.load_rom(&vec![0; 3585]), Err(Fault::RomTooLarge));
    assert_eq!(c.load_rom(&vec![0; 3584]), Ok(()));
}

#[test]
fn unknown_opcode_is_a_distinguishable_fault() {
    let mut c = boot(&[0xFF, 0xFF]);
    assert_eq!(c.cycle(), Err(Fault::UnknownOpcode(0xFFFF)));
    // The advance stands, so a host may ignore the fault and continue.
    assert_eq!(c.pc(), 0x202);
}

#[test]
fn machine_call_opcode_is_undefined() {
    let mut c = boot(&[0x02, 0x34]);
    assert_eq!(c.cycle(), Err(Fault::UnknownOpcode(0x0234)));
}

#[test]
fn fetch_past_memory_end_faults() {
    let mut c = boot(&[0x1F, 0xFF]);
    c.cycle().unwrap();
    assert_eq!(c.pc(), 0xFFF);
    assert_eq!(c.cycle(), Err(Fault::MemoryOutOfRange));
    assert_eq!(c.pc(), 0xFFF);
}

#[test]
fn sprite_read_past_memory_end_faults() {
    // LD I, 0xFFF ; DRW V0, V0, 2 reads two bytes from 0xFFF.
    let mut c = boot(&[0xAF, 0xFF, 0xD0, 0x02]);
    c.cycle().unwrap();
    assert_eq!(c.cycle(), Err(Fault::MemoryOutOfRange));
    assert_eq!(c.register(15), 0);
}

#[test]
fn skip_equal_and_not_equal_immediate() {
    // LD V0, 7 ; SE V0, 7 skips ; SNE V0, 7 does not skip.
    let mut c = boot(&[0x60, 0x07, 0x30, 0x07]);
    run(&mut c, 2);
    assert_eq!(c.pc(), 0x206);
    let mut c2 = boot(&[0x60, 0x07, 0x40, 0x07]);
    run(&mut c2, 2);
    assert_eq!(c2.pc(), 0x204);
}

#[test]
fn skip_on_register_comparison() {
    // LD V0, 3 ; LD V1, 3 ; SE V0, V1 skips.
    let mut c = boot(&[0x60, 0x03, 0x61, 0x03, 0x50, 0x10]);
    run(&mut c, 3);
    assert_eq!(c.pc(), 0x208);
    // SNE V0, V1 with unequal registers skips.
    let mut c2 = boot(&[0x60, 0x03, 0x61, 0x04, 0x90, 0x10]);
    run(&mut c2, 3);
    assert_eq!(c2.pc(), 0x208);
}

#[test]
fn add_immediate_wraps_without_flag() {
    // LD V3, 0xFF ; LD VF, 0x55 ; ADD V3, 2: wraps to 1, VF untouched.
    let mut c = boot(&[0x63, 0xFF, 0x6F, 0x55, 0x73, 0x02]);
    run(&mut c, 3);
    assert_eq!(c.register(3), 1);
    assert_eq!(c.register(15), 0x55);
}

#[test]
fn bitwise_register_ops() {
    // V1 = 0xCC, V2 = 0xAA: OR, then reload and AND, then reload and XOR.
    let mut c = boot(&[0x61, 0xCC, 0x62, 0xAA, 0x81, 0x21]);
    run(&mut c, 3);
    assert_eq!(c.register(1), 0xEE);
    let mut c2 = boot(&[0x61, 0xCC, 0x62, 0xAA, 0x81, 0x22]);
    run(&mut c2, 3);
    assert_eq!(c2.register(1), 0x88);
    let mut c3 = boot(&[0x61, 0xCC, 0x62, 0xAA, 0x81, 0x23]);
    run(&mut c3, 3);
    assert_eq!(c3.register(1), 0x66);
}

#[test]
fn shifts_in_place_under_the_modern_convention() {
    // LD V1, 0x81 ; SHR V1, V0: halves V1, VF = bit out.
    let mut c = boot(&[0x61, 0x81, 0x81, 0x06]);
    run(&mut c, 2);
    assert_eq!(c.register(1), 0x40);
    assert_eq!(c.register(15), 1);
    // LD V1, 0x81 ; SHL V1, V0.
    let mut c2 = boot(&[0x61, 0x81, 0x81, 0x0E]);
    run(&mut c2, 2);
    assert_eq!(c2.register(1), 0x02);
    assert_eq!(c2.register(15), 1);
}

#[test]
fn shifts_read_vy_under_the_legacy_convention() {
    let legacy = Quirks { legacy_shift: true, increment_index: false, wrap_sprites: true };
    // LD V1, 0xFF ; LD V2, 0x04 ; SHR V1, V2: V1 = V2 >> 1.
    let mut c = boot_with(legacy, &[0x61, 0xFF, 0x62, 0x04, 0x81, 0x26]);
    run(&mut c, 3);
    assert_eq!(c.register(1), 0x02);
    assert_eq!(c.register(15), 0);
    // LD V1, 0xFF ; LD V2, 0xC0 ; SHL V1, V2: V1 = V2 << 1.
    let mut c2 = boot_with(legacy, &[0x61, 0xFF, 0x62, 0xC0, 0x81, 0x2E]);
    run(&mut c2, 3);
    assert_eq!(c2.register(1), 0x80);
    assert_eq!(c2.register(15), 1);
}

#[test]
fn index_register_loads_and_wraps() {
    // LD I, 0xFFF ; LD V0, 1 ; ADD I, V0 wraps to 0.
    let mut c = boot(&[0xAF, 0xFF, 0x60, 0x01, 0xF0, 0x1E]);
    c.cycle().unwrap();
    assert_eq!(c.index_register(), 0xFFF);
    run(&mut c, 2);
    assert_eq!(c.index_register(), 0);
}

#[test]
fn font_address_of_a_digit() {
    // LD V0, 0x0A ; LD F, V0: glyph A sits at 0x50 + 5 * 10.
    let mut c = boot(&[0x60, 0x0A, 0xF0, 0x29]);
    run(&mut c, 2);
    assert_eq!(c.index_register(), 0x82);
}

#[test]
fn bcd_digits_written_most_significant_first() {
    // LD V0, 254 ; LD I, 0x300 ; LD B, V0 ; LD V0..V2, [I].
    let mut c = boot(&[0x60, 0xFE, 0xA3, 0x00, 0xF0, 0x33, 0xF2, 0x65]);
    run(&mut c, 4);
    assert_eq!(c.register(0), 2);
    assert_eq!(c.register(1), 5);
    assert_eq!(c.register(2), 4);
    // The modern convention leaves I unchanged.
    assert_eq!(c.index_register(), 0x300);
}

#[test]
fn store_and_load_registers_through_index() {
    // LD V0, 0x11 ; LD V1, 0x22 ; LD I, 0x300 ; LD [I], V1 ;
    // LD V5, 0 (scratch) ; LD V0..V1, [I] after zeroing them.
    let mut c = boot(&[
        0x60, 0x11, 0x61, 0x22, 0xA3, 0x00, 0xF1, 0x55,
        0x60, 0x00, 0x61, 0x00, 0xF1, 0x65,
    ]);
    run(&mut c, 7);
    assert_eq!(c.register(0), 0x11);
    assert_eq!(c.register(1), 0x22);
    assert_eq!(c.index_register(), 0x300);
}

#[test]
fn index_advances_under_the_increment_quirk() {
    let q = Quirks { legacy_shift: false, increment_index: true, wrap_sprites: true };
    let mut c = boot_with(q, &[0x60, 0x11, 0xA3, 0x00, 0xF0, 0x55]);
    run(&mut c, 3);
    assert_eq!(c.index_register(), 0x301);
}

#[test]
fn random_byte_is_masked() {
    // RND V0, 0x00 is always zero; RND V1, 0x0F never sets high bits.
    let mut c = boot(&[0xC0, 0x00, 0xC1, 0x0F]);
    run(&mut c, 2);
    assert_eq!(c.register(0), 0);
    assert_eq!(c.register(1) & 0xF0, 0);
}

#[test]
fn timer_loads_and_sound_signal() {
    // LD V0, 2 ; LD ST, V0 ; LD V1, 9 ; LD DT, V1 ; LD V2, DT.
    let mut c = boot(&[0x60, 0x02, 0xF0, 0x18, 0x61, 0x09, 0xF1, 0x15, 0xF2, 0x07]);
    run(&mut c, 5);
    assert_eq!(c.sound_timer(), 2);
    assert!(c.play_sound());
    assert_eq!(c.register(2), 9);
    c.update_timers();
    c.update_timers();
    assert!(!c.play_sound());
    assert_eq!(c.delay_timer(), 7);
}

#[test]
fn skip_on_key_state() {
    // LD V0, 5 ; SKP V0 with key 5 down skips.
    let mut c = boot(&[0x60, 0x05, 0xE0, 0x9E]);
    c.set_key(5, true);
    run(&mut c, 2);
    assert_eq!(c.pc(), 0x206);
    // SKNP V0 with key 5 down does not skip.
    let mut c2 = boot(&[0x60, 0x05, 0xE0, 0xA1]);
    c2.set_key(5, true);
    run(&mut c2, 2);
    assert_eq!(c2.pc(), 0x204);
}

#[test]
fn wait_for_key_suspends_and_resumes() {
    let mut c = boot(&[0xF3, 0x0A]);
    assert_eq!(c.cycle(), Ok(0xF30A));
    assert_eq!(c.pc(), 0x200);
    assert_eq!(c.waiting_for_key(), Some(3));
    assert_eq!(c.cycle(), Ok(0xF30A));
    assert_eq!(c.pc(), 0x200);
    c.set_key(0xB, true);
    assert_eq!(c.cycle(), Ok(0xF30A));
    assert_eq!(c.register(3), 0xB);
    assert_eq!(c.pc(), 0x202);
    assert_eq!(c.waiting_for_key(), None);
}

#[test]
fn wait_for_key_takes_the_lowest_pressed_key() {
    let mut c = boot(&[0xF0, 0x0A]);
    c.set_key(9, true);
    c.set_key(4, true);
    c.cycle().unwrap();
    assert_eq!(c.register(0), 4);
}

#[test]
fn sprites_wrap_at_the_edge_by_default() {
    // Store 0xF0 at 0x300, then draw one row at (62, 0).
    let mut c = boot(&[0x60, 0xF0, 0xA3, 0x00, 0xF0, 0x55, 0x60, 0x3E, 0x61, 0x00, 0xD0, 0x11]);
    run(&mut c, 6);
    assert!(c.pixel(62, 0));
    assert!(c.pixel(63, 0));
    assert!(c.pixel(0, 0));
    assert!(c.pixel(1, 0));
    assert!(!c.pixel(2, 0));
}

#[test]
fn sprites_clip_at_the_edge_under_the_clip_quirk() {
    let q = Quirks { legacy_shift: false, increment_index: false, wrap_sprites: false };
    let mut c = boot_with(q, &[0x60, 0xF0, 0xA3, 0x00, 0xF0, 0x55, 0x60, 0x3E, 0x61, 0x00, 0xD0, 0x11]);
    run(&mut c, 6);
    assert!(c.pixel(62, 0));
    assert!(c.pixel(63, 0));
    assert!(!c.pixel(0, 0));
    assert!(!c.pixel(1, 0));
}

#[test]
fn clear_screen_method_clears_everything() {
    // Draw a glyph, then clear directly.
    let mut c = boot(&[0xA0, 0x50, 0xD0, 0x05]);
    run(&mut c, 2);
    assert!(c.pixel(0, 0));
    c.op_00e0();
    for row in 0..32 {
        for col in 0..64 {
            assert!(!c.pixel(col, row));
        }
    }
}

#[test]
fn decode_classifies_words() {
    assert_eq!(decode(0x00E0), Some(Instr::Cls));
    assert_eq!(decode(0x00EE), Some(Instr::Ret));
    assert_eq!(decode(0x1ABC), Some(Instr::Jp { nnn: 0xABC }));
    assert_eq!(decode(0x2ABC), Some(Instr::Call { nnn: 0xABC }));
    assert_eq!(decode(0x8AB4), Some(Instr::AddReg { x: 0xA, y: 0xB }));
    assert_eq!(decode(0x8AB8), None);
    assert_eq!(decode(0x5AB1), None);
    assert_eq!(decode(0x9AB1), None);
    assert_eq!(decode(0xDAB7), Some(Instr::Drw { x: 0xA, y: 0xB, n: 7 }));
    assert_eq!(decode(0xEA9E), Some(Instr::Skp { x: 0xA }));
    assert_eq!(decode(0xEAA2), None);
    assert_eq!(decode(0xFA65), Some(Instr::ReadThroughI { x: 0xA }));
    assert_eq!(decode(0xFA66), None);
}

#[test]
fn jump_sets_the_program_counter() {
    let mut c = boot(&[0x12, 0x46]);
    assert_eq!(c.cycle(), Ok(0x1246));
    assert_eq!(c.pc(), 0x246);
}
