//! Scenario tests for the interpreter's documented properties: flag
//! rules, draw round trips, call/return, stack depth, timer saturation,
//! the literal `JP V0` addressing mode, and an end-to-end self-jump loop.

use chip8::machine::{build_chip8, Chip8, Fault};

fn boot(rom: &[u8]) -> Chip8 {
    let mut c = build_chip8();
    c.load_rom(&rom.to_vec()).unwrap();
    c
}

fn run(c: &mut Chip8, n: usize) {
    for _ in 0..n {
        c.cycle().unwrap();
    }
}

#[test]
fn add_overflow_sets_flag_when_vx_is_vf() {
    // LD VF, 0x90 ; ADD VF, VF: the sum 0x120 overflows, and the flag
    // write is last, so VF reads 1, not the truncated sum.
    let mut c = boot(&[0x6F, 0x90, 0x8F, 0xF4]);
    run(&mut c, 2);
    assert_eq!(c.register(15), 1);
}

#[test]
fn add_no_overflow_clears_flag() {
    // LD V1, 0x20 ; LD V2, 0x30 ; ADD V1, V2.
    let mut c = boot(&[0x61, 0x20, 0x62, 0x30, 0x81, 0x24]);
    run(&mut c, 3);
    assert_eq!(c.register(1), 0x50);
    assert_eq!(c.register(15), 0);
}

#[test]
fn sub_borrow_clears_flag_and_wraps() {
    // LD V1, 0x10 ; LD V2, 0x20 ; SUB V1, V2: borrow, so VF = 0.
    let mut c = boot(&[0x61, 0x10, 0x62, 0x20, 0x81, 0x25]);
    run(&mut c, 3);
    assert_eq!(c.register(1), 0xF0);
    assert_eq!(c.register(15), 0);
}

#[test]
fn subn_no_borrow_sets_flag() {
    // LD V1, 0x10 ; LD V2, 0x20 ; SUBN V1, V2: Vy >= Vx, so VF = 1.
    let mut c = boot(&[0x61, 0x10, 0x62, 0x20, 0x81, 0x27]);
    run(&mut c, 3);
    assert_eq!(c.register(1), 0x10);
    assert_eq!(c.register(15), 1);
}

#[test]
fn cls_then_draw_reproduces_glyph_without_collision() {
    // LD I, 0x50 (glyph 0) ; CLS ; DRW V0, V0, 5 at (0, 0).
    let mut c = boot(&[0xA0, 0x50, 0x00, 0xE0, 0xD0, 0x05]);
    run(&mut c, 3);
    // Glyph 0 is F0 90 90 90 F0.
    let rows: [u8; 5] = [0xF0, 0x90, 0x90, 0x90, 0xF0];
    for (row, bits) in rows.iter().enumerate() {
        for col in 0..8 {
            let expected = (bits >> (7 - col)) & 1 == 1;
            assert_eq!(c.pixel(col, row), expected, "pixel ({}, {})", col, row);
        }
    }
    assert_eq!(c.register(15), 0);
}

#[test]
fn drawing_twice_cancels_and_reports_collision() {
    // LD I, 0x50 ; DRW ; DRW: XOR self-cancels, second draw collides.
    let mut c = boot(&[0xA0, 0x50, 0xD0, 0x05, 0xD0, 0x05]);
    run(&mut c, 3);
    for row in 0..32 {
        for col in 0..64 {
            assert!(!c.pixel(col, row), "pixel ({}, {}) still lit", col, row);
        }
    }
    assert_eq!(c.register(15), 1);
}

#[test]
fn call_then_ret_resumes_after_the_call() {
    // CALL 0x300 at 0x200; RET at 0x300.
    let mut rom = vec![0u8; 0x102];
    rom[0] = 0x23;
    rom[1] = 0x00;
    rom[0x100] = 0x00;
    rom[0x101] = 0xEE;
    let mut c = boot(&rom);
    assert_eq!(c.cycle().unwrap(), 0x2300);
    assert_eq!(c.pc(), 0x300);
    assert_eq!(c.cycle().unwrap(), 0x00EE);
    assert_eq!(c.pc(), 0x202);
}

#[test]
fn sixteen_calls_succeed_and_the_seventeenth_overflows() {
    // Seventeen CALL instructions, each to the next one.
    let mut rom = Vec::new();
    for k in 0..17u16 {
        let target = 0x202 + 2 * k;
        rom.push(0x20 | (target >> 8) as u8);
        rom.push((target & 0xFF) as u8);
    }
    let mut c = boot(&rom);
    for _ in 0..16 {
        c.cycle().unwrap();
    }
    assert_eq!(c.cycle(), Err(Fault::StackOverflow));
}

#[test]
fn ret_on_empty_stack_underflows() {
    let mut c = boot(&[0x00, 0xEE]);
    assert_eq!(c.cycle(), Err(Fault::StackUnderflow));
}

#[test]
fn delay_timer_counts_down_to_zero_and_stays() {
    // LD V0, 5 ; LD DT, V0.
    let mut c = boot(&[0x60, 0x05, 0xF0, 0x15]);
    run(&mut c, 2);
    assert_eq!(c.delay_timer(), 5);
    for expected in [4, 3, 2, 1, 0] {
        c.update_timers();
        assert_eq!(c.delay_timer(), expected);
    }
    c.update_timers();
    c.update_timers();
    assert_eq!(c.delay_timer(), 0);
}

#[test]
fn jp_v0_uses_the_literal_addressing_mode() {
    // LD V0, 0x10 ; JP V0, 0x300: lands on 0x310, whatever V3 holds.
    let mut c = boot(&[0x60, 0x10, 0x63, 0x99, 0xB3, 0x00]);
    run(&mut c, 3);
    assert_eq!(c.pc(), 0x310);
}

#[test]
fn cls_and_self_jump_loop_forever_without_faulting() {
    // CLS ; JP 0x200: oscillates, never faults, screen stays dark.
    let mut c = boot(&[0x00, 0xE0, 0x12, 0x00]);
    for step in 0..20 {
        let word = c.cycle().unwrap();
        if step % 2 == 0 {
            assert_eq!(word, 0x00E0);
            assert_eq!(c.pc(), 0x202);
        } else {
            assert_eq!(word, 0x1200);
            assert_eq!(c.pc(), 0x200);
        }
        for row in 0..32 {
            for col in 0..64 {
                assert!(!c.pixel(col, row));
            }
        }
    }
}
