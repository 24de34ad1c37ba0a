use chip8::machine::{Chip8, Cpu, LoadError};
use chip8::opcode::{decode, Opcode, StepError};
use chip8::timing::TimerClock;

fn machine_with(rom: &[u8]) -> Chip8 {
    let mut c = Chip8::new();
    assert_eq!(c.load_rom(&rom.to_vec()), Ok(()));
    c
}

#[test]
fn decode_load_immediate_every_byte() {
    for x in 0u16..16 {
        for kk in 0u16..256 {
            let w = 0x6000 | (x << 8) | kk;
            assert_eq!(decode(w), Ok(Opcode::LoadVxkk { x: x as u8, kk: kk as u8 }));
        }
    }
}

#[test]
fn load_immediate_sets_only_its_register() {
    let mut c = Chip8::new();
    for j in 0..16 {
        c.v[j] = j as u8 + 1;
    }
    assert_eq!(c.do_instruction(Opcode::LoadVxkk { x: 7, kk: 0xAB }, 0), Ok(()));
    for j in 0..16 {
        if j == 7 {
            assert_eq!(c.v[j], 0xAB);
        } else {
            assert_eq!(c.v[j], j as u8 + 1);
        }
    }
}

#[test]
fn add_with_carry() {
    let mut c = Chip8::new();
    c.v[0] = 0xFF;
    c.v[1] = 0x01;
    assert_eq!(c.do_instruction(Opcode::AddVxVy { x: 0, y: 1 }, 0), Ok(()));
    assert_eq!(c.v[0], 0x00);
    assert_eq!(c.v[15], 1);
    c.v[0] = 0x01;
    c.v[1] = 0x01;
    assert_eq!(c.do_instruction(Opcode::AddVxVy { x: 0, y: 1 }, 0), Ok(()));
    assert_eq!(c.v[0], 0x02);
    assert_eq!(c.v[15], 0);
}

#[test]
fn subtract_no_borrow() {
    let mut c = Chip8::new();
    c.v[2] = 5;
    c.v[3] = 3;
    assert_eq!(c.do_instruction(Opcode::Subtract { x: 2, y: 3 }, 0), Ok(()));
    assert_eq!(c.v[2], 2);
    assert_eq!(c.v[15], 1);
    c.v[2] = 3;
    c.v[3] = 5;
    assert_eq!(c.do_instruction(Opcode::Subtract { x: 2, y: 3 }, 0), Ok(()));
    assert_eq!(c.v[2], 254);
    assert_eq!(c.v[15], 0);
}

#[test]
fn subtract_reversed() {
    let mut c = Chip8::new();
    c.v[2] = 3;
    c.v[3] = 5;
    assert_eq!(c.do_instruction(Opcode::SubtractNotBorrow { x: 2, y: 3 }, 0), Ok(()));
    assert_eq!(c.v[2], 2);
    assert_eq!(c.v[15], 1);
}

#[test]
fn shift_right_captures_low_bit() {
    let mut c = Chip8::new();
    c.v[4] = 0b0000_0011;
    assert_eq!(c.do_instruction(Opcode::RightShift { x: 4, y: 0 }, 0), Ok(()));
    assert_eq!(c.v[4], 1);
    assert_eq!(c.v[15], 1);
}

#[test]
fn shift_left_captures_high_bit() {
    let mut c = Chip8::new();
    c.v[4] = 0b1000_0001;
    assert_eq!(c.do_instruction(Opcode::LeftShift { x: 4, y: 0 }, 0), Ok(()));
    assert_eq!(c.v[4], 2);
    assert_eq!(c.v[15], 1);
}

#[test]
fn draw_twice_clears_and_collides() {
    let mut c = Chip8::new();
    c.i = 0x300;
    c.mem[0x300] = 0b1010_0101;
    c.mem[0x301] = 0xFF;
    c.v[0] = 10;
    c.v[1] = 5;
    let op = Opcode::Draw { x: 0, y: 1, n: 2 };
    assert_eq!(c.do_instruction(op, 0), Ok(()));
    assert_eq!(c.v[15], 0);
    assert!(c.pixels[5 * 64 + 10]);
    assert!(!c.pixels[5 * 64 + 11]);
    assert!(c.pixels[6 * 64 + 17]);
    assert_eq!(c.pixels.iter().filter(|p| **p).count(), 12);
    assert_eq!(c.do_instruction(op, 0), Ok(()));
    assert_eq!(c.v[15], 1);
    assert!(c.pixels.iter().all(|p| !*p));
}

#[test]
fn draw_wraps_around_the_screen() {
    let mut c = Chip8::new();
    c.i = 0x300;
    c.mem[0x300] = 0xFF;
    c.v[0] = 60;
    c.v[1] = 0;
    assert_eq!(c.do_instruction(Opcode::Draw { x: 0, y: 1, n: 1 }, 0), Ok(()));
    for col in 0..64 {
        let lit = col >= 60 || col < 4;
        assert_eq!(c.pixels[col], lit, "column {}", col);
    }
    assert_eq!(c.pixels.iter().filter(|p| **p).count(), 8);
}

#[test]
fn draw_wraps_vertically() {
    let mut c = Chip8::new();
    c.i = 0x300;
    c.mem[0x300] = 0x80;
    c.mem[0x301] = 0x80;
    c.v[0] = 0;
    c.v[1] = 31;
    assert_eq!(c.do_instruction(Opcode::Draw { x: 0, y: 1, n: 2 }, 0), Ok(()));
    assert!(c.pixels[31 * 64]);
    assert!(c.pixels[0]);
}

#[test]
fn clear_screen_only_touches_pixels() {
    let mut c = Chip8::new();
    c.pixels[100] = true;
    c.v[3] = 9;
    assert_eq!(c.do_instruction(Opcode::Clear, 0), Ok(()));
    assert!(c.pixels.iter().all(|p| !*p));
    assert_eq!(c.v[3], 9);
}

fn nested_calls_rom() -> Vec<u8> {
    // Each subroutine at 0x200 + 2k calls the next one.
    let mut rom = Vec::new();
    for k in 0..17u16 {
        let target = 0x200 + 2 * (k + 1);
        rom.push(0x20 | (target >> 8) as u8);
        rom.push((target & 0xFF) as u8);
    }
    rom
}

#[test]
fn stack_discipline() {
    let mut c = machine_with(&nested_calls_rom());
    for k in 0..16usize {
        assert_eq!(c.step_with(0), Ok(()));
        assert_eq!(c.sp, k + 1);
        assert_eq!(c.pc, 0x200 + 2 * (k + 1));
    }
    let pc = c.pc;
    assert_eq!(c.do_instruction(Opcode::Call { nnn: 0x400 }, 0), Err(StepError::StackOverflow));
    assert_eq!(c.pc, pc);
    assert_eq!(c.sp, 16);
    for k in (0..16usize).rev() {
        assert_eq!(c.do_instruction(Opcode::Return, 0), Ok(()));
        assert_eq!(c.pc, 0x200 + 2 * (k + 1));
        assert_eq!(c.sp, k);
    }
    let pc = c.pc;
    assert_eq!(c.do_instruction(Opcode::Return, 0), Err(StepError::StackUnderflow));
    assert_eq!(c.pc, pc);
    assert_eq!(c.sp, 0);
}

#[test]
fn seventeenth_call_step_is_a_no_op() {
    let mut c = machine_with(&nested_calls_rom());
    for _ in 0..16 {
        assert_eq!(c.step_with(0), Ok(()));
    }
    assert_eq!(c.pc, 0x220);
    assert_eq!(c.step_with(0), Err(StepError::StackOverflow));
    assert_eq!(c.pc, 0x222);
    assert_eq!(c.sp, 16);
}

#[test]
fn timer_decay_floors_at_zero() {
    let mut c = Chip8::new();
    c.dt = 10;
    let mut clock = TimerClock::new(600).unwrap();
    let ticks = clock.advance(600);
    assert_eq!(ticks, 60);
    assert_eq!(clock.carry, 0);
    c.tick_timers(ticks as u32);
    assert_eq!(c.dt, 0);
}

#[test]
fn timer_decrements_by_ticks() {
    let mut c = Chip8::new();
    c.dt = 10;
    c.st = 2;
    c.tick_timers(3);
    assert_eq!(c.dt, 7);
    assert_eq!(c.st, 0);
    assert!(!c.sound_active());
}

#[test]
fn timer_clock_carries_fractions() {
    let mut clock = TimerClock::new(1000).unwrap();
    assert_eq!(clock.advance(10), 0);
    assert_eq!(clock.carry, 600);
    assert_eq!(clock.advance(10), 1);
    assert_eq!(clock.carry, 200);
    assert!(TimerClock::new(0).is_none());
}

#[test]
fn bcd_digits() {
    let mut c = Chip8::new();
    c.v[5] = 156;
    c.i = 0x300;
    assert_eq!(c.do_instruction(Opcode::LoadIBCDVx { x: 5 }, 0), Ok(()));
    assert_eq!(c.mem[0x300], 1);
    assert_eq!(c.mem[0x301], 5);
    assert_eq!(c.mem[0x302], 6);
    assert_eq!(c.i, 0x300);
}

#[test]
fn bcd_wraps_at_end_of_memory() {
    let mut c = Chip8::new();
    c.v[5] = 249;
    c.i = 0xFFF;
    assert_eq!(c.do_instruction(Opcode::LoadIBCDVx { x: 5 }, 0), Ok(()));
    assert_eq!(c.mem[0xFFF], 2);
    assert_eq!(c.mem[0x000], 4);
    assert_eq!(c.mem[0x001], 9);
}

#[test]
fn unknown_opcode_is_skipped() {
    let mut c = machine_with(&[0xFF, 0xFF, 0x60, 0x2A]);
    assert_eq!(c.step_with(0), Err(StepError::UnknownOpcode(0xFFFF)));
    assert_eq!(c.pc, 0x202);
    assert_eq!(c.step_with(0), Ok(()));
    assert_eq!(c.v[0], 0x2A);
    assert_eq!(c.pc, 0x204);
}

#[test]
fn decoder_table() {
    assert_eq!(decode(0x00E0), Ok(Opcode::Clear));
    assert_eq!(decode(0x00EE), Ok(Opcode::Return));
    assert_eq!(decode(0x0123), Err(StepError::UnknownOpcode(0x0123)));
    assert_eq!(decode(0x1ABC), Ok(Opcode::JumpAddr { nnn: 0xABC }));
    assert_eq!(decode(0x5120), Ok(Opcode::SkipEqualVxVy { x: 1, y: 2 }));
    assert_eq!(decode(0x5121), Err(StepError::UnknownOpcode(0x5121)));
    assert_eq!(decode(0x8AB4), Ok(Opcode::AddVxVy { x: 0xA, y: 0xB }));
    assert_eq!(decode(0x8AB8), Err(StepError::UnknownOpcode(0x8AB8)));
    assert_eq!(decode(0x8ABE), Ok(Opcode::LeftShift { x: 0xA, y: 0xB }));
    assert_eq!(decode(0xD12F), Ok(Opcode::Draw { x: 1, y: 2, n: 0xF }));
    assert_eq!(decode(0xE39E), Ok(Opcode::SkipIfVxPressed { x: 3 }));
    assert_eq!(decode(0xE3A1), Ok(Opcode::SkipIfVxNotPressed { x: 3 }));
    assert_eq!(decode(0xF40A), Ok(Opcode::LoadPressedKeyVx { x: 4 }));
    assert_eq!(decode(0xF465), Ok(Opcode::LoadVRegistersI { x: 4 }));
    assert_eq!(decode(0xF499), Err(StepError::UnknownOpcode(0xF499)));
    let c = Chip8::new();
    assert_eq!(c.process_opcode(0xC3F0), Ok(Opcode::Random { x: 3, kk: 0xF0 }));
}

#[test]
fn skips_advance_by_two_more() {
    let mut c = machine_with(&[0x30, 0x00, 0x40, 0x00]);
    assert_eq!(c.step_with(0), Ok(()));
    assert_eq!(c.pc, 0x204);
    let mut c = machine_with(&[0x40, 0x00]);
    assert_eq!(c.step_with(0), Ok(()));
    assert_eq!(c.pc, 0x202);
}

#[test]
fn jump_with_offset_wraps() {
    let mut c = Chip8::new();
    c.v[0] = 0x10;
    assert_eq!(c.do_instruction(Opcode::JumpAddrV0 { nnn: 0xFF8 }, 0), Ok(()));
    assert_eq!(c.pc, 0x008);
}

#[test]
fn random_is_masked() {
    let mut c = Chip8::new();
    assert_eq!(c.do_instruction(Opcode::Random { x: 2, kk: 0x0F }, 0xAB), Ok(()));
    assert_eq!(c.v[2], 0x0B);
    let mut c = machine_with(&[0xC2, 0x00, 0xC3, 0x0F]);
    c.v[2] = 0x55;
    assert_eq!(c.advance_pc(), Ok(()));
    assert_eq!(c.v[2], 0);
    assert_eq!(c.advance_pc(), Ok(()));
    assert!(c.v[3] <= 0x0F);
}

#[test]
fn store_and_load_registers_inclusive() {
    let mut c = Chip8::new();
    for j in 0..16 {
        c.v[j] = 100 + j as u8;
    }
    c.i = 0x400;
    assert_eq!(c.do_instruction(Opcode::LoadIVRegisters { x: 3 }, 0), Ok(()));
    assert_eq!(&c.mem[0x400..0x405], &[100, 101, 102, 103, 0]);
    assert_eq!(c.i, 0x400);
    let mut d = Chip8::new();
    d.mem[0x400] = 7;
    d.mem[0x401] = 8;
    d.mem[0x402] = 9;
    d.i = 0x400;
    assert_eq!(d.do_instruction(Opcode::LoadVRegistersI { x: 1 }, 0), Ok(()));
    assert_eq!(d.v[0], 7);
    assert_eq!(d.v[1], 8);
    assert_eq!(d.v[2], 0);
    assert_eq!(d.i, 0x400);
}

#[test]
fn font_sprite_address() {
    let mut c = Chip8::new();
    c.v[1] = 0xA;
    assert_eq!(c.do_instruction(Opcode::LoadISpritePositionVx { x: 1 }, 0), Ok(()));
    assert_eq!(c.i, 50);
    assert_eq!(c.mem[50], 0xF0);
    assert_eq!(c.mem[0], 0xF0);
    assert_eq!(c.mem[79], 0x80);
    assert_eq!(c.mem[80], 0);
}

#[test]
fn wait_for_key_parks_until_press() {
    let mut c = machine_with(&[0xF5, 0x0A, 0x61, 0x01]);
    assert_eq!(c.step_with(0), Ok(()));
    assert_eq!(c.waiting_for_key, Some(5));
    assert_eq!(c.pc, 0x200);
    c.dt = 5;
    c.tick_timers(1);
    assert_eq!(c.dt, 4);
    assert_eq!(c.step_with(0), Ok(()));
    assert_eq!(c.pc, 0x200);
    assert_eq!(c.waiting_for_key, Some(5));
    c.keys[0xC] = true;
    c.keys[0xE] = true;
    assert_eq!(c.step_with(0), Ok(()));
    assert_eq!(c.waiting_for_key, None);
    assert_eq!(c.v[5], 0xC);
    assert_eq!(c.pc, 0x202);
    assert_eq!(c.sp, 0);
    assert_eq!(c.i, 0);
    assert_eq!(c.step_with(0), Ok(()));
    assert_eq!(c.v[1], 1);
}

#[test]
fn wait_for_key_ignores_keys_already_down() {
    let mut c = machine_with(&[0xF2, 0x0A]);
    c.keys[3] = true;
    assert_eq!(c.advance_pc(), Ok(()));
    assert_eq!(c.waiting_for_key, Some(2));
    assert_eq!(c.advance_pc(), Ok(()));
    assert_eq!(c.waiting_for_key, Some(2));
    c.keys[3] = false;
    assert_eq!(c.advance_pc(), Ok(()));
    assert_eq!(c.waiting_for_key, Some(2));
    c.keys[3] = true;
    assert_eq!(c.advance_pc(), Ok(()));
    assert_eq!(c.waiting_for_key, None);
    assert_eq!(c.v[2], 3);
    assert_eq!(c.pc, 0x202);
}

#[test]
fn key_skip_reads_snapshot() {
    let mut c = Chip8::new();
    c.keys[3] = true;
    c.v[0] = 0x13;
    assert_eq!(c.do_instruction(Opcode::SkipIfVxPressed { x: 0 }, 0), Ok(()));
    assert_eq!(c.pc, 0x202);
    assert_eq!(c.do_instruction(Opcode::SkipIfVxNotPressed { x: 0 }, 0), Ok(()));
    assert_eq!(c.pc, 0x202);
}

#[test]
fn call_then_return_step_by_step() {
    // 0x200: call 0x300; 0x300: return
    let mut rom = vec![0u8; 0x102];
    rom[0] = 0x23;
    rom[1] = 0x00;
    rom[0x100] = 0x00;
    rom[0x101] = 0xEE;
    let mut c = machine_with(&rom);
    assert_eq!(c.step_with(0), Ok(()));
    assert_eq!(c.pc, 0x300);
    assert_eq!(c.sp, 1);
    assert_eq!(c.step_with(0), Ok(()));
    assert_eq!(c.pc, 0x202);
    assert_eq!(c.sp, 0);
}

#[test]
fn empty_stack_return_step_is_a_no_op() {
    let mut c = machine_with(&[0x00, 0xEE]);
    assert_eq!(c.step_with(0), Err(StepError::StackUnderflow));
    assert_eq!(c.pc, 0x202);
    assert_eq!(c.sp, 0);
}

#[test]
fn steps_do_not_count_timers_down() {
    let mut c = machine_with(&[0x61, 0x0A, 0xF1, 0x15, 0x62, 0x00]);
    assert_eq!(c.step_with(0), Ok(()));
    assert_eq!(c.step_with(0), Ok(()));
    assert_eq!(c.dt, 10);
    assert_eq!(c.step_with(0), Ok(()));
    assert_eq!(c.dt, 10);
    let mut clock = TimerClock::new(600).unwrap();
    for _ in 0..600 {
        let ticks = clock.advance(1);
        c.tick_timers(ticks as u32);
    }
    assert_eq!(c.dt, 0);
    c.tick_timers(1);
    assert_eq!(c.dt, 0);
}

#[test]
fn invalid_register_is_rejected() {
    let mut c = Chip8::new();
    assert_eq!(
        c.do_instruction(Opcode::LoadVxkk { x: 16, kk: 1 }, 0),
        Err(StepError::InvalidRegisterIndex)
    );
    assert_eq!(c.v, [0u8; 16]);
}

#[test]
fn rom_too_large_is_rejected() {
    let mut c = Chip8::new();
    assert_eq!(c.load_rom(&vec![1u8; 4096 - 0x200 + 1]), Err(LoadError::RomTooLarge));
    assert_eq!(c.mem[0x200], 0);
    assert_eq!(c.load_rom(&vec![1u8; 4096 - 0x200]), Ok(()));
    assert_eq!(c.mem[0xFFF], 1);
}

#[test]
fn delay_and_sound_timer_loads() {
    let mut c = Chip8::new();
    c.v[1] = 30;
    assert_eq!(c.do_instruction(Opcode::LoadDelayTimerVx { x: 1 }, 0), Ok(()));
    assert_eq!(c.do_instruction(Opcode::LoadSoundTimerVx { x: 1 }, 0), Ok(()));
    assert!(c.sound_active());
    c.tick_timers(5);
    assert_eq!(c.do_instruction(Opcode::LoadVxDelayTimer { x: 2 }, 0), Ok(()));
    assert_eq!(c.v[2], 25);
}

#[test]
fn add_index_wraps() {
    let mut c = Chip8::new();
    c.i = 0xFFE;
    c.v[0] = 4;
    assert_eq!(c.do_instruction(Opcode::AddIVx { x: 0 }, 0), Ok(()));
    assert_eq!(c.i, 2);
}
