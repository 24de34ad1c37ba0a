//! The mathematical model of the machine and the meaning of each instruction.
use vstd::prelude::*;
use crate::opcode::{decoded, Opcode, StepError};

verus! {

/// Bytes of the address space.
pub const MEMORY_SIZE: usize = 4096;
/// Where a program image starts.
pub const PROGRAM_START: usize = 0x200;
/// Width of the screen in pixels.
pub const SCREEN_WIDTH: usize = 64;
/// Height of the screen in pixels.
pub const SCREEN_HEIGHT: usize = 32;

/// The machine state as plain mathematical values.
#[verifier::ext_equal]
pub struct MachineView {
    pub v: Seq<u8>,
    pub dt: u8,
    pub st: u8,
    pub i: usize,
    pub pc: usize,
    pub sp: usize,
    pub mem: Seq<u8>,
    pub stack: Seq<u16>,
    pub pixels: Seq<bool>,
    pub keys: Seq<bool>,
    pub key_snapshot: Seq<bool>,
    pub waiting_for_key: Option<u8>,
}

/// Sizes match the hardware, every address is inside memory, the stack holds
/// at most sixteen frames, and a parked wait names a real register.
pub open spec fn view_well_formed(s: MachineView) -> bool {
    &&& s.v.len() == 16
    &&& s.stack.len() == 16
    &&& s.mem.len() == 4096
    &&& s.pixels.len() == 2048
    &&& s.keys.len() == 16
    &&& s.key_snapshot.len() == 16
    &&& s.pc < 4096
    &&& s.i < 4096
    &&& s.sp <= 16
    &&& forall|j: int| 0 <= j < 16 ==> #[trigger] s.stack[j] < 4096
    &&& match s.waiting_for_key {
        Some(x) => x < 16,
        None => true,
    }
}

/// The hexadecimal digit sprites 0 to F, five rows each.
pub open spec fn font() -> Seq<u8> {
    seq![
        0xF0u8, 0x90, 0x90, 0x90, 0xF0, 0x20, 0x60, 0x20, 0x20, 0x70,
        0xF0, 0x10, 0xF0, 0x80, 0xF0, 0xF0, 0x10, 0xF0, 0x10, 0xF0,
        0x90, 0x90, 0xF0, 0x10, 0x10, 0xF0, 0x80, 0xF0, 0x10, 0xF0,
        0xF0, 0x80, 0xF0, 0x90, 0xF0, 0xF0, 0x10, 0x20, 0x40, 0x40,
        0xF0, 0x90, 0xF0, 0x90, 0xF0, 0xF0, 0x90, 0xF0, 0x10, 0xF0,
        0xF0, 0x90, 0xF0, 0x90, 0x90, 0xE0, 0x90, 0xE0, 0x90, 0xE0,
        0xF0, 0x80, 0x80, 0x80, 0xF0, 0xE0, 0x90, 0x90, 0x90, 0xE0,
        0xF0, 0x80, 0xF0, 0x80, 0xF0, 0xF0, 0x80, 0xF0, 0x80, 0x80,
    ]
}

/// The state at power-on: all zero but the font and the program counter.
pub open spec fn initial_view() -> MachineView {
    MachineView {
        v: Seq::new(16, |j: int| 0u8),
        dt: 0,
        st: 0,
        i: 0,
        pc: 0x200,
        sp: 0,
        mem: Seq::new(4096, |a: int| if a < 80 { font()[a] } else { 0u8 }),
        stack: Seq::new(16, |j: int| 0u16),
        pixels: Seq::new(2048, |k: int| false),
        keys: Seq::new(16, |j: int| false),
        key_snapshot: Seq::new(16, |j: int| false),
        waiting_for_key: None,
    }
}

/// Memory after a program image is copied in at the program start.
pub open spec fn with_rom(mem: Seq<u8>, rom: Seq<u8>) -> Seq<u8> {
    Seq::new(
        4096,
        |a: int| if 0x200 <= a < 0x200 + rom.len() { rom[a - 0x200] } else { mem[a] },
    )
}

/// The address of the next instruction word.
pub open spec fn next_pc(pc: usize) -> usize {
    ((pc + 2) % 4096) as usize
}

/// Skips the next instruction when `c` holds.
pub open spec fn skip_if(s: MachineView, c: bool) -> MachineView {
    if c {
        MachineView { pc: next_pc(s.pc), ..s }
    } else {
        s
    }
}

/// Writes register `x`.
pub open spec fn set_reg(s: MachineView, x: u8, val: u8) -> MachineView {
    MachineView { v: s.v.update(x as int, val), ..s }
}

/// Writes register `x`, then the flag register.
pub open spec fn set_reg_flag(s: MachineView, x: u8, val: u8, flag: u8) -> MachineView {
    MachineView { v: s.v.update(x as int, val).update(15, flag), ..s }
}

/// Whether bit `c` of a sprite row is set, counting from the left.
pub open spec fn bit_at(b: u8, c: int) -> bool {
    (b >> ((7 - c) as u8)) & 1u8 == 1u8
}

/// Whether the sprite of `n` rows at address `i`, placed at (`vx`, `vy`) with
/// wraparound on both axes, covers pixel `k`.
pub open spec fn sprite_hit(mem: Seq<u8>, i: usize, vx: u8, vy: u8, n: u8, k: int) -> bool {
    let col = (k % 64 + 64 - vx as int % 64) % 64;
    let row = (k / 64 + 32 - vy as int % 32) % 32;
    row < n && col < 8 && bit_at(mem[(i + row) % 4096], col)
}

/// Whether drawing the sprite turns off a pixel that was on.
pub open spec fn collides(pixels: Seq<bool>, mem: Seq<u8>, i: usize, vx: u8, vy: u8, n: u8) -> bool {
    exists|k: int| 0 <= k < 2048 && pixels[k] && #[trigger] sprite_hit(mem, i, vx, vy, n, k)
}

/// The screen after the sprite is XORed onto it.
pub open spec fn drawn(pixels: Seq<bool>, mem: Seq<u8>, i: usize, vx: u8, vy: u8, n: u8) -> Seq<bool> {
    Seq::new(2048, |k: int| pixels[k] != sprite_hit(mem, i, vx, vy, n, k))
}

/// Memory after registers V0..V(count-1) are stored from address `i` on.
pub open spec fn stored(mem: Seq<u8>, i: usize, v: Seq<u8>, count: nat) -> Seq<u8>
    decreases count,
{
    if count == 0 {
        mem
    } else {
        stored(mem, i, v, (count - 1) as nat).update((i + count - 1) % 4096, v[count - 1])
    }
}

/// Registers after V0..=Vx are loaded from address `i` on.
pub open spec fn loaded(mem: Seq<u8>, i: usize, v: Seq<u8>, x: u8) -> Seq<u8> {
    Seq::new(16, |j: int| if j <= x { mem[(i + j) % 4096] } else { v[j] })
}

/// Whether the register fields of an instruction name registers V0..VF.
pub open spec fn registers_valid(op: Opcode) -> bool {
    match op {
        Opcode::SkipEqualVxkk { x, .. } | Opcode::SkipNotEqualVxkk { x, .. } | Opcode::LoadVxkk {
            x,
            ..
        } | Opcode::AddVxkk { x, .. } | Opcode::Random { x, .. } => x < 16,
        Opcode::SkipEqualVxVy { x, y } | Opcode::LoadVxVy { x, y } | Opcode::Or { x, y }
        | Opcode::And { x, y } | Opcode::Xor { x, y } | Opcode::AddVxVy { x, y }
        | Opcode::Subtract { x, y } | Opcode::RightShift { x, y } | Opcode::SubtractNotBorrow {
            x,
            y,
        } | Opcode::LeftShift { x, y } | Opcode::SkipNotEqualVxVy { x, y } | Opcode::Draw {
            x,
            y,
            ..
        } => x < 16 && y < 16,
        Opcode::SkipIfVxPressed { x } | Opcode::SkipIfVxNotPressed { x }
        | Opcode::LoadVxDelayTimer { x } | Opcode::LoadPressedKeyVx { x }
        | Opcode::LoadDelayTimerVx { x } | Opcode::LoadSoundTimerVx { x } | Opcode::AddIVx { x }
        | Opcode::LoadISpritePositionVx { x } | Opcode::LoadIBCDVx { x }
        | Opcode::LoadIVRegisters { x } | Opcode::LoadVRegistersI { x } => x < 16,
        _ => true,
    }
}

/// What executing one instruction does, given the random byte that `Random`
/// would draw. `s.pc` already addresses the following instruction. An error
/// leaves the state as it was.
pub open spec fn execute(s: MachineView, op: Opcode, rnd: u8) -> (MachineView, Result<(), StepError>) {
    if !registers_valid(op) {
        (s, Err(StepError::InvalidRegisterIndex))
    } else {
        match op {
            Opcode::Return => {
                if s.sp == 0 {
                    (s, Err(StepError::StackUnderflow))
                } else {
                    (
                        MachineView {
                            pc: s.stack[s.sp - 1] as usize,
                            sp: (s.sp - 1) as usize,
                            ..s
                        },
                        Ok(()),
                    )
                }
            },
            Opcode::Call { nnn } => {
                if s.sp >= 16 {
                    (s, Err(StepError::StackOverflow))
                } else {
                    (
                        MachineView {
                            stack: s.stack.update(s.sp as int, s.pc as u16),
                            sp: (s.sp + 1) as usize,
                            pc: (nnn % 4096) as usize,
                            ..s
                        },
                        Ok(()),
                    )
                }
            },
            _ => (execute_ok(s, op, rnd), Ok(())),
        }
    }
}

/// The effect of an instruction that cannot fail.
pub open spec fn execute_ok(s: MachineView, op: Opcode, rnd: u8) -> MachineView {
    match op {
        Opcode::Clear => MachineView { pixels: Seq::new(2048, |k: int| false), ..s },
        Opcode::JumpAddr { nnn } => MachineView { pc: (nnn % 4096) as usize, ..s },
        Opcode::SkipEqualVxkk { x, kk } => skip_if(s, s.v[x as int] == kk),
        Opcode::SkipNotEqualVxkk { x, kk } => skip_if(s, s.v[x as int] != kk),
        Opcode::SkipEqualVxVy { x, y } => skip_if(s, s.v[x as int] == s.v[y as int]),
        Opcode::LoadVxkk { x, kk } => set_reg(s, x, kk),
        Opcode::AddVxkk { x, kk } => set_reg(s, x, ((s.v[x as int] + kk) % 256) as u8),
        Opcode::LoadVxVy { x, y } => set_reg(s, x, s.v[y as int]),
        Opcode::Or { x, y } => set_reg(s, x, s.v[x as int] | s.v[y as int]),
        Opcode::And { x, y } => set_reg(s, x, s.v[x as int] & s.v[y as int]),
        Opcode::Xor { x, y } => set_reg(s, x, s.v[x as int] ^ s.v[y as int]),
        Opcode::AddVxVy { x, y } => set_reg_flag(
            s,
            x,
            ((s.v[x as int] + s.v[y as int]) % 256) as u8,
            if s.v[x as int] + s.v[y as int] > 255 { 1 } else { 0 },
        ),
        Opcode::Subtract { x, y } => set_reg_flag(
            s,
            x,
            ((s.v[x as int] - s.v[y as int] + 256) % 256) as u8,
            if s.v[x as int] >= s.v[y as int] { 1 } else { 0 },
        ),
        Opcode::RightShift { x, .. } => set_reg_flag(
            s,
            x,
            (s.v[x as int] / 2) as u8,
            (s.v[x as int] % 2) as u8,
        ),
        Opcode::SubtractNotBorrow { x, y } => set_reg_flag(
            s,
            x,
            ((s.v[y as int] - s.v[x as int] + 256) % 256) as u8,
            if s.v[y as int] >= s.v[x as int] { 1 } else { 0 },
        ),
        Opcode::LeftShift { x, .. } => set_reg_flag(
            s,
            x,
            ((s.v[x as int] * 2) % 256) as u8,
            (s.v[x as int] / 128) as u8,
        ),
        Opcode::SkipNotEqualVxVy { x, y } => skip_if(s, s.v[x as int] != s.v[y as int]),
        Opcode::LoadI { nnn } => MachineView { i: (nnn % 4096) as usize, ..s },
        Opcode::JumpAddrV0 { nnn } => MachineView {
            pc: ((nnn + s.v[0]) % 4096) as usize,
            ..s
        },
        Opcode::Random { x, kk } => set_reg(s, x, rnd & kk),
        Opcode::Draw { x, y, n } => {
            let (vx, vy, rows) = (s.v[x as int], s.v[y as int], n % 16);
            MachineView {
                pixels: drawn(s.pixels, s.mem, s.i, vx, vy, rows),
                v: s.v.update(
                    15,
                    if collides(s.pixels, s.mem, s.i, vx, vy, rows) { 1u8 } else { 0u8 },
                ),
                ..s
            }
        },
        Opcode::SkipIfVxPressed { x } => skip_if(s, s.keys[(s.v[x as int] % 16) as int]),
        Opcode::SkipIfVxNotPressed { x } => skip_if(s, !s.keys[(s.v[x as int] % 16) as int]),
        Opcode::LoadVxDelayTimer { x } => set_reg(s, x, s.dt),
        Opcode::LoadPressedKeyVx { x } => MachineView {
            waiting_for_key: Some(x),
            key_snapshot: s.keys,
            pc: ((s.pc + 4094) % 4096) as usize,
            ..s
        },
        Opcode::LoadDelayTimerVx { x } => MachineView { dt: s.v[x as int], ..s },
        Opcode::LoadSoundTimerVx { x } => MachineView { st: s.v[x as int], ..s },
        Opcode::AddIVx { x } => MachineView { i: ((s.i + s.v[x as int]) % 4096) as usize, ..s },
        Opcode::LoadISpritePositionVx { x } => MachineView {
            i: ((s.v[x as int] % 16) * 5) as usize,
            ..s
        },
        Opcode::LoadIBCDVx { x } => {
            let b = s.v[x as int];
            MachineView {
                mem: s.mem.update(s.i as int, (b / 100) as u8).update(
                    (s.i + 1) % 4096,
                    (b / 10 % 10) as u8,
                ).update((s.i + 2) % 4096, (b % 10) as u8),
                ..s
            }
        },
        Opcode::LoadIVRegisters { x } => MachineView {
            mem: stored(s.mem, s.i, s.v, (x + 1) as nat),
            ..s
        },
        Opcode::LoadVRegistersI { x } => MachineView { v: loaded(s.mem, s.i, s.v, x), ..s },
        _ => s,
    }
}

/// The instruction word at `pc`, big-endian.
pub open spec fn fetched(s: MachineView) -> u16 {
    (s.mem[s.pc as int] * 256 + s.mem[(s.pc + 1) % 4096]) as u16
}

/// One step. While parked on a key wait, the step only checks the keypad:
/// the lowest key that is down now and was up at the previous check lands in
/// the waiting register, the wait ends and `pc` moves past the wait
/// instruction; with no such key the wait goes on, and the keypad as it is
/// now becomes the previous check. Otherwise the word at `pc` is fetched,
/// `pc` moves past it, and the word is decoded and executed. An unknown word
/// has no other effect.
pub open spec fn step_view(s: MachineView, rnd: u8) -> (MachineView, Result<(), StepError>) {
    match s.waiting_for_key {
        Some(x) => match first_press(s.key_snapshot, s.keys, 0) {
            Some(k) => (
                MachineView {
                    v: s.v.update(x as int, k),
                    waiting_for_key: None,
                    pc: next_pc(s.pc),
                    key_snapshot: s.keys,
                    ..s
                },
                Ok(()),
            ),
            None => (MachineView { key_snapshot: s.keys, ..s }, Ok(())),
        },
        None => {
            let w = fetched(s);
            let s1 = MachineView { pc: next_pc(s.pc), ..s };
            match decoded(w) {
                Some(op) => execute(s1, op, rnd),
                None => (s1, Err(StepError::UnknownOpcode(w))),
            }
        },
    }
}

/// The lowest key at or after `from` that is up in `before` and down in
/// `after`.
pub open spec fn first_press(before: Seq<bool>, after: Seq<bool>, from: int) -> Option<u8>
    decreases 16 - from,
{
    if from >= 16 {
        None
    } else if !before[from] && after[from] {
        Some(from as u8)
    } else {
        first_press(before, after, from + 1)
    }
}

/// A timer after `ticks` decrements, floored at zero.
pub open spec fn decayed(t: u8, ticks: u32) -> u8 {
    if t > ticks { (t - ticks) as u8 } else { 0 }
}

/// Storing registers leaves the size of memory as it was.
pub proof fn lemma_stored_len(mem: Seq<u8>, i: usize, v: Seq<u8>, count: nat)
    requires
        mem.len() == 4096,
    ensures
        stored(mem, i, v, count).len() == mem.len(),
    decreases count,
{
    if count > 0 {
        lemma_stored_len(mem, i, v, (count - 1) as nat);
    }
}

/// Executing any instruction keeps the state well formed.
pub proof fn lemma_execute_well_formed(s: MachineView, op: Opcode, rnd: u8)
    requires
        view_well_formed(s),
    ensures
        view_well_formed(execute(s, op, rnd).0),
{
    if let Opcode::LoadIVRegisters { x } = op {
        lemma_stored_len(s.mem, s.i, s.v, (x + 1) as nat);
    }
    if let Opcode::Call { nnn } = op {
        if s.sp < 16 {
            let t = s.stack.update(s.sp as int, s.pc as u16);
            assert forall|j: int| 0 <= j < 16 implies #[trigger] t[j] < 4096 by {
                if j != s.sp {
                    assert(t[j] == s.stack[j]);
                }
            }
        }
    }
}

/// Stepping keeps the state well formed.
pub proof fn lemma_step_well_formed(s: MachineView, rnd: u8)
    requires
        view_well_formed(s),
    ensures
        view_well_formed(step_view(s, rnd).0),
{
    if s.waiting_for_key is None {
        let s1 = MachineView { pc: next_pc(s.pc), ..s };
        if let Some(op) = decoded(fetched(s)) {
            lemma_execute_well_formed(s1, op, rnd);
        }
    }
}

} // verus!
