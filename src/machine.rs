//! The machine state and the executor.
use rand::Rng;
use vstd::prelude::*;
use crate::model::{
    collides, decayed, drawn, execute, execute_ok, first_press, font, initial_view,
    lemma_execute_well_formed, lemma_step_well_formed, loaded, registers_valid, sprite_hit,
    step_view, stored, view_well_formed, with_rom, MachineView, MEMORY_SIZE, PROGRAM_START,
};
use crate::opcode::{decode, decoded, Opcode, StepError};

verus! {

/// Errors reported while loading a program image.
#[derive(Clone, Copy, Debug, PartialEq, Eq, Structural)]
pub enum LoadError {
    /// The image does not fit between the program start and the end of memory.
    RomTooLarge,
}

/// The whole machine: registers, memory, call stack, timers, screen and keypad.
pub struct Chip8 {
    /// V0..VF; VF doubles as the carry, borrow and collision flag.
    pub v: [u8; 16],
    /// The delay timer.
    pub dt: u8,
    /// The sound timer; a tone sounds while it is non-zero.
    pub st: u8,
    /// The address register I.
    pub i: usize,
    /// The program counter.
    pub pc: usize,
    /// Frames of the call stack in use.
    pub sp: usize,
    /// The address space.
    pub mem: Vec<u8>,
    /// Return addresses, the oldest first.
    pub stack: [u16; 16],
    /// The 64x32 screen, row by row.
    pub pixels: Vec<bool>,
    /// The keypad snapshot, written by the host before each cycle.
    pub keys: [bool; 16],
    /// The keypad as a parked key wait last saw it; a key counts as pressed
    /// when it is down in `keys` and was up here.
    pub key_snapshot: [bool; 16],
    /// The register that a parked key wait will fill.
    pub waiting_for_key: Option<u8>,
}

impl View for Chip8 {
    type V = MachineView;

    open spec fn view(&self) -> MachineView {
        MachineView {
            v: self.v@,
            dt: self.dt,
            st: self.st,
            i: self.i,
            pc: self.pc,
            sp: self.sp,
            mem: self.mem@,
            stack: self.stack@,
            pixels: self.pixels@,
            keys: self.keys@,
            key_snapshot: self.key_snapshot@,
            waiting_for_key: self.waiting_for_key,
        }
    }
}

/// Whether the sprite covers pixel `k`.
fn hit_at(mem: &Vec<u8>, i: usize, vx: u8, vy: u8, n: u8, k: usize) -> (r: bool)
    requires
        mem@.len() == 4096,
        i < 4096,
        k < 2048,
    ensures
        r == sprite_hit(mem@, i, vx, vy, n, k as int),
{
    let col: usize = (k % 64 + 64 - (vx as usize) % 64) % 64;
    let row: usize = (k / 64 + 32 - (vy as usize) % 32) % 32;
    if row < n as usize && col < 8 {
        let b: u8 = mem[(i + row) % 4096];
        (b >> (7 - col as u8)) & 1 == 1
    } else {
        false
    }
}

/// XORs the sprite onto the screen, pixel by pixel, and reports whether a
/// pixel that was on went off.
fn draw_sprite(pixels: &mut Vec<bool>, mem: &Vec<u8>, i: usize, vx: u8, vy: u8, n: u8) -> (r: bool)
    requires
        old(pixels)@.len() == 2048,
        mem@.len() == 4096,
        i < 4096,
    ensures
        final(pixels)@ == drawn(old(pixels)@, mem@, i, vx, vy, n),
        r == collides(old(pixels)@, mem@, i, vx, vy, n),
{
    let ghost before = pixels@;
    let mut collided = false;
    let mut k: usize = 0;
    while k < 2048
        invariant
            k <= 2048,
            pixels@.len() == 2048,
            mem@.len() == 4096,
            i < 4096,
            forall|j: int| 0 <= j < k ==> pixels@[j] == (before[j] != sprite_hit(mem@, i, vx, vy, n, j)),
            forall|j: int| k <= j < 2048 ==> pixels@[j] == before[j],
            collided == exists|j: int| 0 <= j < k && before[j] && #[trigger] sprite_hit(mem@, i, vx, vy, n, j),
        decreases 2048 - k,
    {
        let hit = hit_at(mem, i, vx, vy, n, k);
        if hit {
            let p = pixels[k];
            if p {
                collided = true;
            }
            pixels.set(k, !p);
        }
        k += 1;
    }
    assert(pixels@ =~= drawn(before, mem@, i, vx, vy, n));
    collided
}

/// Stores V0..=Vx in memory from address `i` on, wrapping at the end.
fn store_registers(mem: &mut Vec<u8>, i: usize, v: &[u8; 16], x: u8)
    requires
        old(mem)@.len() == 4096,
        i < 4096,
        x < 16,
    ensures
        final(mem)@ == stored(old(mem)@, i, v@, (x + 1) as nat),
{
    let mut j: usize = 0;
    while j <= x as usize
        invariant
            j <= x + 1,
            x < 16,
            i < 4096,
            mem@.len() == 4096,
            mem@ == stored(old(mem)@, i, v@, j as nat),
        decreases x + 1 - j,
    {
        mem.set((i + j) % 4096, v[j]);
        j += 1;
    }
}

/// Loads V0..=Vx from memory from address `i` on, wrapping at the end.
fn load_registers(v: &mut [u8; 16], mem: &Vec<u8>, i: usize, x: u8)
    requires
        mem@.len() == 4096,
        i < 4096,
        x < 16,
    ensures
        final(v)@ == loaded(mem@, i, old(v)@, x),
{
    let ghost before = v@;
    let mut j: usize = 0;
    while j <= x as usize
        invariant
            j <= x + 1,
            x < 16,
            i < 4096,
            mem@.len() == 4096,
            v@ == Seq::new(16, |t: int| if t < j { mem@[(i + t) % 4096] } else { before[t] }),
        decreases x + 1 - j,
    {
        v[j] = mem[(i + j) % 4096];
        j += 1;
        assert(v@ =~= Seq::new(16, |t: int| if t < j { mem@[(i + t) % 4096] } else { before[t] }));
    }
    assert(v@ =~= loaded(mem@, i, before, x));
}

/// Whether the register fields of an instruction name registers V0..VF.
fn registers_in_range(op: &Opcode) -> (r: bool)
    ensures
        r == registers_valid(*op),
{
    match *op {
        Opcode::SkipEqualVxkk { x, .. } | Opcode::SkipNotEqualVxkk { x, .. } | Opcode::LoadVxkk {
            x,
            ..
        } | Opcode::AddVxkk { x, .. } | Opcode::Random { x, .. } => x < 16,
        Opcode::SkipEqualVxVy { x, y } | Opcode::LoadVxVy { x, y } | Opcode::Or { x, y }
        | Opcode::And { x, y } | Opcode::Xor { x, y } | Opcode::AddVxVy { x, y }
        | Opcode::Subtract { x, y } | Opcode::RightShift { x, y } | Opcode::SubtractNotBorrow {
            x,
            y,
        } | Opcode::LeftShift { x, y } | Opcode::SkipNotEqualVxVy { x, y } | Opcode::Draw {
            x,
            y,
            ..
        } => x < 16 && y < 16,
        Opcode::SkipIfVxPressed { x } | Opcode::SkipIfVxNotPressed { x }
        | Opcode::LoadVxDelayTimer { x } | Opcode::LoadPressedKeyVx { x }
        | Opcode::LoadDelayTimerVx { x } | Opcode::LoadSoundTimerVx { x } | Opcode::AddIVx { x }
        | Opcode::LoadISpritePositionVx { x } | Opcode::LoadIBCDVx { x }
        | Opcode::LoadIVRegisters { x } | Opcode::LoadVRegistersI { x } => x < 16,
        _ => true,
    }
}

/// Relies on rand's `thread_rng` and `Rng::gen_range` over `0..=255`: a byte
/// from the thread's generator. Nothing is known of its value.
#[verifier::external_body]
fn random_byte() -> (r: u8) {
    rand::thread_rng().gen_range(0..=255u8)
}

/// The lowest key that was up in `before` and is down in `after`.
fn first_new_press(before: &[bool; 16], after: &[bool; 16]) -> (r: Option<u8>)
    ensures
        r == first_press(before@, after@, 0),
{
    let mut k: usize = 0;
    while k < 16
        invariant
            k <= 16,
            first_press(before@, after@, 0) == first_press(before@, after@, k as int),
        decreases 16 - k,
    {
        if !before[k] && after[k] {
            return Some(k as u8);
        }
        k += 1;
    }
    None
}

/// The interface of an interpreter core: construction, program loading, and
/// the fetch-decode-execute cycle.
pub trait Cpu: Sized {
    /// The core's internal invariant.
    spec fn well_formed(&self) -> bool;

    /// A machine at power-on.
    fn new() -> (r: Self)
        ensures
            r.well_formed(),
    ;

    /// Copies a program image into memory at the program start.
    fn load_rom(&mut self, rom: &Vec<u8>) -> (r: Result<(), LoadError>)
        requires
            old(self).well_formed(),
        ensures
            final(self).well_formed(),
    ;

    /// Runs one fetch-decode-execute cycle.
    fn advance_pc(&mut self) -> (r: Result<(), StepError>)
        requires
            old(self).well_formed(),
        ensures
            final(self).well_formed(),
    ;

    /// Decodes one instruction word.
    fn process_opcode(&self, opcode: u16) -> (r: Result<Opcode, StepError>);

    /// Executes a decoded instruction; `random` is the byte that `Random`
    /// masks.
    fn do_instruction(&mut self, instruction: Opcode, random: u8) -> (r: Result<(), StepError>)
        requires
            old(self).well_formed(),
        ensures
            final(self).well_formed(),
    ;
}

impl Cpu for Chip8 {
    open spec fn well_formed(&self) -> bool {
        view_well_formed(self@)
    }

    fn new() -> (r: Self)
        ensures
            r@ == initial_view(),
    {
        let mut mem: Vec<u8> = vec![
            0xF0u8, 0x90, 0x90, 0x90, 0xF0, 0x20, 0x60, 0x20, 0x20, 0x70,
            0xF0, 0x10, 0xF0, 0x80, 0xF0, 0xF0, 0x10, 0xF0, 0x10, 0xF0,
            0x90, 0x90, 0xF0, 0x10, 0x10, 0xF0, 0x80, 0xF0, 0x10, 0xF0,
            0xF0, 0x80, 0xF0, 0x90, 0xF0, 0xF0, 0x10, 0x20, 0x40, 0x40,
            0xF0, 0x90, 0xF0, 0x90, 0xF0, 0xF0, 0x90, 0xF0, 0x10, 0xF0,
            0xF0, 0x90, 0xF0, 0x90, 0x90, 0xE0, 0x90, 0xE0, 0x90, 0xE0,
            0xF0, 0x80, 0x80, 0x80, 0xF0, 0xE0, 0x90, 0x90, 0x90, 0xE0,
            0xF0, 0x80, 0xF0, 0x80, 0xF0, 0xF0, 0x80, 0xF0, 0x80, 0x80,
        ];
        assert(mem@ == font());
        while mem.len() < 4096
            invariant
                80 <= mem@.len() <= 4096,
                forall|a: int| 0 <= a < 80 ==> mem@[a] == font()[a],
                forall|a: int| 80 <= a < mem@.len() ==> mem@[a] == 0,
            decreases 4096 - mem@.len(),
        {
            mem.push(0);
        }
        let r = Chip8 {
            v: [0u8; 16],
            dt: 0,
            st: 0,
            i: 0,
            pc: 0x200,
            sp: 0,
            mem,
            stack: [0u16; 16],
            pixels: vec![false; 2048],
            keys: [false; 16],
            key_snapshot: [false; 16],
            waiting_for_key: None,
        };
        assert(r@ =~= initial_view());
        r
    }

    fn load_rom(&mut self, rom: &Vec<u8>) -> (r: Result<(), LoadError>)
        ensures
            rom@.len() > 4096 - 0x200 ==> r == Err::<(), LoadError>(LoadError::RomTooLarge)
                && final(self)@ == old(self)@,
            rom@.len() <= 4096 - 0x200 ==> r == Ok::<(), LoadError>(())
                && final(self)@ == (MachineView { mem: with_rom(old(self)@.mem, rom@), ..old(self)@ }),
    {
        if rom.len() > MEMORY_SIZE - PROGRAM_START {
            return Err(LoadError::RomTooLarge);
        }
        let ghost before = self.mem@;
        let mut j: usize = 0;
        while j < rom.len()
            invariant
                rom@.len() <= 4096 - 0x200,
                j <= rom@.len(),
                self.mem@.len() == 4096,
                self.mem@ == Seq::new(
                    4096,
                    |a: int| if 0x200 <= a < 0x200 + j { rom@[a - 0x200] } else { before[a] },
                ),
                self@ == (MachineView { mem: self.mem@, ..old(self)@ }),
            decreases rom@.len() - j,
        {
            self.mem.set(PROGRAM_START + j, rom[j]);
            j += 1;
            assert(self.mem@ =~= Seq::new(
                4096,
                |a: int| if 0x200 <= a < 0x200 + j { rom@[a - 0x200] } else { before[a] },
            ));
        }
        assert(self.mem@ =~= with_rom(before, rom@));
        Ok(())
    }

    fn advance_pc(&mut self) -> (r: Result<(), StepError>)
        ensures
            exists|b: u8| (final(self)@, r) == step_view(old(self)@, b),
    {
        let b = random_byte();
        self.step_with(b)
    }

    fn process_opcode(&self, opcode: u16) -> (r: Result<Opcode, StepError>)
        ensures
            match decoded(opcode) {
                Some(op) => r == Ok::<Opcode, StepError>(op),
                None => r == Err::<Opcode, StepError>(StepError::UnknownOpcode(opcode)),
            },
    {
        decode(opcode)
    }

    fn do_instruction(&mut self, instruction: Opcode, random: u8) -> (r: Result<(), StepError>)
        ensures
            (final(self)@, r) == execute(old(self)@, instruction, random),
    {
        proof {
            lemma_execute_well_formed(self@, instruction, random);
        }
        if !registers_in_range(&instruction) {
            return Err(StepError::InvalidRegisterIndex);
        }
        match instruction {
            Opcode::Return => {
                if self.sp == 0 {
                    Err(StepError::StackUnderflow)
                } else {
                    self.sp = self.sp - 1;
                    self.pc = self.stack[self.sp] as usize;
                    Ok(())
                }
            },
            Opcode::Call { nnn } => {
                if self.sp >= 16 {
                    Err(StepError::StackOverflow)
                } else {
                    self.stack[self.sp] = self.pc as u16;
                    self.sp = self.sp + 1;
                    self.pc = (nnn % 4096) as usize;
                    Ok(())
                }
            },
            _ => {
                self.execute_total(instruction, random);
                Ok(())
            },
        }
    }
}

impl Chip8 {
    /// Runs one fetch-decode-execute cycle with `random` as the byte that a
    /// `Random` instruction draws. Parked on a key wait, it only checks the
    /// keypad for a key that went down since the previous check.
    pub fn step_with(&mut self, random: u8) -> (r: Result<(), StepError>)
        requires
            old(self).well_formed(),
        ensures
            final(self).well_formed(),
            (final(self)@, r) == step_view(old(self)@, random),
    {
        proof {
            lemma_step_well_formed(self@, random);
        }
        if let Some(x) = self.waiting_for_key {
            let now = self.keys;
            if let Some(k) = first_new_press(&self.key_snapshot, &now) {
                self.v[x as usize] = k;
                self.waiting_for_key = None;
                self.pc = (self.pc + 2) % 4096;
            }
            self.key_snapshot = now;
            return Ok(());
        }
        let hi = self.mem[self.pc] as u16;
        let lo = self.mem[(self.pc + 1) % 4096] as u16;
        let word: u16 = hi * 256 + lo;
        self.pc = (self.pc + 2) % 4096;
        match decode(word) {
            Ok(op) => self.do_instruction(op, random),
            Err(e) => Err(e),
        }
    }

    /// Decrements both timers once per elapsed 60 Hz tick, floored at zero.
    pub fn tick_timers(&mut self, elapsed_ticks: u32)
        requires
            old(self).well_formed(),
        ensures
            final(self).well_formed(),
            final(self)@ == (MachineView {
                dt: decayed(old(self).dt, elapsed_ticks),
                st: decayed(old(self).st, elapsed_ticks),
                ..old(self)@
            }),
    {
        self.dt = if self.dt as u32 > elapsed_ticks { (self.dt as u32 - elapsed_ticks) as u8 } else { 0 };
        self.st = if self.st as u32 > elapsed_ticks { (self.st as u32 - elapsed_ticks) as u8 } else { 0 };
    }

    /// Whether the tone should sound: the sound timer is running.
    pub fn sound_active(&self) -> (r: bool)
        ensures
            r == (self.st > 0),
    {
        self.st > 0
    }

    /// Moves the program counter past the next instruction when `c` holds.
    fn skip_when(&mut self, c: bool)
        requires
            old(self).pc < 4096,
        ensures
            final(self)@ == crate::model::skip_if(old(self)@, c),
    {
        if c {
            self.pc = (self.pc + 2) % 4096;
        }
    }

    /// Executes an instruction that cannot fail.
    fn execute_total(&mut self, op: Opcode, random: u8)
        requires
            old(self).well_formed(),
            registers_valid(op),
        ensures
            final(self)@ == execute_ok(old(self)@, op, random),
    {
        match op {
            Opcode::Clear => {
                self.pixels = vec![false; 2048];
                assert(self.pixels@ =~= Seq::new(2048, |k: int| false));
            },
            Opcode::JumpAddr { nnn } => {
                self.pc = (nnn % 4096) as usize;
            },
            Opcode::SkipEqualVxkk { x, kk } => {
                let c = self.v[x as usize] == kk;
                self.skip_when(c);
            },
            Opcode::SkipNotEqualVxkk { x, kk } => {
                let c = self.v[x as usize] != kk;
                self.skip_when(c);
            },
            Opcode::SkipEqualVxVy { x, y } => {
                let c = self.v[x as usize] == self.v[y as usize];
                self.skip_when(c);
            },
            Opcode::LoadVxkk { x, kk } => {
                self.v[x as usize] = kk;
            },
            Opcode::AddVxkk { x, kk } => {
                self.v[x as usize] = ((self.v[x as usize] as u16 + kk as u16) % 256) as u8;
            },
            Opcode::LoadVxVy { x, y } => {
                self.v[x as usize] = self.v[y as usize];
            },
            Opcode::Or { x, y } => {
                self.v[x as usize] = self.v[x as usize] | self.v[y as usize];
            },
            Opcode::And { x, y } => {
                self.v[x as usize] = self.v[x as usize] & self.v[y as usize];
            },
            Opcode::Xor { x, y } => {
                self.v[x as usize] = self.v[x as usize] ^ self.v[y as usize];
            },
            Opcode::AddVxVy { x, y } => {
                let sum: u16 = self.v[x as usize] as u16 + self.v[y as usize] as u16;
                self.v[x as usize] = (sum % 256) as u8;
                self.v[15] = if sum > 255 { 1 } else { 0 };
            },
            Opcode::Subtract { x, y } => {
                let (vx, vy) = (self.v[x as usize], self.v[y as usize]);
                self.v[x as usize] = ((vx as u16 + 256 - vy as u16) % 256) as u8;
                self.v[15] = if vx >= vy { 1 } else { 0 };
            },
            Opcode::RightShift { x, .. } => {
                let vx = self.v[x as usize];
                self.v[x as usize] = vx / 2;
                self.v[15] = vx % 2;
            },
            Opcode::SubtractNotBorrow { x, y } => {
                let (vx, vy) = (self.v[x as usize], self.v[y as usize]);
                self.v[x as usize] = ((vy as u16 + 256 - vx as u16) % 256) as u8;
                self.v[15] = if vy >= vx { 1 } else { 0 };
            },
            Opcode::LeftShift { x, .. } => {
                let vx = self.v[x as usize];
                self.v[x as usize] = ((vx as u16 * 2) % 256) as u8;
                self.v[15] = vx / 128;
            },
            Opcode::SkipNotEqualVxVy { x, y } => {
                let c = self.v[x as usize] != self.v[y as usize];
                self.skip_when(c);
            },
            Opcode::LoadI { nnn } => {
                self.i = (nnn % 4096) as usize;
            },
            Opcode::JumpAddrV0 { nnn } => {
                self.pc = (nnn as usize + self.v[0] as usize) % 4096;
            },
            Opcode::Random { x, kk } => {
                self.v[x as usize] = random & kk;
            },
            Opcode::Draw { x, y, n } => {
                let (vx, vy) = (self.v[x as usize], self.v[y as usize]);
                let hit = draw_sprite(&mut self.pixels, &self.mem, self.i, vx, vy, n % 16);
                self.v[15] = if hit { 1 } else { 0 };
            },
            Opcode::SkipIfVxPressed { x } => {
                let c = self.keys[(self.v[x as usize] % 16) as usize];
                self.skip_when(c);
            },
            Opcode::SkipIfVxNotPressed { x } => {
                let c = !self.keys[(self.v[x as usize] % 16) as usize];
                self.skip_when(c);
            },
            Opcode::LoadVxDelayTimer { x } => {
                self.v[x as usize] = self.dt;
            },
            Opcode::LoadPressedKeyVx { x } => {
                self.waiting_for_key = Some(x);
                self.key_snapshot = self.keys;
                self.pc = (self.pc + 4094) % 4096;
            },
            Opcode::LoadDelayTimerVx { x } => {
                self.dt = self.v[x as usize];
            },
            Opcode::LoadSoundTimerVx { x } => {
                self.st = self.v[x as usize];
            },
            Opcode::AddIVx { x } => {
                self.i = (self.i + self.v[x as usize] as usize) % 4096;
            },
            Opcode::LoadISpritePositionVx { x } => {
                self.i = ((self.v[x as usize] % 16) as usize) * 5;
            },
            Opcode::LoadIBCDVx { x } => {
                let b = self.v[x as usize];
                let i = self.i;
                self.mem.set(i, b / 100);
                self.mem.set((i + 1) % 4096, b / 10 % 10);
                self.mem.set((i + 2) % 4096, b % 10);
            },
            Opcode::LoadIVRegisters { x } => {
                store_registers(&mut self.mem, self.i, &self.v, x);
            },
            Opcode::LoadVRegistersI { x } => {
                load_registers(&mut self.v, &self.mem, self.i, x);
            },
            _ => {},
        }
    }
}

} // verus!
