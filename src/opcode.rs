//! Decoding of 16-bit instruction words into typed instructions.
use vstd::prelude::*;

verus! {

/// Errors reported while stepping the machine. None of them stops the
/// machine: the offending instruction has no effect.
#[derive(Clone, Copy, Debug, PartialEq, Eq, Structural)]
pub enum StepError {
    /// The word matches no entry of the instruction table.
    UnknownOpcode(u16),
    /// A call was made with all sixteen stack levels in use.
    StackOverflow,
    /// A return was made with an empty stack.
    StackUnderflow,
    /// An instruction names a register outside V0..VF.
    InvalidRegisterIndex,
}

/// One CHIP-8 instruction with its operand fields: `x` and `y` name
/// registers, `n` is a nibble, `kk` a byte and `nnn` a 12-bit address.
#[derive(Clone, Copy, Debug, PartialEq, Eq, Structural)]
pub enum Opcode {
    /// 00E0: clear the screen.
    Clear,
    /// 00EE: return from a subroutine.
    Return,
    /// 1nnn: jump to nnn.
    JumpAddr { nnn: u16 },
    /// 2nnn: call the subroutine at nnn.
    Call { nnn: u16 },
    /// 3xkk: skip the next instruction if Vx == kk.
    SkipEqualVxkk { x: u8, kk: u8 },
    /// 4xkk: skip the next instruction if Vx != kk.
    SkipNotEqualVxkk { x: u8, kk: u8 },
    /// 5xy0: skip the next instruction if Vx == Vy.
    SkipEqualVxVy { x: u8, y: u8 },
    /// 6xkk: Vx = kk.
    LoadVxkk { x: u8, kk: u8 },
    /// 7xkk: Vx = Vx + kk, wrapping, VF untouched.
    AddVxkk { x: u8, kk: u8 },
    /// 8xy0: Vx = Vy.
    LoadVxVy { x: u8, y: u8 },
    /// 8xy1: Vx = Vx | Vy.
    Or { x: u8, y: u8 },
    /// 8xy2: Vx = Vx & Vy.
    And { x: u8, y: u8 },
    /// 8xy3: Vx = Vx ^ Vy.
    Xor { x: u8, y: u8 },
    /// 8xy4: Vx = Vx + Vy, VF = carry.
    AddVxVy { x: u8, y: u8 },
    /// 8xy5: Vx = Vx - Vy, VF = no borrow.
    Subtract { x: u8, y: u8 },
    /// 8xy6: Vx = Vx >> 1, VF = the bit shifted out.
    RightShift { x: u8, y: u8 },
    /// 8xy7: Vx = Vy - Vx, VF = no borrow.
    SubtractNotBorrow { x: u8, y: u8 },
    /// 8xyE: Vx = Vx << 1, VF = the bit shifted out.
    LeftShift { x: u8, y: u8 },
    /// 9xy0: skip the next instruction if Vx != Vy.
    SkipNotEqualVxVy { x: u8, y: u8 },
    /// Annn: I = nnn.
    LoadI { nnn: u16 },
    /// Bnnn: jump to nnn + V0.
    JumpAddrV0 { nnn: u16 },
    /// Cxkk: Vx = random byte & kk.
    Random { x: u8, kk: u8 },
    /// Dxyn: draw an n-row sprite from memory at I at (Vx, Vy), VF = collision.
    Draw { x: u8, y: u8, n: u8 },
    /// Ex9E: skip the next instruction if key Vx is pressed.
    SkipIfVxPressed { x: u8 },
    /// ExA1: skip the next instruction if key Vx is not pressed.
    SkipIfVxNotPressed { x: u8 },
    /// Fx07: Vx = delay timer.
    LoadVxDelayTimer { x: u8 },
    /// Fx0A: wait for a key press and store the key in Vx.
    LoadPressedKeyVx { x: u8 },
    /// Fx15: delay timer = Vx.
    LoadDelayTimerVx { x: u8 },
    /// Fx18: sound timer = Vx.
    LoadSoundTimerVx { x: u8 },
    /// Fx1E: I = I + Vx.
    AddIVx { x: u8 },
    /// Fx29: I = address of the font sprite for digit Vx.
    LoadISpritePositionVx { x: u8 },
    /// Fx33: store the three decimal digits of Vx at I, I+1, I+2.
    LoadIBCDVx { x: u8 },
    /// Fx55: store V0..=Vx in memory from I.
    LoadIVRegisters { x: u8 },
    /// Fx65: load V0..=Vx from memory from I.
    LoadVRegistersI { x: u8 },
}

/// The top nibble of a word: the primary selector.
pub open spec fn top_of(w: u16) -> u16 {
    w / 4096
}

/// The `x` field: the second nibble.
pub open spec fn x_of(w: u16) -> u8 {
    ((w / 256) % 16) as u8
}

/// The `y` field: the third nibble.
pub open spec fn y_of(w: u16) -> u8 {
    ((w / 16) % 16) as u8
}

/// The `n` field: the low nibble.
pub open spec fn n_of(w: u16) -> u8 {
    (w % 16) as u8
}

/// The `kk` field: the low byte.
pub open spec fn kk_of(w: u16) -> u8 {
    (w % 256) as u8
}

/// The `nnn` field: the low twelve bits.
pub open spec fn nnn_of(w: u16) -> u16 {
    w % 4096
}

/// The instruction table: what a word decodes to, or `None` where no entry
/// matches.
pub open spec fn decoded(w: u16) -> Option<Opcode> {
    let (x, y, n, kk, nnn) = (x_of(w), y_of(w), n_of(w), kk_of(w), nnn_of(w));
    let t = top_of(w);
    if t == 0x0 {
        if w == 0x00E0 {
            Some(Opcode::Clear)
        } else if w == 0x00EE {
            Some(Opcode::Return)
        } else {
            None
        }
    } else if t == 0x1 {
        Some(Opcode::JumpAddr { nnn })
    } else if t == 0x2 {
        Some(Opcode::Call { nnn })
    } else if t == 0x3 {
        Some(Opcode::SkipEqualVxkk { x, kk })
    } else if t == 0x4 {
        Some(Opcode::SkipNotEqualVxkk { x, kk })
    } else if t == 0x5 {
        if n == 0 { Some(Opcode::SkipEqualVxVy { x, y }) } else { None }
    } else if t == 0x6 {
        Some(Opcode::LoadVxkk { x, kk })
    } else if t == 0x7 {
        Some(Opcode::AddVxkk { x, kk })
    } else if t == 0x8 {
        if n == 0x0 {
            Some(Opcode::LoadVxVy { x, y })
        } else if n == 0x1 {
            Some(Opcode::Or { x, y })
        } else if n == 0x2 {
            Some(Opcode::And { x, y })
        } else if n == 0x3 {
            Some(Opcode::Xor { x, y })
        } else if n == 0x4 {
            Some(Opcode::AddVxVy { x, y })
        } else if n == 0x5 {
            Some(Opcode::Subtract { x, y })
        } else if n == 0x6 {
            Some(Opcode::RightShift { x, y })
        } else if n == 0x7 {
            Some(Opcode::SubtractNotBorrow { x, y })
        } else if n == 0xE {
            Some(Opcode::LeftShift { x, y })
        } else {
            None
        }
    } else if t == 0x9 {
        if n == 0 { Some(Opcode::SkipNotEqualVxVy { x, y }) } else { None }
    } else if t == 0xA {
        Some(Opcode::LoadI { nnn })
    } else if t == 0xB {
        Some(Opcode::JumpAddrV0 { nnn })
    } else if t == 0xC {
        Some(Opcode::Random { x, kk })
    } else if t == 0xD {
        Some(Opcode::Draw { x, y, n })
    } else if t == 0xE {
        if kk == 0x9E {
            Some(Opcode::SkipIfVxPressed { x })
        } else if kk == 0xA1 {
            Some(Opcode::SkipIfVxNotPressed { x })
        } else {
            None
        }
    } else {
        if kk == 0x07 {
            Some(Opcode::LoadVxDelayTimer { x })
        } else if kk == 0x0A {
            Some(Opcode::LoadPressedKeyVx { x })
        } else if kk == 0x15 {
            Some(Opcode::LoadDelayTimerVx { x })
        } else if kk == 0x18 {
            Some(Opcode::LoadSoundTimerVx { x })
        } else if kk == 0x1E {
            Some(Opcode::AddIVx { x })
        } else if kk == 0x29 {
            Some(Opcode::LoadISpritePositionVx { x })
        } else if kk == 0x33 {
            Some(Opcode::LoadIBCDVx { x })
        } else if kk == 0x55 {
            Some(Opcode::LoadIVRegisters { x })
        } else if kk == 0x65 {
            Some(Opcode::LoadVRegistersI { x })
        } else {
            None
        }
    }
}

/// Decodes one instruction word. Total: a word outside the table is
/// reported as `UnknownOpcode` carrying the word.
pub fn decode(w: u16) -> (r: Result<Opcode, StepError>)
    ensures
        match decoded(w) {
            Some(op) => r == Ok::<Opcode, StepError>(op),
            None => r == Err::<Opcode, StepError>(StepError::UnknownOpcode(w)),
        },
{
    let x: u8 = (w / 256 % 16) as u8;
    let y: u8 = (w / 16 % 16) as u8;
    let n: u8 = (w % 16) as u8;
    let kk: u8 = (w % 256) as u8;
    let nnn: u16 = w % 4096;
    let unknown = Err(StepError::UnknownOpcode(w));
    match w / 4096 {
        0x0 => {
            if w == 0x00E0 {
                Ok(Opcode::Clear)
            } else if w == 0x00EE {
                Ok(Opcode::Return)
            } else {
                unknown
            }
        },
        0x1 => Ok(Opcode::JumpAddr { nnn }),
        0x2 => Ok(Opcode::Call { nnn }),
        0x3 => Ok(Opcode::SkipEqualVxkk { x, kk }),
        0x4 => Ok(Opcode::SkipNotEqualVxkk { x, kk }),
        0x5 => {
            if n == 0 {
                Ok(Opcode::SkipEqualVxVy { x, y })
            } else {
                unknown
            }
        },
        0x6 => Ok(Opcode::LoadVxkk { x, kk }),
        0x7 => Ok(Opcode::AddVxkk { x, kk }),
        0x8 => match n {
            0x0 => Ok(Opcode::LoadVxVy { x, y }),
            0x1 => Ok(Opcode::Or { x, y }),
            0x2 => Ok(Opcode::And { x, y }),
            0x3 => Ok(Opcode::Xor { x, y }),
            0x4 => Ok(Opcode::AddVxVy { x, y }),
            0x5 => Ok(Opcode::Subtract { x, y }),
            0x6 => Ok(Opcode::RightShift { x, y }),
            0x7 => Ok(Opcode::SubtractNotBorrow { x, y }),
            0xE => Ok(Opcode::LeftShift { x, y }),
            _ => unknown,
        },
        0x9 => {
            if n == 0 {
                Ok(Opcode::SkipNotEqualVxVy { x, y })
            } else {
                unknown
            }
        },
        0xA => Ok(Opcode::LoadI { nnn }),
        0xB => Ok(Opcode::JumpAddrV0 { nnn }),
        0xC => Ok(Opcode::Random { x, kk }),
        0xD => Ok(Opcode::Draw { x, y, n }),
        0xE => match kk {
            0x9E => Ok(Opcode::SkipIfVxPressed { x }),
            0xA1 => Ok(Opcode::SkipIfVxNotPressed { x }),
            _ => unknown,
        },
        _ => match kk {
            0x07 => Ok(Opcode::LoadVxDelayTimer { x }),
            0x0A => Ok(Opcode::LoadPressedKeyVx { x }),
            0x15 => Ok(Opcode::LoadDelayTimerVx { x }),
            0x18 => Ok(Opcode::LoadSoundTimerVx { x }),
            0x1E => Ok(Opcode::AddIVx { x }),
            0x29 => Ok(Opcode::LoadISpritePositionVx { x }),
            0x33 => Ok(Opcode::LoadIBCDVx { x }),
            0x55 => Ok(Opcode::LoadIVRegisters { x }),
            0x65 => Ok(Opcode::LoadVRegistersI { x }),
            _ => unknown,
        },
    }
}

} // verus!
