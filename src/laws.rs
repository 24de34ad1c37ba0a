//! Laws that relate the decoder, the executor and the step function.
use vstd::prelude::*;
use crate::model::{
    bit_at, collides, decayed, drawn, execute, fetched, first_press, lemma_step_well_formed,
    next_pc, sprite_hit, step_view, view_well_formed, MachineView,
};
use crate::opcode::{decoded, Opcode, StepError};

verus! {

/// Every word 6xkk decodes to `LoadVxkk` with its own `x` and `kk`, and
/// executing that instruction on any state sets Vx to exactly kk and changes
/// nothing else.
pub proof fn law_load_immediate(x: u8, kk: u8, s: MachineView, rnd: u8)
    requires
        x < 16,
        view_well_formed(s),
    ensures
        decoded((0x6000 + x * 256 + kk) as u16) == Some(Opcode::LoadVxkk { x, kk }),
        execute(s, Opcode::LoadVxkk { x, kk }, rnd) == (
        MachineView { v: s.v.update(x as int, kk), ..s },
        Ok::<(), StepError>(()),
        ),
        execute(s, Opcode::LoadVxkk { x, kk }, rnd).0.v[x as int] == kk,
        forall|j: int|
            0 <= j < 16 && j != x ==> #[trigger] execute(s, Opcode::LoadVxkk { x, kk }, rnd).0.v[j]
                == s.v[j],
{
    let w = (0x6000 + x * 256 + kk) as u16;
    assert(w / 4096 == 6 && (w / 256) % 16 == x && w % 256 == kk) by (nonlinear_arith)
        requires
            w == 0x6000 + x * 256 + kk,
            x < 16,
            kk < 256,
    ;
}

/// A sprite byte that is not zero has a set bit among its eight columns.
proof fn lemma_some_bit_set(b: u8) -> (c: int)
    requires
        b != 0,
    ensures
        0 <= c < 8,
        bit_at(b, c),
{
    assert(b != 0 ==> (b >> 7u8) & 1u8 == 1u8 || (b >> 6u8) & 1u8 == 1u8 || (b >> 5u8) & 1u8 == 1u8
        || (b >> 4u8) & 1u8 == 1u8 || (b >> 3u8) & 1u8 == 1u8 || (b >> 2u8) & 1u8 == 1u8 || (b
        >> 1u8) & 1u8 == 1u8 || (b >> 0u8) & 1u8 == 1u8) by (bit_vector);
    if bit_at(b, 0) {
        0
    } else if bit_at(b, 1) {
        1
    } else if bit_at(b, 2) {
        2
    } else if bit_at(b, 3) {
        3
    } else if bit_at(b, 4) {
        4
    } else if bit_at(b, 5) {
        5
    } else if bit_at(b, 6) {
        6
    } else {
        7
    }
}

/// Row `r`, column `c` of a sprite placed at (`vx`, `vy`) lands on the pixel
/// `((vy + r) % 32) * 64 + (vx + c) % 64`.
proof fn lemma_sprite_covers(mem: Seq<u8>, i: usize, vx: u8, vy: u8, n: u8, r: int, c: int)
    requires
        0 <= r < n,
        n < 16,
        0 <= c < 8,
        bit_at(mem[(i + r) % 4096], c),
    ensures
        0 <= ((vy + r) % 32) * 64 + (vx + c) % 64 < 2048,
        sprite_hit(mem, i, vx, vy, n, ((vy + r) % 32) * 64 + (vx + c) % 64),
{
    let px = (vx + c) % 64;
    let py = (vy + r) % 32;
    let k = py * 64 + px;
    assert(k % 64 == px && k / 64 == py) by (nonlinear_arith)
        requires
            k == py * 64 + px,
            0 <= px < 64,
            0 <= py < 32,
    ;
    assert((px + 64 - vx % 64) % 64 == c) by (nonlinear_arith)
        requires
            px == (vx + c) % 64,
            0 <= c < 8,
            vx >= 0,
    ;
    assert((py + 32 - vy % 32) % 32 == r) by (nonlinear_arith)
        requires
            py == (vy + r) % 32,
            0 <= r < 16,
            vy >= 0,
    ;
}

/// Drawing the same sprite twice at the same place gives back the screen
/// as it was. On a blank screen the first draw reports no collision, and if
/// any row of the sprite is non-zero the second draw reports one. (The
/// coordinates are read from registers other than VF, which the first draw
/// overwrites.)
pub proof fn law_draw_twice(s: MachineView, x: u8, y: u8, n: u8, rnd: u8)
    requires
        view_well_formed(s),
        x < 15,
        y < 15,
    ensures
        ({
            let op = Opcode::Draw { x, y, n };
            let s1 = execute(s, op, rnd).0;
            let s2 = execute(s1, op, rnd).0;
            &&& s2.pixels == s.pixels
            &&& (forall|k: int| 0 <= k < 2048 ==> !s.pixels[k]) ==> s1.v[15] == 0
            &&& (forall|k: int| 0 <= k < 2048 ==> !s.pixels[k]) && (exists|r: int|
                0 <= r < n % 16 && #[trigger] s.mem[(s.i + r) % 4096] != 0) ==> s2.v[15] == 1
        }),
{
    let op = Opcode::Draw { x, y, n };
    let s1 = execute(s, op, rnd).0;
    let s2 = execute(s1, op, rnd).0;
    let (vx, vy, rows) = (s.v[x as int], s.v[y as int], n % 16);
    assert(s1.v[x as int] == vx && s1.v[y as int] == vy);
    assert(s2.pixels =~= s.pixels);
    if forall|k: int| 0 <= k < 2048 ==> !s.pixels[k] {
        assert(!collides(s.pixels, s.mem, s.i, vx, vy, rows));
        if exists|r: int| 0 <= r < rows && #[trigger] s.mem[(s.i + r) % 4096] != 0 {
            let r = choose|r: int| 0 <= r < rows && #[trigger] s.mem[(s.i + r) % 4096] != 0;
            let c = lemma_some_bit_set(s.mem[(s.i + r) % 4096]);
            lemma_sprite_covers(s.mem, s.i, vx, vy, rows, r, c);
            let k = ((vy + r) % 32) * 64 + (vx + c) % 64;
            assert(s1.pixels[k]);
            assert(collides(s1.pixels, s1.mem, s1.i, vx, vy, rows));
        }
    }
}

/// A call with a free stack level jumps to its target and one level deeper,
/// and the matching return comes back to the instruction after the call at
/// the depth before it. With all sixteen levels in use a call is refused as
/// `StackOverflow`, and with none a return is refused as `StackUnderflow`;
/// a refused instruction changes nothing.
pub proof fn law_call_return(s: MachineView, nnn: u16, rnd: u8)
    requires
        view_well_formed(s),
    ensures
        s.sp < 16 ==> ({
            let (s1, r1) = execute(s, Opcode::Call { nnn }, rnd);
            &&& r1 == Ok::<(), StepError>(())
            &&& s1.sp == s.sp + 1
            &&& s1.pc == nnn % 4096
            &&& execute(s1, Opcode::Return, rnd) == (
            MachineView { stack: s1.stack, ..s },
            Ok::<(), StepError>(()),
            )
        }),
        s.sp == 16 ==> execute(s, Opcode::Call { nnn }, rnd) == (
        s,
        Err::<(), StepError>(StepError::StackOverflow),
        ),
        s.sp == 0 ==> execute(s, Opcode::Return, rnd) == (
        s,
        Err::<(), StepError>(StepError::StackUnderflow),
        ),
{
}

/// A word outside the instruction table is skipped: the step reports
/// `UnknownOpcode` with the word, and its only effect is to move the program
/// counter past it.
pub proof fn law_unknown_word_skipped(s: MachineView, rnd: u8)
    requires
        view_well_formed(s),
        s.waiting_for_key is None,
        decoded(fetched(s)) is None,
    ensures
        step_view(s, rnd) == (
        MachineView { pc: next_pc(s.pc), ..s },
        Err::<(), StepError>(StepError::UnknownOpcode(fetched(s))),
        ),
        next_pc(s.pc) == (s.pc + 2) % 4096,
{
}

/// A step that fetches a wait-for-key instruction parks the machine with
/// `pc` on that instruction and the keypad as it is now as the previous
/// check. A parked step that sees a key go down stores the lowest such key in
/// the waiting register, ends the wait and moves `pc` past the wait
/// instruction, changing nothing else but the previous check; a parked step
/// that sees none leaves all but the previous check as it was.
pub proof fn law_key_wait(s: MachineView, rnd: u8)
    requires
        view_well_formed(s),
    ensures
        s.waiting_for_key is None ==> (decoded(fetched(s)) matches Some(
            Opcode::LoadPressedKeyVx { x },
        ) ==> step_view(s, rnd) == (
        MachineView { waiting_for_key: Some(x), key_snapshot: s.keys, ..s },
        Ok::<(), StepError>(()),
        )),
        s.waiting_for_key matches Some(x) ==> (first_press(s.key_snapshot, s.keys, 0) matches Some(
            k,
        ) ==> step_view(s, rnd) == (
        MachineView {
            v: s.v.update(x as int, k),
            waiting_for_key: None,
            pc: ((s.pc + 2) % 4096) as usize,
            key_snapshot: s.keys,
            ..s
        },
        Ok::<(), StepError>(()),
        )),
        s.waiting_for_key is Some && first_press(s.key_snapshot, s.keys, 0) is None ==> step_view(
            s,
            rnd,
        ) == (MachineView { key_snapshot: s.keys, ..s }, Ok::<(), StepError>(())),
{
    if s.waiting_for_key is None {
        if let Some(Opcode::LoadPressedKeyVx { x }) = decoded(fetched(s)) {
            assert((((s.pc + 2) % 4096) + 4094) % 4096 == s.pc);
            assert(step_view(s, rnd).0 =~= MachineView {
                waiting_for_key: Some(x),
                key_snapshot: s.keys,
                ..s
            });
        }
    }
}

/// Only calls and returns move the stack. A step that fetches a call with a
/// free level pushes the address of the next instruction on top of the
/// frames in use and jumps; with all sixteen levels in use it reports
/// `StackOverflow` and only moves past the call. A step that fetches a
/// return pops the top frame into `pc`; with no frame it reports
/// `StackUnderflow` and only moves past the return. Every other step leaves
/// the stack and its depth as they were.
#[verifier::spinoff_prover]
pub proof fn law_step_stack(s: MachineView, rnd: u8)
    requires
        view_well_formed(s),
    ensures
        ({
            let op = decoded(fetched(s));
            let (t, r) = step_view(s, rnd);
            let idle = s.waiting_for_key is None;
            &&& idle && s.sp < 16 ==> (op matches Some(Opcode::Call { nnn }) ==> r == Ok::<
                (),
                StepError,
            >(()) && t.sp == s.sp + 1 && t.pc == nnn % 4096 && t.stack == s.stack.update(
                s.sp as int,
                next_pc(s.pc) as u16,
            ))
            &&& idle && s.sp == 16 && op is Some && op->0 is Call ==> r == Err::<(), StepError>(
                StepError::StackOverflow,
            ) && t == MachineView { pc: next_pc(s.pc), ..s }
            &&& idle && op == Some(Opcode::Return) && s.sp > 0 ==> r == Ok::<(), StepError>(())
                && t.sp == s.sp - 1 && t.pc == s.stack[s.sp - 1] && t.stack == s.stack
            &&& idle && op == Some(Opcode::Return) && s.sp == 0 ==> r == Err::<(), StepError>(
                StepError::StackUnderflow,
            ) && t == MachineView { pc: next_pc(s.pc), ..s }
            &&& !(idle && op is Some && (op->0 is Call || op->0 is Return)) ==> t.sp == s.sp
                && t.stack == s.stack
        }),
{
    if s.waiting_for_key is None {
        if let Some(op) = decoded(fetched(s)) {
            lemma_step_fetches(s, rnd, op);
            lemma_execute_keeps_stack(MachineView { pc: next_pc(s.pc), ..s }, op, rnd);
        }
    }
}

/// A call step with a free level, followed by a step that fetches a return,
/// comes back to the instruction after the call, at the depth before the
/// call and with the frames below it as they were.
pub proof fn law_call_then_return(s: MachineView, rnd1: u8, rnd2: u8)
    requires
        view_well_formed(s),
        s.waiting_for_key is None,
        s.sp < 16,
        decoded(fetched(s)) matches Some(Opcode::Call { .. }),
        decoded(fetched(step_view(s, rnd1).0)) == Some(Opcode::Return),
    ensures
        ({
            let t = step_view(s, rnd1).0;
            let (u, r) = step_view(t, rnd2);
            &&& r == Ok::<(), StepError>(())
            &&& u.pc == (s.pc + 2) % 4096
            &&& u.sp == s.sp
            &&& forall|j: int| 0 <= j < s.sp ==> #[trigger] u.stack[j] == s.stack[j]
        }),
{
    let t = step_view(s, rnd1).0;
    law_step_stack(s, rnd1);
    lemma_step_well_formed(s, rnd1);
    law_step_stack(t, rnd2);
}

/// A step that is not parked executes what it fetched, after moving past it.
proof fn lemma_step_fetches(s: MachineView, rnd: u8, op: Opcode)
    requires
        s.waiting_for_key is None,
        decoded(fetched(s)) == Some(op),
    ensures
        step_view(s, rnd) == execute(MachineView { pc: next_pc(s.pc), ..s }, op, rnd),
{
}

/// An instruction other than a call or a return leaves the stack and its
/// depth as they were.
proof fn lemma_execute_keeps_stack(s: MachineView, op: Opcode, rnd: u8)
    ensures
        !(op is Call) && !(op is Return) ==> execute(s, op, rnd).0.sp == s.sp
            && execute(s, op, rnd).0.stack == s.stack,
{
}

/// Steps never count the timers down: only a step that executes a load of
/// the delay timer changes it, and only one that executes a load of the
/// sound timer changes that.
pub proof fn law_step_timers(s: MachineView, rnd: u8)
    requires
        view_well_formed(s),
    ensures
        (s.waiting_for_key is Some || !(decoded(fetched(s)) matches Some(
            Opcode::LoadDelayTimerVx { .. },
        ))) ==> step_view(s, rnd).0.dt == s.dt,
        (s.waiting_for_key is Some || !(decoded(fetched(s)) matches Some(
            Opcode::LoadSoundTimerVx { .. },
        ))) ==> step_view(s, rnd).0.st == s.st,
{
}

/// Timer ticks compose: `a` ticks and then `b` more count a timer down as
/// `a + b` ticks at once do. A timer never goes up, and enough ticks bring it
/// to zero, where it stays.
pub proof fn law_timer_ticks(t: u8, a: u32, b: u32)
    requires
        a + b <= u32::MAX,
    ensures
        decayed(decayed(t, a), b) == decayed(t, (a + b) as u32),
        decayed(t, a) <= t,
        a >= t ==> decayed(t, a) == 0,
{
}

} // verus!
