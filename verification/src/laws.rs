use vstd::prelude::*;
use crate::decode::decode;
use crate::decode::Instr;
use crate::display::{bit_at, blank_screen, covered, lemma_draw_twice_restores,
    lemma_second_draw_collides};
use crate::input::first_pressed;
use crate::interp::{
    exec_instr_vm, fetch_word, sprite_rows, step_vm, vm_wf, Fault, Mode, StepEvent, VmState,
};

verus! {

/// Field extraction from an instruction word assembled as `TXNN`.
proof fn lemma_word_fields_imm(top: u16, x: u16, nn: u16)
    by (bit_vector)
    requires
        top < 16,
        x < 16,
        nn < 256,
    ensures
        (top * 4096 + x * 256 + nn) / 4096 == top,
        ((top * 4096 + x * 256 + nn) / 256) % 16 == x,
        (top * 4096 + x * 256 + nn) % 256 == nn,
        (top * 4096 + x * 256 + nn) % 4096 == x * 256 + nn,
{
}

/// Field extraction from an instruction word assembled as `TXYN`.
proof fn lemma_word_fields_reg(top: u16, x: u16, y: u16, n: u16)
    by (bit_vector)
    requires
        top < 16,
        x < 16,
        y < 16,
        n < 16,
    ensures
        (top * 4096 + x * 256 + y * 16 + n) / 4096 == top,
        ((top * 4096 + x * 256 + y * 16 + n) / 256) % 16 == x,
        ((top * 4096 + x * 256 + y * 16 + n) / 16) % 16 == y,
        (top * 4096 + x * 256 + y * 16 + n) % 16 == n,
        (top * 4096 + x * 256 + y * 16 + n) % 256 == y * 16 + n,
{
}

/// Field extraction from an instruction word assembled as `TNNN`.
proof fn lemma_word_fields_addr(top: u16, nnn: u16)
    by (bit_vector)
    requires
        top < 16,
        nnn < 4096,
    ensures
        (top * 4096 + nnn) / 4096 == top,
        (top * 4096 + nnn) % 4096 == nnn,
{
}

/// Storing an immediate is exact: after executing `6XNN`, register V[X]
/// holds NN, whatever it held before.
pub proof fn lemma_set_imm_stores(s: VmState, x: u8, nn: u8)
    requires
        vm_wf(s),
        s.mode is Running,
        x < 16,
        fetch_word(s) == 0x6000 + x * 256 + nn,
    ensures
        step_vm(s).post.v[x as int] == nn,
        step_vm(s).event == Ok::<StepEvent, Fault>(StepEvent::Executed),
{
    lemma_word_fields_imm(6, x as u16, nn as u16);
    assert(decode(fetch_word(s)) == Instr::SetImm(x, nn));
}

/// Immediate addition wraps on 8-bit overflow and, unlike register
/// addition, leaves the flag register alone (when it is not the target).
pub proof fn lemma_add_imm_wraps(s: VmState, x: u8, nn: u8)
    requires
        vm_wf(s),
        s.mode is Running,
        x < 15,
        fetch_word(s) == 0x7000 + x * 256 + nn,
    ensures
        step_vm(s).post.v[x as int] == (s.v[x as int] + nn) % 256,
        step_vm(s).post.v[15] == s.v[15],
{
    lemma_word_fields_imm(7, x as u16, nn as u16);
    assert(decode(fetch_word(s)) == Instr::AddImm(x, nn));
}

/// Register addition wraps and reports the carry in V[F]: 1 exactly when
/// the true sum exceeds 255.
pub proof fn lemma_add_reg_carry(s: VmState, x: u8, y: u8)
    requires
        vm_wf(s),
        s.mode is Running,
        x < 16,
        y < 16,
        fetch_word(s) == 0x8000 + x * 256 + y * 16 + 4,
    ensures
        step_vm(s).post.v[15] == (if s.v[x as int] + s.v[y as int] > 255 { 1u8 } else { 0u8 }),
        x != 15 ==> step_vm(s).post.v[x as int] == (s.v[x as int] + s.v[y as int]) % 256,
{
    lemma_word_fields_reg(8, x as u16, y as u16, 4);
    assert(decode(fetch_word(s)) == Instr::AddReg(x, y));
}

/// The clear instruction leaves no pixel set, whatever was drawn before.
pub proof fn lemma_cls_clears(s: VmState)
    requires
        vm_wf(s),
        s.mode is Running,
        fetch_word(s) == 0x00E0,
    ensures
        forall|p: int| 0 <= p < 2048 ==> !step_vm(s).post.screen[p],
{
    assert(decode(0x00E0) == Instr::Cls);
}

/// Call and return round-trip exactly: after `2NNN` the program counter is
/// NNN, and a `00EE` executed there brings it back to the address right
/// after the call.
pub proof fn lemma_call_ret_round_trip(s: VmState, nnn: u16)
    requires
        vm_wf(s),
        s.mode is Running,
        s.stack.len() < 16,
        nnn < 4096,
        fetch_word(s) == 0x2000 + nnn,
        fetch_word(step_vm(s).post) == 0x00EE,
    ensures
        step_vm(s).post.pc == nnn,
        step_vm(s).post.stack.len() == s.stack.len() + 1,
        step_vm(step_vm(s).post).post.pc == (s.pc + 2) % 4096,
        step_vm(step_vm(s).post).post.stack == s.stack,
        step_vm(step_vm(s).post).event == Ok::<StepEvent, Fault>(StepEvent::Executed),
{
    lemma_word_fields_addr(2, nnn);
    assert(decode(fetch_word(s)) == Instr::Call(nnn));
    let s1 = step_vm(s).post;
    assert(s1.stack.last() == ((s.pc + 2) as int % 4096) as u16);
    assert(decode(0x00EE) == Instr::Ret);
    let ret = ((s.pc + 2) as int) % 4096;
    vstd::arithmetic::div_mod::lemma_small_mod(ret as nat, 4096);
    assert(step_vm(s1).post.pc == (ret % 4096) as u16);
    assert(s1.stack.drop_last() =~= s.stack);
}

/// A call with a full stack is the seventeenth nested call: it halts the
/// machine with `StackOverflow` and pushes nothing.
pub proof fn lemma_call_overflow(s: VmState, nnn: u16)
    requires
        vm_wf(s),
        s.mode is Running,
        s.stack.len() == 16,
        nnn < 4096,
        fetch_word(s) == 0x2000 + nnn,
    ensures
        step_vm(s).event == Err::<StepEvent, Fault>(Fault::StackOverflow),
        step_vm(s).post.mode == Mode::Halted(Fault::StackOverflow),
        step_vm(s).post.stack == s.stack,
{
    lemma_word_fields_addr(2, nnn);
    assert(decode(fetch_word(s)) == Instr::Call(nnn));
}

/// A return with an empty stack halts the machine with `StackUnderflow`.
pub proof fn lemma_ret_underflow(s: VmState)
    requires
        vm_wf(s),
        s.mode is Running,
        s.stack.len() == 0,
        fetch_word(s) == 0x00EE,
    ensures
        step_vm(s).event == Err::<StepEvent, Fault>(Fault::StackUnderflow),
        step_vm(s).post.mode == Mode::Halted(Fault::StackUnderflow),
{
    assert(decode(0x00EE) == Instr::Ret);
}

/// While the machine waits for a key and none is pressed, a step changes
/// nothing and reports `Idle`.
pub proof fn lemma_wait_blocks(s: VmState)
    requires
        vm_wf(s),
        s.mode is WaitingForKey,
        forall|k: int| 0 <= k < 16 ==> !s.keys[k],
    ensures
        step_vm(s).post == s,
        step_vm(s).event == Ok::<StepEvent, Fault>(StepEvent::Idle),
{
    crate::input::lemma_no_key_no_hit(s.keys, 0);
}

/// Helper: the keypad scan finds exactly the lowest pressed key.
proof fn lemma_first_pressed_from(keys: Seq<bool>, j: int, kk: int)
    requires
        0 <= j <= kk < 16,
        keys[kk],
        forall|t: int| j <= t < kk ==> !keys[t],
    ensures
        first_pressed(keys, j) == kk,
    decreases kk - j,
{
    if j < kk {
        lemma_first_pressed_from(keys, j + 1, kk);
    }
}

/// Once the lowest pressed key is `kk`, the next step after a key wait
/// stores `kk` in the target register, consumes the press, resumes running
/// and leaves the program counter alone.
pub proof fn lemma_wait_resumes(s: VmState, x: u8, kk: int)
    requires
        vm_wf(s),
        s.mode == Mode::WaitingForKey(x),
        0 <= kk < 16,
        s.keys[kk],
        forall|t: int| 0 <= t < kk ==> !s.keys[t],
    ensures
        step_vm(s).post.v[x as int] == kk,
        step_vm(s).post.mode is Running,
        step_vm(s).post.pc == s.pc,
        !step_vm(s).post.keys[kk],
        step_vm(s).event == Ok::<StepEvent, Fault>(StepEvent::Executed),
{
    lemma_first_pressed_from(s.keys, 0, kk);
}

/// Drawing the same sprite at the same coordinates twice in a row restores
/// the screen exactly; and starting from a blank screen, the second draw
/// reports a collision in V[F] precisely when the sprite shows any pixel.
pub proof fn lemma_draw_twice_erases(s: VmState, x: u8, y: u8, n: u8)
    requires
        vm_wf(s),
        x < 15,
        y < 15,
        n < 16,
    ensures
        exec_instr_vm(exec_instr_vm(s, Instr::Draw(x, y, n)).post, Instr::Draw(x, y, n)).post
            .screen == s.screen,
        (forall|p: int| 0 <= p < 2048 ==> !s.screen[p]) ==> exec_instr_vm(
            exec_instr_vm(s, Instr::Draw(x, y, n)).post,
            Instr::Draw(x, y, n),
        ).post.v[15] == (if exists|p: int|
            0 <= p < 2048 && #[trigger] covered(
                (s.v[x as int] % 64) as int,
                (s.v[y as int] % 32) as int,
                n as int,
                s.quirks.draw_wraps,
                p,
            ) && bit_at(
                sprite_rows(s, n),
                (s.v[x as int] % 64) as int,
                (s.v[y as int] % 32) as int,
                s.quirks.draw_wraps,
                p,
            ) {
            1u8
        } else {
            0u8
        }),
{
    let sxi = (s.v[x as int] % 64) as int;
    let syi = (s.v[y as int] % 32) as int;
    let wrap = s.quirks.draw_wraps;
    let sprite = sprite_rows(s, n);
    let s1 = exec_instr_vm(s, Instr::Draw(x, y, n)).post;
    assert(s1.v[x as int] == s.v[x as int]);
    assert(s1.v[y as int] == s.v[y as int]);
    assert(sprite_rows(s1, n) =~= sprite);
    lemma_draw_twice_restores(s.screen, sprite, sxi, syi, wrap);
    if forall|p: int| 0 <= p < 2048 ==> !s.screen[p] {
        assert(s.screen =~= blank_screen());
        lemma_second_draw_collides(sprite, sxi, syi, wrap);
    }
}

/// Timers are independent of execution: no step changes them unless the
/// fetched instruction is exactly a timer store (`FX15` or `FX18`).
pub proof fn lemma_step_keeps_timers(s: VmState)
    requires
        vm_wf(s),
        s.mode is Running ==> !(decode(fetch_word(s)) is SetDelay) && !(decode(fetch_word(s))
            is SetSound),
    ensures
        step_vm(s).post.delay == s.delay,
        step_vm(s).post.sound == s.sound,
{
    match s.mode {
        Mode::Running => {
            let s2 = VmState { pc: (((s.pc + 2) as int) % 4096) as u16, ..s };
            let instr = decode(fetch_word(s));
            assert(exec_instr_vm(s2, instr).post.delay == s.delay
                && exec_instr_vm(s2, instr).post.sound == s.sound);
        },
        _ => {},
    }
}

} // verus!
