use vstd::prelude::*;

verus! {

/// One decoded instruction. Field order follows the opcode: register indices
/// `X` and `Y` first, then immediate data (`N`, `NN` or `NNN`).
#[derive(Clone, Copy, Debug, PartialEq, Eq, Structural)]
pub enum Instr {
    /// 00E0: clear the frame buffer.
    Cls,
    /// 00EE: return from subroutine.
    Ret,
    /// 1NNN: unconditional jump.
    Jump(u16),
    /// 2NNN: call subroutine.
    Call(u16),
    /// 3XNN: skip next instruction if V[X] == NN.
    SkipEqImm(u8, u8),
    /// 4XNN: skip next instruction if V[X] != NN.
    SkipNeImm(u8, u8),
    /// 5XY0: skip next instruction if V[X] == V[Y].
    SkipEqReg(u8, u8),
    /// 6XNN: V[X] = NN.
    SetImm(u8, u8),
    /// 7XNN: V[X] += NN, wrapping, no flag.
    AddImm(u8, u8),
    /// 8XY0: V[X] = V[Y].
    MovReg(u8, u8),
    /// 8XY1: V[X] |= V[Y].
    OrReg(u8, u8),
    /// 8XY2: V[X] &= V[Y].
    AndReg(u8, u8),
    /// 8XY3: V[X] ^= V[Y].
    XorReg(u8, u8),
    /// 8XY4: V[X] += V[Y]; V[F] = carry.
    AddReg(u8, u8),
    /// 8XY5: V[X] -= V[Y]; V[F] = no-borrow.
    SubReg(u8, u8),
    /// 8XY6: shift right by one; V[F] = bit shifted out.
    ShrReg(u8, u8),
    /// 8XY7: V[X] = V[Y] - V[X]; V[F] = no-borrow.
    SubnReg(u8, u8),
    /// 8XYE: shift left by one; V[F] = bit shifted out.
    ShlReg(u8, u8),
    /// 9XY0: skip next instruction if V[X] != V[Y].
    SkipNeReg(u8, u8),
    /// ANNN: I = NNN.
    SetIndex(u16),
    /// BNNN: jump to NNN + V[0].
    JumpV0(u16),
    /// CXNN: V[X] = random byte masked by NN.
    RandMask(u8, u8),
    /// DXYN: draw an N-row sprite from memory at I at (V[X], V[Y]).
    Draw(u8, u8, u8),
    /// EX9E: skip next instruction if key V[X] is pressed.
    SkipKey(u8),
    /// EXA1: skip next instruction if key V[X] is not pressed.
    SkipNoKey(u8),
    /// FX07: V[X] = delay timer.
    GetDelay(u8),
    /// FX0A: stall until a key is pressed; store its index in V[X].
    WaitKey(u8),
    /// FX15: delay timer = V[X].
    SetDelay(u8),
    /// FX18: sound timer = V[X].
    SetSound(u8),
    /// FX1E: I += V[X], masked to 16 bits.
    AddIndex(u8),
    /// FX29: I = address of the font sprite for digit V[X].
    FontAddr(u8),
    /// FX33: store the three decimal digits of V[X] at I, I+1, I+2.
    StoreBcd(u8),
    /// FX55: store V[0..=X] into memory at I.
    StoreRegs(u8),
    /// FX65: load V[0..=X] from memory at I.
    LoadRegs(u8),
    /// Any bit pattern the machine does not define.
    Invalid(u16),
}

pub open spec fn nib_x(w: u16) -> u8 {
    (((w / 256) % 16) as u8)
}

pub open spec fn nib_y(w: u16) -> u8 {
    (((w / 16) % 16) as u8)
}

pub open spec fn nib_n(w: u16) -> u8 {
    ((w % 16) as u8)
}

pub open spec fn byte_nn(w: u16) -> u8 {
    ((w % 256) as u8)
}

pub open spec fn addr_nnn(w: u16) -> u16 {
    w % 4096
}

/// What each 16-bit instruction word means.
pub open spec fn decode(w: u16) -> Instr {
    let top = w / 4096;
    if w == 0x00E0 {
        Instr::Cls
    } else if w == 0x00EE {
        Instr::Ret
    } else if top == 0x1 {
        Instr::Jump(addr_nnn(w))
    } else if top == 0x2 {
        Instr::Call(addr_nnn(w))
    } else if top == 0x3 {
        Instr::SkipEqImm(nib_x(w), byte_nn(w))
    } else if top == 0x4 {
        Instr::SkipNeImm(nib_x(w), byte_nn(w))
    } else if top == 0x5 && nib_n(w) == 0 {
        Instr::SkipEqReg(nib_x(w), nib_y(w))
    } else if top == 0x6 {
        Instr::SetImm(nib_x(w), byte_nn(w))
    } else if top == 0x7 {
        Instr::AddImm(nib_x(w), byte_nn(w))
    } else if top == 0x8 && nib_n(w) == 0x0 {
        Instr::MovReg(nib_x(w), nib_y(w))
    } else if top == 0x8 && nib_n(w) == 0x1 {
        Instr::OrReg(nib_x(w), nib_y(w))
    } else if top == 0x8 && nib_n(w) == 0x2 {
        Instr::AndReg(nib_x(w), nib_y(w))
    } else if top == 0x8 && nib_n(w) == 0x3 {
        Instr::XorReg(nib_x(w), nib_y(w))
    } else if top == 0x8 && nib_n(w) == 0x4 {
        Instr::AddReg(nib_x(w), nib_y(w))
    } else if top == 0x8 && nib_n(w) == 0x5 {
        Instr::SubReg(nib_x(w), nib_y(w))
    } else if top == 0x8 && nib_n(w) == 0x6 {
        Instr::ShrReg(nib_x(w), nib_y(w))
    } else if top == 0x8 && nib_n(w) == 0x7 {
        Instr::SubnReg(nib_x(w), nib_y(w))
    } else if top == 0x8 && nib_n(w) == 0xE {
        Instr::ShlReg(nib_x(w), nib_y(w))
    } else if top == 0x9 && nib_n(w) == 0 {
        Instr::SkipNeReg(nib_x(w), nib_y(w))
    } else if top == 0xA {
        Instr::SetIndex(addr_nnn(w))
    } else if top == 0xB {
        Instr::JumpV0(addr_nnn(w))
    } else if top == 0xC {
        Instr::RandMask(nib_x(w), byte_nn(w))
    } else if top == 0xD {
        Instr::Draw(nib_x(w), nib_y(w), nib_n(w))
    } else if top == 0xE && byte_nn(w) == 0x9E {
        Instr::SkipKey(nib_x(w))
    } else if top == 0xE && byte_nn(w) == 0xA1 {
        Instr::SkipNoKey(nib_x(w))
    } else if top == 0xF && byte_nn(w) == 0x07 {
        Instr::GetDelay(nib_x(w))
    } else if top == 0xF && byte_nn(w) == 0x0A {
        Instr::WaitKey(nib_x(w))
    } else if top == 0xF && byte_nn(w) == 0x15 {
        Instr::SetDelay(nib_x(w))
    } else if top == 0xF && byte_nn(w) == 0x18 {
        Instr::SetSound(nib_x(w))
    } else if top == 0xF && byte_nn(w) == 0x1E {
        Instr::AddIndex(nib_x(w))
    } else if top == 0xF && byte_nn(w) == 0x29 {
        Instr::FontAddr(nib_x(w))
    } else if top == 0xF && byte_nn(w) == 0x33 {
        Instr::StoreBcd(nib_x(w))
    } else if top == 0xF && byte_nn(w) == 0x55 {
        Instr::StoreRegs(nib_x(w))
    } else if top == 0xF && byte_nn(w) == 0x65 {
        Instr::LoadRegs(nib_x(w))
    } else {
        Instr::Invalid(w)
    }
}

/// Every register index a decoded instruction carries is below 16, and every
/// address is below 4096.
pub open spec fn instr_ok(i: Instr) -> bool {
    match i {
        Instr::Jump(a) => a < 4096,
        Instr::Call(a) => a < 4096,
        Instr::SetIndex(a) => a < 4096,
        Instr::JumpV0(a) => a < 4096,
        Instr::SkipEqImm(x, _) => x < 16,
        Instr::SkipNeImm(x, _) => x < 16,
        Instr::SkipEqReg(x, y) => x < 16 && y < 16,
        Instr::SetImm(x, _) => x < 16,
        Instr::AddImm(x, _) => x < 16,
        Instr::MovReg(x, y) => x < 16 && y < 16,
        Instr::OrReg(x, y) => x < 16 && y < 16,
        Instr::AndReg(x, y) => x < 16 && y < 16,
        Instr::XorReg(x, y) => x < 16 && y < 16,
        Instr::AddReg(x, y) => x < 16 && y < 16,
        Instr::SubReg(x, y) => x < 16 && y < 16,
        Instr::ShrReg(x, y) => x < 16 && y < 16,
        Instr::SubnReg(x, y) => x < 16 && y < 16,
        Instr::ShlReg(x, y) => x < 16 && y < 16,
        Instr::SkipNeReg(x, y) => x < 16 && y < 16,
        Instr::RandMask(x, _) => x < 16,
        Instr::Draw(x, y, n) => x < 16 && y < 16 && n < 16,
        Instr::SkipKey(x) => x < 16,
        Instr::SkipNoKey(x) => x < 16,
        Instr::GetDelay(x) => x < 16,
        Instr::WaitKey(x) => x < 16,
        Instr::SetDelay(x) => x < 16,
        Instr::SetSound(x) => x < 16,
        Instr::AddIndex(x) => x < 16,
        Instr::FontAddr(x) => x < 16,
        Instr::StoreBcd(x) => x < 16,
        Instr::StoreRegs(x) => x < 16,
        Instr::LoadRegs(x) => x < 16,
        _ => true,
    }
}

/// Executable decoder; returns exactly what `decode` says the word means.
pub fn decode_instr(w: u16) -> (r: Instr)
    ensures
        r == decode(w),
        instr_ok(r),
{
    let top: u16 = w / 4096;
    let x: u8 = ((w / 256) % 16) as u8;
    let y: u8 = ((w / 16) % 16) as u8;
    let n: u8 = (w % 16) as u8;
    let nn: u8 = (w % 256) as u8;
    let nnn: u16 = w % 4096;
    if w == 0x00E0 {
        Instr::Cls
    } else if w == 0x00EE {
        Instr::Ret
    } else if top == 0x1 {
        Instr::Jump(nnn)
    } else if top == 0x2 {
        Instr::Call(nnn)
    } else if top == 0x3 {
        Instr::SkipEqImm(x, nn)
    } else if top == 0x4 {
        Instr::SkipNeImm(x, nn)
    } else if top == 0x5 && n == 0 {
        Instr::SkipEqReg(x, y)
    } else if top == 0x6 {
        Instr::SetImm(x, nn)
    } else if top == 0x7 {
        Instr::AddImm(x, nn)
    } else if top == 0x8 && n == 0x0 {
        Instr::MovReg(x, y)
    } else if top == 0x8 && n == 0x1 {
        Instr::OrReg(x, y)
    } else if top == 0x8 && n == 0x2 {
        Instr::AndReg(x, y)
    } else if top == 0x8 && n == 0x3 {
        Instr::XorReg(x, y)
    } else if top == 0x8 && n == 0x4 {
        Instr::AddReg(x, y)
    } else if top == 0x8 && n == 0x5 {
        Instr::SubReg(x, y)
    } else if top == 0x8 && n == 0x6 {
        Instr::ShrReg(x, y)
    } else if top == 0x8 && n == 0x7 {
        Instr::SubnReg(x, y)
    } else if top == 0x8 && n == 0xE {
        Instr::ShlReg(x, y)
    } else if top == 0x9 && n == 0 {
        Instr::SkipNeReg(x, y)
    } else if top == 0xA {
        Instr::SetIndex(nnn)
    } else if top == 0xB {
        Instr::JumpV0(nnn)
    } else if top == 0xC {
        Instr::RandMask(x, nn)
    } else if top == 0xD {
        Instr::Draw(x, y, n)
    } else if top == 0xE && nn == 0x9E {
        Instr::SkipKey(x)
    } else if top == 0xE && nn == 0xA1 {
        Instr::SkipNoKey(x)
    } else if top == 0xF && nn == 0x07 {
        Instr::GetDelay(x)
    } else if top == 0xF && nn == 0x0A {
        Instr::WaitKey(x)
    } else if top == 0xF && nn == 0x15 {
        Instr::SetDelay(x)
    } else if top == 0xF && nn == 0x18 {
        Instr::SetSound(x)
    } else if top == 0xF && nn == 0x1E {
        Instr::AddIndex(x)
    } else if top == 0xF && nn == 0x29 {
        Instr::FontAddr(x)
    } else if top == 0xF && nn == 0x33 {
        Instr::StoreBcd(x)
    } else if top == 0xF && nn == 0x55 {
        Instr::StoreRegs(x)
    } else if top == 0xF && nn == 0x65 {
        Instr::LoadRegs(x)
    } else {
        Instr::Invalid(w)
    }
}

} // verus!
