use vstd::prelude::*;

verus! {

/// One decoded 16-bit opcode. Register operands are nibbles (0..=15),
/// addresses are 12-bit, immediates are bytes.
#[derive(PartialEq, Eq, Structural, Clone, Copy, Debug)]
pub enum Instruction {
    /// `00E0`
    ClearScreen,
    /// `00EE`
    Return,
    /// `1nnn`
    Jump(u16),
    /// `2nnn`
    Call(u16),
    /// `3xkk`: skip when `Vx == kk`.
    SkipEqImm(u8, u8),
    /// `4xkk`: skip when `Vx != kk`.
    SkipNeImm(u8, u8),
    /// `5xy0`: skip when `Vx == Vy`.
    SkipEqReg(u8, u8),
    /// `6xkk`
    LoadImm(u8, u8),
    /// `7xkk`: no flag.
    AddImm(u8, u8),
    /// `8xy0`
    Move(u8, u8),
    /// `8xy1`
    Or(u8, u8),
    /// `8xy2`
    And(u8, u8),
    /// `8xy3`
    Xor(u8, u8),
    /// `8xy4`: carry into `VF`.
    AddReg(u8, u8),
    /// `8xy5`: `Vx - Vy`, no-borrow into `VF`.
    Sub(u8, u8),
    /// `8xy6`: `Vx := Vy >> 1`, shifted-out bit into `VF` (`Vx` shifts
    /// in place instead when the machine is set so).
    ShiftRight(u8, u8),
    /// `8xy7`: `Vy - Vx`, no-borrow into `VF`.
    SubReverse(u8, u8),
    /// `8xyE`: `Vx := Vy << 1`, shifted-out bit into `VF` (`Vx` shifts
    /// in place instead when the machine is set so).
    ShiftLeft(u8, u8),
    /// `9xy0`: skip when `Vx != Vy`.
    SkipNeReg(u8, u8),
    /// `Annn`
    LoadIndex(u16),
    /// `Bnnn`: jump to `nnn + V0`.
    JumpOffset(u16),
    /// `Cxkk`: random byte masked by `kk`.
    Random(u8, u8),
    /// `Dxyn`: draw an `n`-row sprite at `(Vx, Vy)`.
    Draw(u8, u8, u8),
    /// `Ex9E`
    SkipKey(u8),
    /// `ExA1`
    SkipNoKey(u8),
    /// `Fx07`
    LoadDelay(u8),
    /// `Fx0A`
    WaitKey(u8),
    /// `Fx15`
    SetDelay(u8),
    /// `Fx18`
    SetSound(u8),
    /// `Fx1E`
    AddIndex(u8),
    /// `Fx29`
    LoadFont(u8),
    /// `Fx33`
    StoreBcd(u8),
    /// `Fx55`
    StoreRegs(u8),
    /// `Fx65`
    LoadRegs(u8),
    /// Any other opcode, including the `0nnn` machine-code calls.
    Unknown(u16),
}

/// Top nibble: the instruction family.
pub open spec fn family(op: u16) -> int {
    op as int / 4096
}

/// Second nibble: register `x`.
pub open spec fn nib_x(op: u16) -> u8 {
    ((op as int / 256) % 16) as u8
}

/// Third nibble: register `y`.
pub open spec fn nib_y(op: u16) -> u8 {
    ((op as int / 16) % 16) as u8
}

/// Lowest nibble.
pub open spec fn nib_n(op: u16) -> u8 {
    (op as int % 16) as u8
}

/// Low byte: the immediate.
pub open spec fn low_byte(op: u16) -> u8 {
    (op as int % 256) as u8
}

/// Low 12 bits: the address.
pub open spec fn address(op: u16) -> u16 {
    (op as int % 4096) as u16
}

/// The canonical CHIP-8 encoding table.
pub open spec fn decoded(op: u16) -> Instruction {
    let x = nib_x(op);
    let y = nib_y(op);
    let n = nib_n(op);
    let kk = low_byte(op);
    let nnn = address(op);
    let f = family(op);
    if op == 0x00E0 {
        Instruction::ClearScreen
    } else if op == 0x00EE {
        Instruction::Return
    } else if f == 0x1 {
        Instruction::Jump(nnn)
    } else if f == 0x2 {
        Instruction::Call(nnn)
    } else if f == 0x3 {
        Instruction::SkipEqImm(x, kk)
    } else if f == 0x4 {
        Instruction::SkipNeImm(x, kk)
    } else if f == 0x5 && n == 0 {
        Instruction::SkipEqReg(x, y)
    } else if f == 0x6 {
        Instruction::LoadImm(x, kk)
    } else if f == 0x7 {
        Instruction::AddImm(x, kk)
    } else if f == 0x8 && n == 0x0 {
        Instruction::Move(x, y)
    } else if f == 0x8 && n == 0x1 {
        Instruction::Or(x, y)
    } else if f == 0x8 && n == 0x2 {
        Instruction::And(x, y)
    } else if f == 0x8 && n == 0x3 {
        Instruction::Xor(x, y)
    } else if f == 0x8 && n == 0x4 {
        Instruction::AddReg(x, y)
    } else if f == 0x8 && n == 0x5 {
        Instruction::Sub(x, y)
    } else if f == 0x8 && n == 0x6 {
        Instruction::ShiftRight(x, y)
    } else if f == 0x8 && n == 0x7 {
        Instruction::SubReverse(x, y)
    } else if f == 0x8 && n == 0xE {
        Instruction::ShiftLeft(x, y)
    } else if f == 0x9 && n == 0 {
        Instruction::SkipNeReg(x, y)
    } else if f == 0xA {
        Instruction::LoadIndex(nnn)
    } else if f == 0xB {
        Instruction::JumpOffset(nnn)
    } else if f == 0xC {
        Instruction::Random(x, kk)
    } else if f == 0xD {
        Instruction::Draw(x, y, n)
    } else if f == 0xE && kk == 0x9E {
        Instruction::SkipKey(x)
    } else if f == 0xE && kk == 0xA1 {
        Instruction::SkipNoKey(x)
    } else if f == 0xF && kk == 0x07 {
        Instruction::LoadDelay(x)
    } else if f == 0xF && kk == 0x0A {
        Instruction::WaitKey(x)
    } else if f == 0xF && kk == 0x15 {
        Instruction::SetDelay(x)
    } else if f == 0xF && kk == 0x18 {
        Instruction::SetSound(x)
    } else if f == 0xF && kk == 0x1E {
        Instruction::AddIndex(x)
    } else if f == 0xF && kk == 0x29 {
        Instruction::LoadFont(x)
    } else if f == 0xF && kk == 0x33 {
        Instruction::StoreBcd(x)
    } else if f == 0xF && kk == 0x55 {
        Instruction::StoreRegs(x)
    } else if f == 0xF && kk == 0x65 {
        Instruction::LoadRegs(x)
    } else {
        Instruction::Unknown(op)
    }
}

/// Every register operand is a nibble and every address is 12-bit.
pub open spec fn operands_in_range(ins: Instruction) -> bool {
    match ins {
        Instruction::Jump(a) | Instruction::Call(a) | Instruction::LoadIndex(a)
        | Instruction::JumpOffset(a) => a < 4096,
        Instruction::SkipEqImm(x, _) | Instruction::SkipNeImm(x, _) | Instruction::LoadImm(x, _)
        | Instruction::AddImm(x, _) | Instruction::Random(x, _) => x < 16,
        Instruction::SkipEqReg(x, y) | Instruction::SkipNeReg(x, y) | Instruction::Move(x, y)
        | Instruction::Or(x, y) | Instruction::And(x, y) | Instruction::Xor(x, y)
        | Instruction::AddReg(x, y) | Instruction::Sub(x, y) | Instruction::ShiftRight(x, y)
        | Instruction::SubReverse(x, y) | Instruction::ShiftLeft(x, y) => x < 16 && y < 16,
        Instruction::Draw(x, y, n) => x < 16 && y < 16 && n < 16,
        Instruction::SkipKey(x) | Instruction::SkipNoKey(x) | Instruction::LoadDelay(x)
        | Instruction::WaitKey(x) | Instruction::SetDelay(x) | Instruction::SetSound(x)
        | Instruction::AddIndex(x) | Instruction::LoadFont(x) | Instruction::StoreBcd(x)
        | Instruction::StoreRegs(x) | Instruction::LoadRegs(x) => x < 16,
        _ => true,
    }
}

/// Splits an opcode into its instruction family and operands.
pub fn decode(op: u16) -> (r: Instruction)
    ensures
        r == decoded(op),
        operands_in_range(r),
{
    let x = ((op / 256) % 16) as u8;
    let y = ((op / 16) % 16) as u8;
    let n = (op % 16) as u8;
    let kk = (op % 256) as u8;
    let nnn = op % 4096;
    let f = op / 4096;
    if op == 0x00E0 {
        Instruction::ClearScreen
    } else if op == 0x00EE {
        Instruction::Return
    } else if f == 0x1 {
        Instruction::Jump(nnn)
    } else if f == 0x2 {
        Instruction::Call(nnn)
    } else if f == 0x3 {
        Instruction::SkipEqImm(x, kk)
    } else if f == 0x4 {
        Instruction::SkipNeImm(x, kk)
    } else if f == 0x5 && n == 0 {
        Instruction::SkipEqReg(x, y)
    } else if f == 0x6 {
        Instruction::LoadImm(x, kk)
    } else if f == 0x7 {
        Instruction::AddImm(x, kk)
    } else if f == 0x8 {
        match n {
            0x0 => Instruction::Move(x, y),
            0x1 => Instruction::Or(x, y),
            0x2 => Instruction::And(x, y),
            0x3 => Instruction::Xor(x, y),
            0x4 => Instruction::AddReg(x, y),
            0x5 => Instruction::Sub(x, y),
            0x6 => Instruction::ShiftRight(x, y),
            0x7 => Instruction::SubReverse(x, y),
            0xE => Instruction::ShiftLeft(x, y),
            _ => Instruction::Unknown(op),
        }
    } else if f == 0x9 && n == 0 {
        Instruction::SkipNeReg(x, y)
    } else if f == 0xA {
        Instruction::LoadIndex(nnn)
    } else if f == 0xB {
        Instruction::JumpOffset(nnn)
    } else if f == 0xC {
        Instruction::Random(x, kk)
    } else if f == 0xD {
        Instruction::Draw(x, y, n)
    } else if f == 0xE && kk == 0x9E {
        Instruction::SkipKey(x)
    } else if f == 0xE && kk == 0xA1 {
        Instruction::SkipNoKey(x)
    } else if f == 0xF {
        match kk {
            0x07 => Instruction::LoadDelay(x),
            0x0A => Instruction::WaitKey(x),
            0x15 => Instruction::SetDelay(x),
            0x18 => Instruction::SetSound(x),
            0x1E => Instruction::AddIndex(x),
            0x29 => Instruction::LoadFont(x),
            0x33 => Instruction::StoreBcd(x),
            0x55 => Instruction::StoreRegs(x),
            0x65 => Instruction::LoadRegs(x),
            _ => Instruction::Unknown(op),
        }
    } else {
        Instruction::Unknown(op)
    }
}

} // verus!
