use vstd::prelude::*;

verus! {

/// One decoded CHIP-8 instruction. Register operands (`x`, `y`) are below 16,
/// `n` is below 16 and addresses (`addr`) are below 0x1000.
#[derive(Clone, Copy, Debug, PartialEq, Eq, Structural)]
pub enum Instruction {
    /// `00E0`: turn every pixel off.
    ClearScreen,
    /// `00EE`: return from a subroutine.
    Return,
    /// `1NNN`: jump to `NNN`.
    Jump { addr: u16 },
    /// `2NNN`: call the subroutine at `NNN`.
    Call { addr: u16 },
    /// `3XNN`: skip the next instruction if `VX == NN`.
    SkipIfEqualImm { x: u8, nn: u8 },
    /// `4XNN`: skip the next instruction if `VX != NN`.
    SkipIfNotEqualImm { x: u8, nn: u8 },
    /// `5XY0`: skip the next instruction if `VX == VY`.
    SkipIfEqualReg { x: u8, y: u8 },
    /// `6XNN`: `VX = NN`.
    SetImm { x: u8, nn: u8 },
    /// `7XNN`: `VX = VX + NN`, wrapping, flags untouched.
    AddImm { x: u8, nn: u8 },
    /// `8XY0`: `VX = VY`.
    Assign { x: u8, y: u8 },
    /// `8XY1`: `VX = VX | VY`, `VF = 0`.
    Or { x: u8, y: u8 },
    /// `8XY2`: `VX = VX & VY`, `VF = 0`.
    And { x: u8, y: u8 },
    /// `8XY3`: `VX = VX ^ VY`, `VF = 0`.
    Xor { x: u8, y: u8 },
    /// `8XY4`: `VX = VX + VY`, wrapping; `VF` is the carry.
    AddReg { x: u8, y: u8 },
    /// `8XY5`: `VX = VX - VY`, wrapping; `VF` is 1 when no borrow occurred.
    SubReg { x: u8, y: u8 },
    /// `8XY6`: `VX = VY >> 1`; `VF` is the bit shifted out.
    ShiftRight { x: u8, y: u8 },
    /// `8XY7`: `VX = VY - VX`, wrapping; `VF` is 1 when no borrow occurred.
    SubReverse { x: u8, y: u8 },
    /// `8XYE`: `VX = VY << 1`, wrapping; `VF` is the bit shifted out.
    ShiftLeft { x: u8, y: u8 },
    /// `9XY0`: skip the next instruction if `VX != VY`.
    SkipIfNotEqualReg { x: u8, y: u8 },
    /// `ANNN`: `I = NNN`.
    SetIndex { addr: u16 },
    /// `BNNN`: jump to `NNN + V0`.
    JumpOffset { addr: u16 },
    /// `CXNN`: `VX = random & NN`.
    Random { x: u8, nn: u8 },
    /// `DXYN`: draw an `N`-row sprite from `I` at `(VX, VY)`.
    Draw { x: u8, y: u8, n: u8 },
    /// `EX9E`: skip the next instruction if key `VX` is pressed.
    SkipIfKey { x: u8 },
    /// `EXA1`: skip the next instruction if key `VX` is not pressed.
    SkipIfNotKey { x: u8 },
    /// `FX07`: `VX = delay timer`.
    GetDelay { x: u8 },
    /// `FX0A`: wait for a key to be released, then store its index in `VX`.
    WaitKey { x: u8 },
    /// `FX15`: `delay timer = VX`.
    SetDelay { x: u8 },
    /// `FX18`: `sound timer = VX`.
    SetSound { x: u8 },
    /// `FX1E`: `I = I + VX`, wrapping at 16 bits.
    AddIndex { x: u8 },
    /// `FX29`: point `I` at the font glyph of digit `VX`.
    FontChar { x: u8 },
    /// `FX33`: store the three decimal digits of `VX` at `I`, `I+1`, `I+2`.
    Bcd { x: u8 },
    /// `FX55`: store `V0..=VX` at `I..`, then `I = I + X + 1`.
    StoreRegs { x: u8 },
    /// `FX65`: load `V0..=VX` from `I..`, then `I = I + X + 1`.
    LoadRegs { x: u8 },
    /// Any word outside the instruction set; executing it only advances `PC`.
    Unknown { opcode: u16 },
}

/// Bits 15-12 of an opcode: the instruction group.
pub open spec fn group_of(op: u16) -> u16 {
    op / 0x1000
}

/// Bits 11-8 of an opcode: the `X` register operand.
pub open spec fn x_of(op: u16) -> u8 {
    ((op / 0x100) % 16) as u8
}

/// Bits 7-4 of an opcode: the `Y` register operand.
pub open spec fn y_of(op: u16) -> u8 {
    ((op / 0x10) % 16) as u8
}

/// Bits 3-0 of an opcode.
pub open spec fn n_of(op: u16) -> u8 {
    (op % 16) as u8
}

/// The low byte of an opcode.
pub open spec fn nn_of(op: u16) -> u8 {
    (op % 0x100) as u8
}

/// The low 12 bits of an opcode: an address.
pub open spec fn nnn_of(op: u16) -> u16 {
    op % 0x1000
}

/// The instruction that a 16-bit word encodes. Groups 0, E and F are told
/// apart by the low byte, group 8 by the low nibble; every other group by its
/// high nibble alone.
pub open spec fn decode_spec(op: u16) -> Instruction {
    let x = x_of(op);
    let y = y_of(op);
    let nn = nn_of(op);
    let addr = nnn_of(op);
    let g = group_of(op);
    if g == 0x0 {
        if nn == 0xE0 {
            Instruction::ClearScreen
        } else if nn == 0xEE {
            Instruction::Return
        } else {
            Instruction::Unknown { opcode: op }
        }
    } else if g == 0x1 {
        Instruction::Jump { addr }
    } else if g == 0x2 {
        Instruction::Call { addr }
    } else if g == 0x3 {
        Instruction::SkipIfEqualImm { x, nn }
    } else if g == 0x4 {
        Instruction::SkipIfNotEqualImm { x, nn }
    } else if g == 0x5 {
        Instruction::SkipIfEqualReg { x, y }
    } else if g == 0x6 {
        Instruction::SetImm { x, nn }
    } else if g == 0x7 {
        Instruction::AddImm { x, nn }
    } else if g == 0x8 {
        let n = n_of(op);
        if n == 0x0 {
            Instruction::Assign { x, y }
        } else if n == 0x1 {
            Instruction::Or { x, y }
        } else if n == 0x2 {
            Instruction::And { x, y }
        } else if n == 0x3 {
            Instruction::Xor { x, y }
        } else if n == 0x4 {
            Instruction::AddReg { x, y }
        } else if n == 0x5 {
            Instruction::SubReg { x, y }
        } else if n == 0x6 {
            Instruction::ShiftRight { x, y }
        } else if n == 0x7 {
            Instruction::SubReverse { x, y }
        } else if n == 0xE {
            Instruction::ShiftLeft { x, y }
        } else {
            Instruction::Unknown { opcode: op }
        }
    } else if g == 0x9 {
        Instruction::SkipIfNotEqualReg { x, y }
    } else if g == 0xA {
        Instruction::SetIndex { addr }
    } else if g == 0xB {
        Instruction::JumpOffset { addr }
    } else if g == 0xC {
        Instruction::Random { x, nn }
    } else if g == 0xD {
        Instruction::Draw { x, y, n: n_of(op) }
    } else if g == 0xE {
        if nn == 0x9E {
            Instruction::SkipIfKey { x }
        } else if nn == 0xA1 {
            Instruction::SkipIfNotKey { x }
        } else {
            Instruction::Unknown { opcode: op }
        }
    } else {
        if nn == 0x07 {
            Instruction::GetDelay { x }
        } else if nn == 0x0A {
            Instruction::WaitKey { x }
        } else if nn == 0x15 {
            Instruction::SetDelay { x }
        } else if nn == 0x18 {
            Instruction::SetSound { x }
        } else if nn == 0x1E {
            Instruction::AddIndex { x }
        } else if nn == 0x29 {
            Instruction::FontChar { x }
        } else if nn == 0x33 {
            Instruction::Bcd { x }
        } else if nn == 0x55 {
            Instruction::StoreRegs { x }
        } else if nn == 0x65 {
            Instruction::LoadRegs { x }
        } else {
            Instruction::Unknown { opcode: op }
        }
    }
}

/// Operands are in range: registers below 16, `n` below 16, addresses below
/// 0x1000.
pub open spec fn operands_in_range(ins: Instruction) -> bool {
    match ins {
        Instruction::Jump { addr } | Instruction::Call { addr } | Instruction::SetIndex { addr }
        | Instruction::JumpOffset { addr } => addr < 0x1000,
        Instruction::SkipIfEqualImm { x, .. } | Instruction::SkipIfNotEqualImm { x, .. }
        | Instruction::SetImm { x, .. } | Instruction::AddImm { x, .. }
        | Instruction::Random { x, .. } | Instruction::SkipIfKey { x }
        | Instruction::SkipIfNotKey { x } | Instruction::GetDelay { x }
        | Instruction::WaitKey { x } | Instruction::SetDelay { x }
        | Instruction::SetSound { x } | Instruction::AddIndex { x }
        | Instruction::FontChar { x } | Instruction::Bcd { x }
        | Instruction::StoreRegs { x } | Instruction::LoadRegs { x } => x < 16,
        Instruction::SkipIfEqualReg { x, y } | Instruction::Assign { x, y }
        | Instruction::Or { x, y } | Instruction::And { x, y } | Instruction::Xor { x, y }
        | Instruction::AddReg { x, y } | Instruction::SubReg { x, y }
        | Instruction::ShiftRight { x, y } | Instruction::SubReverse { x, y }
        | Instruction::ShiftLeft { x, y } | Instruction::SkipIfNotEqualReg { x, y } => x < 16
            && y < 16,
        Instruction::Draw { x, y, n } => x < 16 && y < 16 && n < 16,
        _ => true,
    }
}

/// Decodes a 16-bit opcode.
pub fn decode(op: u16) -> (r: Instruction)
    ensures
        r == decode_spec(op),
        operands_in_range(r),
{
    let x: u8 = ((op / 0x100) % 16) as u8;
    let y: u8 = ((op / 0x10) % 16) as u8;
    let n: u8 = (op % 16) as u8;
    let nn: u8 = (op % 0x100) as u8;
    let addr: u16 = op % 0x1000;
    let r = match op / 0x1000 {
        0x0 => match nn {
            0xE0 => Instruction::ClearScreen,
            0xEE => Instruction::Return,
            _ => Instruction::Unknown { opcode: op },
        },
        0x1 => Instruction::Jump { addr },
        0x2 => Instruction::Call { addr },
        0x3 => Instruction::SkipIfEqualImm { x, nn },
        0x4 => Instruction::SkipIfNotEqualImm { x, nn },
        0x5 => Instruction::SkipIfEqualReg { x, y },
        0x6 => Instruction::SetImm { x, nn },
        0x7 => Instruction::AddImm { x, nn },
        0x8 => match n {
            0x0 => Instruction::Assign { x, y },
            0x1 => Instruction::Or { x, y },
            0x2 => Instruction::And { x, y },
            0x3 => Instruction::Xor { x, y },
            0x4 => Instruction::AddReg { x, y },
            0x5 => Instruction::SubReg { x, y },
            0x6 => Instruction::ShiftRight { x, y },
            0x7 => Instruction::SubReverse { x, y },
            0xE => Instruction::ShiftLeft { x, y },
            _ => Instruction::Unknown { opcode: op },
        },
        0x9 => Instruction::SkipIfNotEqualReg { x, y },
        0xA => Instruction::SetIndex { addr },
        0xB => Instruction::JumpOffset { addr },
        0xC => Instruction::Random { x, nn },
        0xD => Instruction::Draw { x, y, n },
        0xE => match nn {
            0x9E => Instruction::SkipIfKey { x },
            0xA1 => Instruction::SkipIfNotKey { x },
            _ => Instruction::Unknown { opcode: op },
        },
        _ => match nn {
            0x07 => Instruction::GetDelay { x },
            0x0A => Instruction::WaitKey { x },
            0x15 => Instruction::SetDelay { x },
            0x18 => Instruction::SetSound { x },
            0x1E => Instruction::AddIndex { x },
            0x29 => Instruction::FontChar { x },
            0x33 => Instruction::Bcd { x },
            0x55 => Instruction::StoreRegs { x },
            0x65 => Instruction::LoadRegs { x },
            _ => Instruction::Unknown { opcode: op },
        },
    };
    r
}

} // verus!
