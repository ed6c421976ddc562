use vstd::prelude::*;

use crate::font::{font_spec, FONTSET_START, FONT_LEN};
use crate::instruction::{decode_spec, Instruction};

verus! {

/// Bytes of addressable memory.
pub const MEMORY_SIZE: usize = 4096;

/// Address at which a program is loaded and execution starts.
pub const PROGRAM_START: usize = 0x200;

/// Largest program that fits between `PROGRAM_START` and the end of memory.
pub const MAX_ROM_SIZE: usize = 3584;

/// Framebuffer width in pixels.
pub const SCREEN_WIDTH: usize = 64;

/// Framebuffer height in pixels.
pub const SCREEN_HEIGHT: usize = 32;

/// Pixels in the framebuffer.
pub const SCREEN_PIXELS: usize = 2048;

/// Number of general-purpose registers and of keys.
pub const NUM_REGISTERS: usize = 16;

/// Index of the flags register `VF`.
pub const FLAG_REGISTER: usize = 15;

/// Why a ROM could not be loaded.
#[derive(Clone, Copy, Debug, PartialEq, Eq, Structural)]
pub enum LoadError {
    /// The ROM is longer than `MAX_ROM_SIZE` bytes.
    RomTooLarge,
}

/// A condition that ends a batch of instructions. The instruction that meets
/// it has no effect at all.
#[derive(Clone, Copy, Debug, PartialEq, Eq, Structural)]
pub enum Fault {
    /// `00EE` with an empty call stack.
    StackUnderflow,
    /// An instruction fetch or a memory access through `I` that would reach
    /// past the end of memory.
    AddressOutOfRange,
}

/// The whole state of the interpreter, as mathematical values.
pub struct Machine {
    pub memory: Seq<u8>,
    /// Row-major, `true` is a lit pixel.
    pub gfx: Seq<bool>,
    pub v: Seq<u8>,
    /// Keys pressed in the current snapshot.
    pub keys: Seq<bool>,
    /// Keys pressed in the previous snapshot.
    pub prev_keys: Seq<bool>,
    /// Return addresses, the most recent last.
    pub stack: Seq<u16>,
    pub pc: u16,
    pub i: u16,
    pub delay: u8,
    pub sound: u8,
}

impl Machine {
    /// Every fixed-size part has its fixed size.
    pub open spec fn wf(self) -> bool {
        &&& self.memory.len() == MEMORY_SIZE
        &&& self.gfx.len() == SCREEN_PIXELS
        &&& self.v.len() == NUM_REGISTERS
        &&& self.keys.len() == NUM_REGISTERS
        &&& self.prev_keys.len() == NUM_REGISTERS
    }

    /// Value of register `VX`.
    pub open spec fn reg(self, x: u8) -> u8 {
        self.v[x as int]
    }

    /// The machine with `VX` set to `val`.
    pub open spec fn with_reg(self, x: u8, val: u8) -> Machine {
        Machine { v: self.v.update(x as int, val), ..self }
    }

    /// The machine with `VX` set to `val` and then `VF` set to `flag`.
    pub open spec fn with_reg_flag(self, x: u8, val: u8, flag: u8) -> Machine {
        Machine { v: self.v.update(x as int, val).update(FLAG_REGISTER as int, flag), ..self }
    }

    /// The machine with `PC` set to `pc`.
    pub open spec fn with_pc(self, pc: int) -> Machine {
        Machine { pc: pc as u16, ..self }
    }
}

/// Memory after loading `rom`: zero everywhere but the font at
/// `FONTSET_START` and the ROM at `PROGRAM_START`.
pub open spec fn memory_image(rom: Seq<u8>) -> Seq<u8> {
    Seq::new(
        MEMORY_SIZE as nat,
        |a: int|
            if FONTSET_START <= a < FONTSET_START + FONT_LEN {
                font_spec()[a - FONTSET_START]
            } else if PROGRAM_START <= a < PROGRAM_START + rom.len() {
                rom[a - PROGRAM_START]
            } else {
                0u8
            },
    )
}

/// Bit `b` of a sprite row, counting from the most significant bit.
pub open spec fn sprite_bit(byte: u8, b: int) -> bool {
    (byte >> ((7 - b) as u8)) & 1u8 == 1u8
}

/// Number of sprite rows that a draw reads: those that fall on the screen.
pub open spec fn drawn_rows(y0: int, n: int) -> int {
    if n < SCREEN_HEIGHT - y0 {
        n
    } else {
        SCREEN_HEIGHT - y0
    }
}

/// Whether drawing an `n`-row sprite from `I` with its top-left corner at
/// column `x0`, row `y0` flips pixel `p`. A pixel is flipped when it lies
/// within the sprite's rows and columns and the sprite bit over it is set;
/// the sprite does not wrap around the screen's edges.
pub open spec fn touches(m: Machine, x0: int, y0: int, n: int, p: int) -> bool {
    let row = p / (SCREEN_WIDTH as int);
    let col = p % (SCREEN_WIDTH as int);
    &&& 0 <= p < SCREEN_PIXELS
    &&& y0 <= row < y0 + n
    &&& x0 <= col < x0 + 8
    &&& sprite_bit(m.memory[m.i + (row - y0)], col - x0)
}

/// Whether any flipped pixel was lit before the draw.
pub open spec fn collides(m: Machine, x0: int, y0: int, n: int) -> bool {
    exists|p: int| touches(m, x0, y0, n, p) && #[trigger] m.gfx[p]
}

/// The machine after drawing an `n`-row sprite at the screen position
/// (`vx`, `vy`), each reduced modulo the screen's size: flipped pixels are
/// toggled and `VF` tells whether a lit pixel went dark.
pub open spec fn draw_spec(m: Machine, vx: u8, vy: u8, n: u8) -> Machine {
    let x0 = vx as int % SCREEN_WIDTH as int;
    let y0 = vy as int % SCREEN_HEIGHT as int;
    Machine {
        gfx: Seq::new(
            SCREEN_PIXELS as nat,
            |p: int|
                if touches(m, x0, y0, n as int, p) {
                    !m.gfx[p]
                } else {
                    m.gfx[p]
                },
        ),
        v: m.v.update(
            FLAG_REGISTER as int,
            if collides(m, x0, y0, n as int) {
                1u8
            } else {
                0u8
            },
        ),
        ..m
    }
}

/// Whether a draw of `n` rows at row `vy` reads only memory that exists.
pub open spec fn draw_in_range(m: Machine, vy: u8, n: u8) -> bool {
    m.i + drawn_rows(vy as int % SCREEN_HEIGHT as int, n as int) <= MEMORY_SIZE
}

/// Whether key `k` is pressed; indices of 16 and above name no key.
pub open spec fn key_down(m: Machine, k: u8) -> bool {
    k < NUM_REGISTERS && m.keys[k as int]
}

/// The lowest key index at or above `k` that was pressed in the previous
/// snapshot and is released in the current one.
pub open spec fn first_release_from(m: Machine, k: nat) -> Option<u8>
    decreases NUM_REGISTERS - k,
{
    if k >= NUM_REGISTERS {
        None
    } else if m.prev_keys[k as int] && !m.keys[k as int] {
        Some(k as u8)
    } else {
        first_release_from(m, k + 1)
    }
}

/// The lowest key index that was released between the two snapshots.
pub open spec fn first_release(m: Machine) -> Option<u8> {
    first_release_from(m, 0)
}

/// The three decimal digits of `val`, most significant first.
pub open spec fn bcd_digits(val: u8) -> Seq<u8> {
    seq![val / 100, (val / 10) % 10, val % 10]
}

/// The result of executing `ins`, fetched at `m.pc`, with `rnd` as the random
/// byte that `CXNN` draws. `Err` leaves the machine as it was.
pub open spec fn execute_spec(m: Machine, ins: Instruction, rnd: u8) -> Result<Machine, Fault> {
    let next = m.pc + 2;
    let skip = m.pc + 4;
    let m1 = m.with_pc(next);
    match ins {
        Instruction::ClearScreen => Ok(
            Machine { gfx: Seq::new(SCREEN_PIXELS as nat, |p: int| false), ..m1 },
        ),
        Instruction::Return => if m.stack.len() == 0 {
            Err(Fault::StackUnderflow)
        } else {
            Ok(Machine { stack: m.stack.drop_last(), pc: m.stack.last(), ..m })
        },
        Instruction::Jump { addr } => Ok(m.with_pc(addr as int)),
        Instruction::Call { addr } => Ok(
            Machine { stack: m.stack.push(next as u16), pc: addr, ..m },
        ),
        Instruction::SkipIfEqualImm { x, nn } => Ok(
            m.with_pc(if m.reg(x) == nn { skip } else { next }),
        ),
        Instruction::SkipIfNotEqualImm { x, nn } => Ok(
            m.with_pc(if m.reg(x) != nn { skip } else { next }),
        ),
        Instruction::SkipIfEqualReg { x, y } => Ok(
            m.with_pc(if m.reg(x) == m.reg(y) { skip } else { next }),
        ),
        Instruction::SetImm { x, nn } => Ok(m1.with_reg(x, nn)),
        Instruction::AddImm { x, nn } => Ok(m1.with_reg(x, ((m.reg(x) + nn) % 256) as u8)),
        Instruction::Assign { x, y } => Ok(m1.with_reg(x, m.reg(y))),
        Instruction::Or { x, y } => Ok(m1.with_reg_flag(x, m.reg(x) | m.reg(y), 0)),
        Instruction::And { x, y } => Ok(m1.with_reg_flag(x, m.reg(x) & m.reg(y), 0)),
        Instruction::Xor { x, y } => Ok(m1.with_reg_flag(x, m.reg(x) ^ m.reg(y), 0)),
        Instruction::AddReg { x, y } => {
            let sum = m.reg(x) + m.reg(y);
            Ok(m1.with_reg_flag(x, (sum % 256) as u8, if sum > 255 { 1 } else { 0 }))
        },
        Instruction::SubReg { x, y } => Ok(
            m1.with_reg_flag(
                x,
                ((m.reg(x) - m.reg(y) + 256) % 256) as u8,
                if m.reg(x) >= m.reg(y) { 1 } else { 0 },
            ),
        ),
        Instruction::ShiftRight { x, y } => Ok(
            m1.with_reg_flag(x, m.reg(y) / 2, m.reg(y) % 2),
        ),
        Instruction::SubReverse { x, y } => Ok(
            m1.with_reg_flag(
                x,
                ((m.reg(y) - m.reg(x) + 256) % 256) as u8,
                if m.reg(y) >= m.reg(x) { 1 } else { 0 },
            ),
        ),
        Instruction::ShiftLeft { x, y } => Ok(
            m1.with_reg_flag(x, ((m.reg(y) * 2) % 256) as u8, m.reg(y) / 128),
        ),
        Instruction::SkipIfNotEqualReg { x, y } => Ok(
            m.with_pc(if m.reg(x) != m.reg(y) { skip } else { next }),
        ),
        Instruction::SetIndex { addr } => Ok(Machine { i: addr, ..m1 }),
        Instruction::JumpOffset { addr } => Ok(m.with_pc(addr + m.reg(0))),
        Instruction::Random { x, nn } => Ok(m1.with_reg(x, rnd & nn)),
        Instruction::Draw { x, y, n } => if draw_in_range(m, m.reg(y), n) {
            Ok(draw_spec(m1, m.reg(x), m.reg(y), n))
        } else {
            Err(Fault::AddressOutOfRange)
        },
        Instruction::SkipIfKey { x } => Ok(
            m.with_pc(if key_down(m, m.reg(x)) { skip } else { next }),
        ),
        Instruction::SkipIfNotKey { x } => Ok(
            m.with_pc(if !key_down(m, m.reg(x)) { skip } else { next }),
        ),
        Instruction::GetDelay { x } => Ok(m1.with_reg(x, m.delay)),
        Instruction::WaitKey { x } => match first_release(m) {
            Some(k) => Ok(m1.with_reg(x, k)),
            None => Ok(m),
        },
        Instruction::SetDelay { x } => Ok(Machine { delay: m.reg(x), ..m1 }),
        Instruction::SetSound { x } => Ok(Machine { sound: m.reg(x), ..m1 }),
        Instruction::AddIndex { x } => Ok(
            Machine { i: ((m.i + m.reg(x)) % 0x10000) as u16, ..m1 },
        ),
        Instruction::FontChar { x } => Ok(
            Machine { i: (FONTSET_START + m.reg(x) * 5) as u16, ..m1 },
        ),
        Instruction::Bcd { x } => if m.i + 3 <= MEMORY_SIZE {
            Ok(
                Machine {
                    memory: Seq::new(
                        MEMORY_SIZE as nat,
                        |a: int|
                            if m.i <= a < m.i + 3 {
                                bcd_digits(m.reg(x))[a - m.i]
                            } else {
                                m.memory[a]
                            },
                    ),
                    ..m1
                },
            )
        } else {
            Err(Fault::AddressOutOfRange)
        },
        Instruction::StoreRegs { x } => if m.i + x < MEMORY_SIZE {
            Ok(
                Machine {
                    memory: Seq::new(
                        MEMORY_SIZE as nat,
                        |a: int|
                            if m.i <= a <= m.i + x {
                                m.v[a - m.i]
                            } else {
                                m.memory[a]
                            },
                    ),
                    i: (m.i + x + 1) as u16,
                    ..m1
                },
            )
        } else {
            Err(Fault::AddressOutOfRange)
        },
        Instruction::LoadRegs { x } => if m.i + x < MEMORY_SIZE {
            Ok(
                Machine {
                    v: Seq::new(
                        NUM_REGISTERS as nat,
                        |r: int|
                            if r <= x {
                                m.memory[m.i + r]
                            } else {
                                m.v[r]
                            },
                    ),
                    i: (m.i + x + 1) as u16,
                    ..m1
                },
            )
        } else {
            Err(Fault::AddressOutOfRange)
        },
        Instruction::Unknown { .. } => Ok(m1),
    }
}

/// Whether the two bytes at `PC` lie inside memory.
pub open spec fn can_fetch(m: Machine) -> bool {
    m.pc + 1 < MEMORY_SIZE
}

/// The big-endian word at `PC`.
pub open spec fn fetch_spec(m: Machine) -> u16 {
    (m.memory[m.pc as int] * 256 + m.memory[m.pc + 1]) as u16
}

/// One fetch-decode-execute cycle with `rnd` as the random byte.
pub open spec fn cycle_spec(m: Machine, rnd: u8) -> Result<Machine, Fault> {
    if can_fetch(m) {
        execute_spec(m, decode_spec(fetch_spec(m)), rnd)
    } else {
        Err(Fault::AddressOutOfRange)
    }
}

/// What a batch of cycles produced.
pub struct Run {
    pub machine: Machine,
    /// The unknown opcodes met, in order.
    pub unknown: Seq<u16>,
    pub fault: Option<Fault>,
}

/// Running one cycle per random byte in `rs`, stopping at the first fault.
/// The machine is the one the fault left unchanged, if any.
pub open spec fn run_spec(m: Machine, rs: Seq<u8>) -> Run
    decreases rs.len(),
{
    if rs.len() == 0 {
        Run { machine: m, unknown: Seq::empty(), fault: None }
    } else {
        let prev = run_spec(m, rs.drop_last());
        if prev.fault is Some {
            prev
        } else {
            let m1 = prev.machine;
            match cycle_spec(m1, rs.last()) {
                Ok(m2) => Run {
                    machine: m2,
                    unknown: if decode_spec(fetch_spec(m1)) is Unknown {
                        prev.unknown.push(fetch_spec(m1))
                    } else {
                        prev.unknown
                    },
                    fault: None,
                },
                Err(f) => Run { machine: m1, unknown: prev.unknown, fault: Some(f) },
            }
        }
    }
}

/// The timers after one tick: each counts down by one and stops at zero.
pub open spec fn tick_spec(m: Machine) -> Machine {
    Machine {
        delay: if m.delay > 0 { (m.delay - 1) as u8 } else { 0 },
        sound: if m.sound > 0 { (m.sound - 1) as u8 } else { 0 },
        ..m
    }
}

/// The machine after `k` timer ticks.
pub open spec fn ticks_spec(m: Machine, k: nat) -> Machine
    decreases k,
{
    if k == 0 {
        m
    } else {
        tick_spec(ticks_spec(m, (k - 1) as nat))
    }
}

} // verus!
