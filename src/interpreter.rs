use vstd::prelude::*;

use crate::font::{font_table, FONTSET_START, FONT_LEN};
use crate::instruction::{decode, decode_spec, operands_in_range, Instruction};
use crate::rng::random_byte;
use crate::machine::{
    bcd_digits, can_fetch, cycle_spec, execute_spec, fetch_spec, run_spec, Run, first_release, first_release_from, key_down, collides, draw_in_range, draw_spec, drawn_rows, memory_image, sprite_bit, tick_spec, touches,
    FLAG_REGISTER, Fault, LoadError, Machine, MAX_ROM_SIZE, MEMORY_SIZE,
    NUM_REGISTERS, PROGRAM_START, SCREEN_HEIGHT, SCREEN_PIXELS, SCREEN_WIDTH,
};

verus! {

/// A CHIP-8 interpreter. Its state is `self@`, a `Machine`; every method
/// keeps that state well formed.
pub struct Chip8 {
    memory: Vec<u8>,
    gfx: Vec<bool>,
    v: Vec<u8>,
    keys: Vec<bool>,
    prev_keys: Vec<bool>,
    stack: Vec<u16>,
    pc: u16,
    i: u16,
    delay_timer: u8,
    sound_timer: u8,
}

impl View for Chip8 {
    type V = Machine;

    closed spec fn view(&self) -> Machine {
        Machine {
            memory: self.memory@,
            gfx: self.gfx@,
            v: self.v@,
            keys: self.keys@,
            prev_keys: self.prev_keys@,
            stack: self.stack@,
            pc: self.pc,
            i: self.i,
            delay: self.delay_timer,
            sound: self.sound_timer,
        }
    }
}

/// The state right after construction with `rom` loaded: registers, timers,
/// keys and screen cleared, empty stack, `PC` at `PROGRAM_START`.
pub open spec fn initial_machine(rom: Seq<u8>) -> Machine {
    Machine {
        memory: memory_image(rom),
        gfx: Seq::new(SCREEN_PIXELS as nat, |p: int| false),
        v: Seq::new(NUM_REGISTERS as nat, |r: int| 0u8),
        keys: Seq::new(NUM_REGISTERS as nat, |k: int| false),
        prev_keys: Seq::new(NUM_REGISTERS as nat, |k: int| false),
        stack: Seq::empty(),
        pc: PROGRAM_START as u16,
        i: 0,
        delay: 0,
        sound: 0,
    }
}

/// A vector of `len` copies of `val`.
fn filled<T: Copy>(val: T, len: usize) -> (r: Vec<T>)
    ensures
        r@ == Seq::new(len as nat, |k: int| val),
{
    let mut r: Vec<T> = Vec::with_capacity(len);
    let mut k: usize = 0;
    while k < len
        invariant
            k <= len,
            r@ == Seq::new(k as nat, |j: int| val),
        decreases len - k,
    {
        r.push(val);
        k += 1;
        assert(r@ =~= Seq::new(k as nat, |j: int| val));
    }
    r
}

/// Builds the memory image for `rom`.
fn build_memory(rom: &[u8]) -> (r: Vec<u8>)
    requires
        rom@.len() <= MAX_ROM_SIZE,
    ensures
        r@ == memory_image(rom@),
{
    let font = font_table();
    let mut mem = filled(0u8, MEMORY_SIZE);
    let mut k: usize = 0;
    while k < FONT_LEN
        invariant
            k <= FONT_LEN,
            font@ == crate::font::font_spec(),
            mem@.len() == MEMORY_SIZE,
            forall|a: int|
                0 <= a < MEMORY_SIZE ==> #[trigger] mem@[a] == if FONTSET_START <= a
                    < FONTSET_START + k {
                    font@[a - FONTSET_START]
                } else {
                    0u8
                },
        decreases FONT_LEN - k,
    {
        mem.set(FONTSET_START + k, font[k]);
        k += 1;
    }
    let mut k: usize = 0;
    while k < rom.len()
        invariant
            k <= rom@.len() <= MAX_ROM_SIZE,
            font@ == crate::font::font_spec(),
            mem@.len() == MEMORY_SIZE,
            forall|a: int|
                0 <= a < MEMORY_SIZE ==> #[trigger] mem@[a] == if FONTSET_START <= a
                    < FONTSET_START + FONT_LEN {
                    font@[a - FONTSET_START]
                } else if PROGRAM_START <= a < PROGRAM_START + k {
                    rom@[a - PROGRAM_START]
                } else {
                    0u8
                },
        decreases rom@.len() - k,
    {
        mem.set(PROGRAM_START + k, rom[k]);
        k += 1;
    }
    assert(mem@ =~= memory_image(rom@));
    mem
}

/// Pixels flipped once rows `0..row` are drawn and bits `0..b` of row `row`.
spec fn touches_partial(m: Machine, x0: int, y0: int, row: int, b: int, p: int) -> bool {
    ||| touches(m, x0, y0, row, p)
    ||| {
        &&& 0 <= p < SCREEN_PIXELS
        &&& p / (SCREEN_WIDTH as int) == y0 + row
        &&& x0 <= p % (SCREEN_WIDTH as int) < x0 + b
        &&& sprite_bit(m.memory[m.i + row], p % (SCREEN_WIDTH as int) - x0)
    }
}

proof fn lemma_pixel_index(row: int, col: int)
    requires
        0 <= row,
        0 <= col < SCREEN_WIDTH,
    ensures
        (row * SCREEN_WIDTH + col) / (SCREEN_WIDTH as int) == row,
        (row * SCREEN_WIDTH + col) % (SCREEN_WIDTH as int) == col,
{
    assert((row * 64 + col) / 64 == row && (row * 64 + col) % 64 == col) by (nonlinear_arith)
        requires
            0 <= row,
            0 <= col < 64,
    ;
}

impl Chip8 {
    /// Whether the state is well formed.
    pub open spec fn wf(&self) -> bool {
        self@.wf()
    }

    /// An interpreter with an empty program loaded.
    pub fn new() -> (r: Chip8)
        ensures
            r.wf(),
            r@ == initial_machine(Seq::empty()),
    {
        let empty: Vec<u8> = Vec::new();
        let r = Chip8 {
            memory: build_memory(empty.as_slice()),
            gfx: filled(false, SCREEN_PIXELS),
            v: filled(0u8, NUM_REGISTERS),
            keys: filled(false, NUM_REGISTERS),
            prev_keys: filled(false, NUM_REGISTERS),
            stack: Vec::new(),
            pc: PROGRAM_START as u16,
            i: 0,
            delay_timer: 0,
            sound_timer: 0,
        };
        assert(r@ =~= initial_machine(Seq::empty()));
        r
    }

    /// An interpreter with `rom` loaded, or `RomTooLarge` when it is longer
    /// than `MAX_ROM_SIZE` bytes.
    pub fn from_rom(rom: &[u8]) -> (r: Result<Chip8, LoadError>)
        ensures
            rom@.len() <= MAX_ROM_SIZE <==> r is Ok,
            r is Err ==> r == Err::<Chip8, LoadError>(LoadError::RomTooLarge),
            r matches Ok(c) ==> c.wf() && c@ == initial_machine(rom@),
    {
        let mut c = Chip8::new();
        match c.load(rom) {
            Ok(()) => {
                assert(c@ =~= initial_machine(rom@));
                Ok(c)
            },
            Err(e) => Err(e),
        }
    }

    /// Replaces memory with the image of `rom`: the font at `FONTSET_START`,
    /// `rom` at `PROGRAM_START`, zero elsewhere. Nothing else changes. A ROM
    /// longer than `MAX_ROM_SIZE` is refused and leaves the state untouched.
    pub fn load(&mut self, rom: &[u8]) -> (r: Result<(), LoadError>)
        requires
            old(self).wf(),
        ensures
            final(self).wf(),
            rom@.len() <= MAX_ROM_SIZE <==> r is Ok,
            r is Ok ==> final(self)@ == (Machine { memory: memory_image(rom@), ..old(self)@ }),
            r is Err ==> r == Err::<(), LoadError>(LoadError::RomTooLarge) && final(self)@
                == old(self)@,
    {
        if rom.len() > MAX_ROM_SIZE {
            return Err(LoadError::RomTooLarge);
        }
        self.memory = build_memory(rom);
        Ok(())
    }

    /// Counts both timers down by one, stopping at zero.
    pub fn tick_timers(&mut self)
        requires
            old(self).wf(),
        ensures
            final(self).wf(),
            final(self)@ == tick_spec(old(self)@),
    {
        self.delay_timer = self.delay_timer.saturating_sub(1);
        self.sound_timer = self.sound_timer.saturating_sub(1);
    }

    /// Takes a new key snapshot: the current one becomes the previous one and
    /// `pressed` (indexed by key 0x0 to 0xF) becomes the current one.
    pub fn set_keys(&mut self, pressed: [bool; 16])
        requires
            old(self).wf(),
        ensures
            final(self).wf(),
            final(self)@ == (Machine { keys: pressed@, prev_keys: old(self)@.keys, ..old(self)@ }),
    {
        let mut k: usize = 0;
        while k < NUM_REGISTERS
            invariant
                k <= NUM_REGISTERS,
                pressed@.len() == NUM_REGISTERS,
                old(self).wf(),
                self.wf(),
                self@ == (Machine { keys: self@.keys, prev_keys: self@.prev_keys, ..old(self)@ }),
                forall|j: int| 0 <= j < k ==> #[trigger] self.keys@[j] == pressed@[j],
                forall|j: int| 0 <= j < k ==> #[trigger] self.prev_keys@[j] == old(self).keys@[j],
                forall|j: int|
                    k <= j < NUM_REGISTERS ==> #[trigger] self.keys@[j] == old(self).keys@[j],
                forall|j: int|
                    k <= j < NUM_REGISTERS ==> #[trigger] self.prev_keys@[j]
                        == old(self).prev_keys@[j],
            decreases NUM_REGISTERS - k,
        {
            let was = self.keys[k];
            self.prev_keys.set(k, was);
            self.keys.set(k, pressed[k]);
            k += 1;
        }
        assert(self@.keys =~= pressed@);
        assert(self@.prev_keys =~= old(self)@.keys);
    }

    /// Draws an `n`-row sprite from `I` at (`vx`, `vy`) reduced modulo the
    /// screen's size, clipping at the right and bottom edges, and sets `VF`
    /// to the collision flag.
    fn draw_sprite(&mut self, vx: u8, vy: u8, n: u8)
        requires
            old(self).wf(),
            draw_in_range(old(self)@, vy, n),
        ensures
            final(self).wf(),
            final(self)@ == draw_spec(old(self)@, vx, vy, n),
    {
        let ghost m = self@;
        let x0: usize = (vx as usize) % SCREEN_WIDTH;
        let y0: usize = (vy as usize) % SCREEN_HEIGHT;
        let rows: usize = if (n as usize) < SCREEN_HEIGHT - y0 {
            n as usize
        } else {
            SCREEN_HEIGHT - y0
        };
        let cols: usize = if 8 < SCREEN_WIDTH - x0 {
            8
        } else {
            SCREEN_WIDTH - x0
        };
        assert(rows == drawn_rows(y0 as int, n as int));
        let mut hit = false;
        let mut row: usize = 0;
        while row < rows
            invariant
                m.wf(),
                self.wf(),
                x0 < SCREEN_WIDTH,
                y0 < SCREEN_HEIGHT,
                row <= rows,
                rows + y0 <= SCREEN_HEIGHT,
                cols == (if 8 < SCREEN_WIDTH - x0 { 8 } else { SCREEN_WIDTH - x0 }),
                m.i + rows <= MEMORY_SIZE,
                self@ == (Machine { gfx: self@.gfx, ..m }),
                forall|p: int|
                    0 <= p < SCREEN_PIXELS ==> #[trigger] self@.gfx[p] == if touches(
                        m,
                        x0 as int,
                        y0 as int,
                        row as int,
                        p,
                    ) {
                        !m.gfx[p]
                    } else {
                        m.gfx[p]
                    },
                hit <==> exists|p: int| touches(m, x0 as int, y0 as int, row as int, p) && #[trigger] m.gfx[p],
            decreases rows - row,
        {
            let byte = self.memory[self.i as usize + row];
            let base: usize = (y0 + row) * SCREEN_WIDTH + x0;
            let mut b: usize = 0;
            while b < cols
                invariant
                    m.wf(),
                    self.wf(),
                    x0 < SCREEN_WIDTH,
                    y0 < SCREEN_HEIGHT,
                    row < rows,
                    rows + y0 <= SCREEN_HEIGHT,
                    b <= cols,
                    cols == (if 8 < SCREEN_WIDTH - x0 { 8 } else { SCREEN_WIDTH - x0 }),
                    m.i + rows <= MEMORY_SIZE,
                    byte == m.memory[m.i + row],
                    base == (y0 + row) * SCREEN_WIDTH + x0,
                    self@ == (Machine { gfx: self@.gfx, ..m }),
                    forall|p: int|
                        0 <= p < SCREEN_PIXELS ==> #[trigger] self@.gfx[p] == if touches_partial(
                            m,
                            x0 as int,
                            y0 as int,
                            row as int,
                            b as int,
                            p,
                        ) {
                            !m.gfx[p]
                        } else {
                            m.gfx[p]
                        },
                    hit <==> exists|p: int|
                        touches_partial(m, x0 as int, y0 as int, row as int, b as int, p)
                            && #[trigger] m.gfx[p],
                decreases cols - b,
            {
                let idx = base + b;
                proof {
                    lemma_pixel_index((y0 + row) as int, (x0 + b) as int);
                }
                if (byte >> (7 - b as u8)) & 1 == 1 {
                    let cur = self.gfx[idx];
                    if cur {
                        hit = true;
                    }
                    self.gfx.set(idx, !cur);
                    proof {
                        assert(!touches_partial(m, x0 as int, y0 as int, row as int, b as int, idx as int));
                        assert(touches_partial(m, x0 as int, y0 as int, row as int, b + 1, idx as int));
                        assert(cur == m.gfx[idx as int]);
                    }
                } else {
                    assert(!touches_partial(m, x0 as int, y0 as int, row as int, b + 1, idx as int));
                }
                proof {
                    assert forall|p: int| #![auto]
                        touches_partial(m, x0 as int, y0 as int, row as int, b + 1, p) <==> (
                        touches_partial(m, x0 as int, y0 as int, row as int, b as int, p) || (p
                            == idx && sprite_bit(byte, b as int))) by {
                        if 0 <= p < SCREEN_PIXELS && p / (SCREEN_WIDTH as int) == y0 + row && p
                            % (SCREEN_WIDTH as int) == x0 + b {
                            assert(p == p / (SCREEN_WIDTH as int) * SCREEN_WIDTH + p % (
                            SCREEN_WIDTH as int));
                        }
                    }
                    if hit {
                        let w = if sprite_bit(byte, b as int) && m.gfx[idx as int] {
                            idx as int
                        } else {
                            choose|p: int|
                                touches_partial(m, x0 as int, y0 as int, row as int, b as int, p)
                                    && #[trigger] m.gfx[p]
                        };
                        assert(touches_partial(m, x0 as int, y0 as int, row as int, b + 1, w)
                            && m.gfx[w]);
                    }
                }
                b += 1;
            }
            proof {
                assert forall|p: int| #![auto]
                    touches_partial(m, x0 as int, y0 as int, row as int, cols as int, p)
                        <==> touches(m, x0 as int, y0 as int, row + 1, p) by {}
            }
            row += 1;
        }
        proof {
            assert forall|p: int| #![auto]
                touches(m, x0 as int, y0 as int, rows as int, p) <==> touches(
                    m,
                    x0 as int,
                    y0 as int,
                    n as int,
                    p,
                ) by {}
        }
        self.v.set(FLAG_REGISTER, if hit { 1 } else { 0 });
        proof {
            assert(hit == collides(m, x0 as int, y0 as int, n as int));
            assert(self@.gfx =~= draw_spec(m, vx, vy, n).gfx);
            assert(self@.v =~= draw_spec(m, vx, vy, n).v);
        }
    }

    /// Turns every pixel off.
    fn clear_screen(&mut self)
        requires
            old(self).wf(),
        ensures
            final(self).wf(),
            final(self)@ == (Machine {
                gfx: Seq::new(SCREEN_PIXELS as nat, |p: int| false),
                ..old(self)@
            }),
    {
        let mut p: usize = 0;
        while p < SCREEN_PIXELS
            invariant
                p <= SCREEN_PIXELS,
                self.wf(),
                self@ == (Machine { gfx: self@.gfx, ..old(self)@ }),
                forall|q: int| 0 <= q < p ==> !#[trigger] self@.gfx[q],
            decreases SCREEN_PIXELS - p,
        {
            self.gfx.set(p, false);
            p += 1;
        }
        assert(self@.gfx =~= Seq::new(SCREEN_PIXELS as nat, |p: int| false));
    }

    /// The lowest key index pressed in the previous snapshot and released in
    /// the current one.
    fn first_released_key(&self) -> (r: Option<u8>)
        requires
            self.wf(),
        ensures
            r == first_release(self@),
    {
        let mut k: usize = 0;
        while k < NUM_REGISTERS
            invariant
                k <= NUM_REGISTERS,
                self.wf(),
                first_release(self@) == first_release_from(self@, k as nat),
            decreases NUM_REGISTERS - k,
        {
            if self.prev_keys[k] && !self.keys[k] {
                return Some(k as u8);
            }
            k += 1;
        }
        None
    }

    /// Copies `V0..=VX` to memory at `I..`.
    fn store_registers(&mut self, x: u8)
        requires
            old(self).wf(),
            x < NUM_REGISTERS,
            old(self)@.i + x < MEMORY_SIZE,
        ensures
            final(self).wf(),
            final(self)@ == (Machine {
                memory: Seq::new(
                    MEMORY_SIZE as nat,
                    |a: int|
                        if old(self)@.i <= a <= old(self)@.i + x {
                            old(self)@.v[a - old(self)@.i]
                        } else {
                            old(self)@.memory[a]
                        },
                ),
                ..old(self)@
            }),
    {
        let ghost m = self@;
        let base = self.i as usize;
        let mut r: usize = 0;
        while r <= x as usize
            invariant
                r <= x + 1,
                x < NUM_REGISTERS,
                base == m.i,
                base + x < MEMORY_SIZE,
                m.wf(),
                self.wf(),
                self@ == (Machine { memory: self@.memory, ..m }),
                forall|a: int|
                    0 <= a < MEMORY_SIZE ==> #[trigger] self@.memory[a] == if base <= a < base
                        + r {
                        m.v[a - base]
                    } else {
                        m.memory[a]
                    },
            decreases x + 1 - r,
        {
            let val = self.v[r];
            self.memory.set(base + r, val);
            r += 1;
        }
        assert(self@.memory =~= Seq::new(
            MEMORY_SIZE as nat,
            |a: int|
                if m.i <= a <= m.i + x {
                    m.v[a - m.i]
                } else {
                    m.memory[a]
                },
        ));
    }

    /// Copies memory at `I..` into `V0..=VX`.
    fn load_registers(&mut self, x: u8)
        requires
            old(self).wf(),
            x < NUM_REGISTERS,
            old(self)@.i + x < MEMORY_SIZE,
        ensures
            final(self).wf(),
            final(self)@ == (Machine {
                v: Seq::new(
                    NUM_REGISTERS as nat,
                    |r: int|
                        if r <= x {
                            old(self)@.memory[old(self)@.i + r]
                        } else {
                            old(self)@.v[r]
                        },
                ),
                ..old(self)@
            }),
    {
        let ghost m = self@;
        let base = self.i as usize;
        let mut r: usize = 0;
        while r <= x as usize
            invariant
                r <= x + 1,
                x < NUM_REGISTERS,
                base == m.i,
                base + x < MEMORY_SIZE,
                m.wf(),
                self.wf(),
                self@ == (Machine { v: self@.v, ..m }),
                forall|j: int|
                    0 <= j < NUM_REGISTERS ==> #[trigger] self@.v[j] == if j < r {
                        m.memory[base + j]
                    } else {
                        m.v[j]
                    },
            decreases x + 1 - r,
        {
            let val = self.memory[base + r];
            self.v.set(r, val);
            r += 1;
        }
        assert(self@.v =~= Seq::new(
            NUM_REGISTERS as nat,
            |j: int|
                if j <= x {
                    m.memory[m.i + j]
                } else {
                    m.v[j]
                },
        ));
    }

    /// Executes `ins`, fetched at `PC`, with `rnd` as the random byte for
    /// `CXNN`. On a fault nothing changes.
    fn execute(&mut self, ins: Instruction, rnd: u8) -> (r: Result<(), Fault>)
        requires
            old(self).wf(),
            operands_in_range(ins),
            old(self)@.pc + 1 < MEMORY_SIZE,
        ensures
            final(self).wf(),
            execute_spec(old(self)@, ins, rnd) == (match r {
                Ok(()) => Ok(final(self)@),
                Err(f) => Err::<Machine, Fault>(f),
            }),
            r is Err ==> final(self)@ == old(self)@,
    {
        let next: u16 = self.pc + 2;
        let skip: u16 = self.pc + 4;
        match ins {
            Instruction::ClearScreen => {
                self.clear_screen();
                self.pc = next;
            },
            Instruction::Return => {
                match self.stack.pop() {
                    Some(a) => self.pc = a,
                    None => return Err(Fault::StackUnderflow),
                }
            },
            Instruction::Jump { addr } => self.pc = addr,
            Instruction::Call { addr } => {
                self.stack.push(next);
                self.pc = addr;
            },
            Instruction::SkipIfEqualImm { x, nn } => {
                self.pc = if self.v[x as usize] == nn { skip } else { next };
            },
            Instruction::SkipIfNotEqualImm { x, nn } => {
                self.pc = if self.v[x as usize] != nn { skip } else { next };
            },
            Instruction::SkipIfEqualReg { x, y } => {
                self.pc = if self.v[x as usize] == self.v[y as usize] { skip } else { next };
            },
            Instruction::SetImm { x, nn } => {
                self.v.set(x as usize, nn);
                self.pc = next;
            },
            Instruction::AddImm { x, nn } => {
                let sum: u16 = self.v[x as usize] as u16 + nn as u16;
                self.v.set(x as usize, (sum % 256) as u8);
                self.pc = next;
            },
            Instruction::Assign { x, y } => {
                let val = self.v[y as usize];
                self.v.set(x as usize, val);
                self.pc = next;
            },
            Instruction::Or { x, y } => {
                let val = self.v[x as usize] | self.v[y as usize];
                self.v.set(x as usize, val);
                self.v.set(FLAG_REGISTER, 0);
                self.pc = next;
            },
            Instruction::And { x, y } => {
                let val = self.v[x as usize] & self.v[y as usize];
                self.v.set(x as usize, val);
                self.v.set(FLAG_REGISTER, 0);
                self.pc = next;
            },
            Instruction::Xor { x, y } => {
                let val = self.v[x as usize] ^ self.v[y as usize];
                self.v.set(x as usize, val);
                self.v.set(FLAG_REGISTER, 0);
                self.pc = next;
            },
            Instruction::AddReg { x, y } => {
                let sum: u16 = self.v[x as usize] as u16 + self.v[y as usize] as u16;
                self.v.set(x as usize, (sum % 256) as u8);
                self.v.set(FLAG_REGISTER, if sum > 255 { 1 } else { 0 });
                self.pc = next;
            },
            Instruction::SubReg { x, y } => {
                let a = self.v[x as usize];
                let b = self.v[y as usize];
                self.v.set(x as usize, ((a as u16 + 256 - b as u16) % 256) as u8);
                self.v.set(FLAG_REGISTER, if a >= b { 1 } else { 0 });
                self.pc = next;
            },
            Instruction::ShiftRight { x, y } => {
                let b = self.v[y as usize];
                self.v.set(x as usize, b / 2);
                self.v.set(FLAG_REGISTER, b % 2);
                self.pc = next;
            },
            Instruction::SubReverse { x, y } => {
                let a = self.v[x as usize];
                let b = self.v[y as usize];
                self.v.set(x as usize, ((b as u16 + 256 - a as u16) % 256) as u8);
                self.v.set(FLAG_REGISTER, if b >= a { 1 } else { 0 });
                self.pc = next;
            },
            Instruction::ShiftLeft { x, y } => {
                let b = self.v[y as usize];
                self.v.set(x as usize, ((b as u16 * 2) % 256) as u8);
                self.v.set(FLAG_REGISTER, b / 128);
                self.pc = next;
            },
            Instruction::SkipIfNotEqualReg { x, y } => {
                self.pc = if self.v[x as usize] != self.v[y as usize] { skip } else { next };
            },
            Instruction::SetIndex { addr } => {
                self.i = addr;
                self.pc = next;
            },
            Instruction::JumpOffset { addr } => {
                self.pc = addr + self.v[0] as u16;
            },
            Instruction::Random { x, nn } => {
                self.v.set(x as usize, rnd & nn);
                self.pc = next;
            },
            Instruction::Draw { x, y, n } => {
                let vx = self.v[x as usize];
                let vy = self.v[y as usize];
                let y0: usize = (vy as usize) % SCREEN_HEIGHT;
                let rows: usize = if (n as usize) < SCREEN_HEIGHT - y0 {
                    n as usize
                } else {
                    SCREEN_HEIGHT - y0
                };
                if self.i as usize + rows > MEMORY_SIZE {
                    return Err(Fault::AddressOutOfRange);
                }
                self.pc = next;
                self.draw_sprite(vx, vy, n);
            },
            Instruction::SkipIfKey { x } => {
                let k = self.v[x as usize];
                let down = (k as usize) < NUM_REGISTERS && self.keys[k as usize];
                self.pc = if down { skip } else { next };
            },
            Instruction::SkipIfNotKey { x } => {
                let k = self.v[x as usize];
                let down = (k as usize) < NUM_REGISTERS && self.keys[k as usize];
                self.pc = if !down { skip } else { next };
            },
            Instruction::GetDelay { x } => {
                self.v.set(x as usize, self.delay_timer);
                self.pc = next;
            },
            Instruction::WaitKey { x } => {
                match self.first_released_key() {
                    Some(k) => {
                        self.v.set(x as usize, k);
                        self.pc = next;
                    },
                    None => {},
                }
            },
            Instruction::SetDelay { x } => {
                self.delay_timer = self.v[x as usize];
                self.pc = next;
            },
            Instruction::SetSound { x } => {
                self.sound_timer = self.v[x as usize];
                self.pc = next;
            },
            Instruction::AddIndex { x } => {
                self.i = ((self.i as u32 + self.v[x as usize] as u32) % 0x10000) as u16;
                self.pc = next;
            },
            Instruction::FontChar { x } => {
                self.i = FONTSET_START as u16 + self.v[x as usize] as u16 * 5;
                self.pc = next;
            },
            Instruction::Bcd { x } => {
                if self.i as usize + 3 > MEMORY_SIZE {
                    return Err(Fault::AddressOutOfRange);
                }
                let val = self.v[x as usize];
                let at = self.i as usize;
                self.memory.set(at, val / 100);
                self.memory.set(at + 1, (val / 10) % 10);
                self.memory.set(at + 2, val % 10);
                self.pc = next;
                proof {
                    let m = old(self)@;
                    assert(self@.memory =~= Seq::new(
                        MEMORY_SIZE as nat,
                        |a: int|
                            if m.i <= a < m.i + 3 {
                                bcd_digits(m.reg(x))[a - m.i]
                            } else {
                                m.memory[a]
                            },
                    ));
                }
            },
            Instruction::StoreRegs { x } => {
                if self.i as usize + x as usize >= MEMORY_SIZE {
                    return Err(Fault::AddressOutOfRange);
                }
                self.store_registers(x);
                self.i = self.i + x as u16 + 1;
                self.pc = next;
            },
            Instruction::LoadRegs { x } => {
                if self.i as usize + x as usize >= MEMORY_SIZE {
                    return Err(Fault::AddressOutOfRange);
                }
                self.load_registers(x);
                self.i = self.i + x as u16 + 1;
                self.pc = next;
            },
            Instruction::Unknown { .. } => self.pc = next,
        }
        Ok(())
    }

    /// The word at `PC`, or `None` when it would reach past memory.
    fn fetch(&self) -> (r: Option<u16>)
        requires
            self.wf(),
        ensures
            r == (if can_fetch(self@) {
                Some(fetch_spec(self@))
            } else {
                None
            }),
    {
        if self.pc as usize + 1 >= MEMORY_SIZE {
            return None;
        }
        let hi = self.memory[self.pc as usize] as u16;
        let lo = self.memory[self.pc as usize + 1] as u16;
        Some(hi * 256 + lo)
    }

    /// Runs one fetch-decode-execute cycle with `rnd` as the random byte that
    /// `CXNN` uses, and returns the instruction executed. On a fault nothing
    /// changes.
    pub fn cycle(&mut self, rnd: u8) -> (r: Result<Instruction, Fault>)
        requires
            old(self).wf(),
        ensures
            final(self).wf(),
            cycle_spec(old(self)@, rnd) == (match r {
                Ok(_) => Ok(final(self)@),
                Err(f) => Err::<Machine, Fault>(f),
            }),
            r matches Ok(ins) ==> ins == decode_spec(fetch_spec(old(self)@)),
            r is Err ==> final(self)@ == old(self)@,
    {
        match self.fetch() {
            None => Err(Fault::AddressOutOfRange),
            Some(op) => {
                let ins = decode(op);
                match self.execute(ins, rnd) {
                    Ok(()) => Ok(ins),
                    Err(f) => Err(f),
                }
            },
        }
    }

    /// Executes `n` instructions, drawing a fresh random byte for each
    /// `CXNN`, and returns the unknown opcodes met, in order. A fault ends the
    /// batch early and is returned; the faulting instruction has no effect.
    ///
    /// Whatever bytes were drawn, the outcome is that of `run_spec` on some
    /// sequence of them: `n` of them on success, at most `n` on a fault.
    pub fn step(&mut self, n: usize) -> (r: Result<Vec<u16>, Fault>)
        requires
            old(self).wf(),
        ensures
            final(self).wf(),
            exists|rs: Seq<u8>|
                {
                    let run = #[trigger] run_spec(old(self)@, rs);
                    &&& rs.len() <= n
                    &&& run.machine == final(self)@
                    &&& match r {
                        Ok(unknown) => rs.len() == n && run.fault is None && run.unknown
                            == unknown@,
                        Err(f) => run.fault == Some(f),
                    }
                },
    {
        let ghost rs: Seq<u8> = Seq::empty();
        let mut unknown: Vec<u16> = Vec::new();
        let mut k: usize = 0;
        assert(run_spec(self@, rs) == (Run { machine: self@, unknown: unknown@, fault: None }));
        while k < n
            invariant
                k <= n,
                self.wf(),
                rs.len() == k,
                run_spec(old(self)@, rs) == (Run { machine: self@, unknown: unknown@, fault: None }),
            decreases n - k,
        {
            let ghost before = self@;
            let ghost prev_unknown = unknown@;
            let op = match self.fetch() {
                Some(op) => op,
                None => {
                    proof {
                        let rs2 = rs.push(0u8);
                        assert(rs2.drop_last() =~= rs);
                        assert(run_spec(old(self)@, rs2).fault == Some(Fault::AddressOutOfRange));
                    }
                    return Err(Fault::AddressOutOfRange);
                },
            };
            let ins = decode(op);
            let rnd: u8 = match ins {
                Instruction::Random { .. } => random_byte(),
                _ => 0,
            };
            match self.execute(ins, rnd) {
                Ok(()) => {},
                Err(f) => {
                    proof {
                        let rs2 = rs.push(rnd);
                        assert(rs2.drop_last() =~= rs);
                        assert(run_spec(old(self)@, rs2).machine == self@);
                    }
                    return Err(f);
                },
            }
            if let Instruction::Unknown { .. } = ins {
                unknown.push(op);
            }
            proof {
                let rs2 = rs.push(rnd);
                assert(rs2.drop_last() =~= rs);
                assert(unknown@ == (if decode_spec(fetch_spec(before)) is Unknown {
                    prev_unknown.push(fetch_spec(before))
                } else {
                    prev_unknown
                }));
                rs = rs2;
            }
            k += 1;
        }
        Ok(unknown)
    }

    /// Register `VX`.
    pub fn register(&self, x: u8) -> (r: u8)
        requires
            self.wf(),
            x < NUM_REGISTERS,
        ensures
            r == self@.v[x as int],
    {
        self.v[x as usize]
    }

    /// The program counter.
    pub fn pc(&self) -> (r: u16)
        ensures
            r == self@.pc,
    {
        self.pc
    }

    /// The index register `I`.
    pub fn index(&self) -> (r: u16)
        ensures
            r == self@.i,
    {
        self.i
    }

    /// The delay timer.
    pub fn delay_timer(&self) -> (r: u8)
        ensures
            r == self@.delay,
    {
        self.delay_timer
    }

    /// The sound timer.
    pub fn sound_timer(&self) -> (r: u8)
        ensures
            r == self@.sound,
    {
        self.sound_timer
    }

    /// Number of return addresses on the call stack.
    pub fn stack_depth(&self) -> (r: usize)
        ensures
            r == self@.stack.len(),
    {
        self.stack.len()
    }

    /// The byte at `addr`.
    pub fn memory_at(&self, addr: usize) -> (r: u8)
        requires
            self.wf(),
            addr < MEMORY_SIZE,
        ensures
            r == self@.memory[addr as int],
    {
        self.memory[addr]
    }

    /// Whether the pixel at column `col`, row `row` is lit.
    pub fn pixel(&self, col: usize, row: usize) -> (r: bool)
        requires
            self.wf(),
            col < SCREEN_WIDTH,
            row < SCREEN_HEIGHT,
        ensures
            r == self@.gfx[row * SCREEN_WIDTH + col],
    {
        self.gfx[row * SCREEN_WIDTH + col]
    }

    /// The framebuffer, row-major, `true` for a lit pixel.
    pub fn framebuffer(&self) -> (r: &Vec<bool>)
        ensures
            r@ == self@.gfx,
    {
        &self.gfx
    }
}

} // verus!
