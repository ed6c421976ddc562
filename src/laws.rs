use vstd::prelude::*;

use crate::font::{font_spec, FONTSET_START, FONT_LEN};
use crate::machine::{
    can_fetch, collides, cycle_spec, draw_spec, fetch_spec, first_release, first_release_from,
    memory_image, run_spec, tick_spec, ticks_spec, touches, Fault, Machine, FLAG_REGISTER,
    MAX_ROM_SIZE, PROGRAM_START, SCREEN_HEIGHT, SCREEN_PIXELS, SCREEN_WIDTH,
};

verus! {

/// Loading places every ROM byte at `PROGRAM_START` onward and the font table
/// at `FONTSET_START`.
pub proof fn lemma_load_places_rom_and_font(rom: Seq<u8>)
    requires
        rom.len() <= MAX_ROM_SIZE,
    ensures
        forall|k: int| 0 <= k < rom.len() ==> #[trigger] memory_image(rom)[PROGRAM_START + k] == rom[k],
        memory_image(rom).subrange(FONTSET_START as int, (FONTSET_START + FONT_LEN) as int)
            == font_spec(),
{
    assert(memory_image(rom).subrange(FONTSET_START as int, (FONTSET_START + FONT_LEN) as int)
        =~= font_spec());
}

/// `6XNN` followed by a read of `VX` gives `NN`, for every register and byte.
pub proof fn lemma_set_immediate(m: Machine, rnd: u8, x: u8, nn: u8)
    requires
        m.wf(),
        can_fetch(m),
        x < 16,
        m.memory[m.pc as int] == 0x60 + x,
        m.memory[m.pc + 1] == nn,
    ensures
        cycle_spec(m, rnd) matches Ok(m2) && m2.v[x as int] == nn,
{
}

/// `7XNN` adds `NN` to `VX` modulo 256 and touches no other register.
pub proof fn lemma_add_immediate_wraps(m: Machine, rnd: u8, x: u8, nn: u8)
    requires
        m.wf(),
        can_fetch(m),
        x < 16,
        m.memory[m.pc as int] == 0x70 + x,
        m.memory[m.pc + 1] == nn,
    ensures
        cycle_spec(m, rnd) matches Ok(m2) && m2.v == m.v.update(
            x as int,
            ((m.v[x as int] + nn) % 256) as u8,
        ),
{
}

/// A call `2NNN` followed by the `00EE` at `NNN` comes back to the
/// instruction after the call, with the stack and everything else as before.
pub proof fn lemma_call_return(m: Machine, r1: u8, r2: u8, addr: u16)
    requires
        m.wf(),
        can_fetch(m),
        addr + 1 < 0x1000,
        m.memory[m.pc as int] == 0x20 + addr / 256,
        m.memory[m.pc + 1] == addr % 256,
        m.memory[addr as int] == 0x00,
        m.memory[addr + 1] == 0xEE,
    ensures
        cycle_spec(m, r1) matches Ok(m1) && cycle_spec(m1, r2) == Ok::<Machine, Fault>(
            m.with_pc(m.pc + 2),
        ),
{
    let m1 = cycle_spec(m, r1)->Ok_0;
    assert(m1.stack.drop_last() =~= m.stack);
    assert(cycle_spec(m1, r2)->Ok_0 =~= m.with_pc(m.pc + 2));
}

/// `00EE` on an empty stack is a stack-underflow fault.
pub proof fn lemma_return_underflow(m: Machine, rnd: u8)
    requires
        m.wf(),
        can_fetch(m),
        m.stack.len() == 0,
        m.memory[m.pc as int] == 0x00,
        m.memory[m.pc + 1] == 0xEE,
    ensures
        cycle_spec(m, rnd) == Err::<Machine, Fault>(Fault::StackUnderflow),
{
}

/// Drawing the same sprite at the same place twice leaves the framebuffer as
/// it was. The second draw reports a collision exactly when the sprite flips
/// some pixel that was dark before the first: then every such pixel was lit
/// by the first draw.
pub proof fn lemma_draw_twice(m: Machine, vx: u8, vy: u8, n: u8)
    requires
        m.wf(),
    ensures
        ({
            let x0 = vx as int % SCREEN_WIDTH as int;
            let y0 = vy as int % SCREEN_HEIGHT as int;
            let m2 = draw_spec(draw_spec(m, vx, vy, n), vx, vy, n);
            &&& m2.gfx == m.gfx
            &&& (exists|p: int| touches(m, x0, y0, n as int, p) && !#[trigger] m.gfx[p]) ==> m2.v[
                FLAG_REGISTER as int] == 1
            &&& m2.v[FLAG_REGISTER as int] == 1 ==> exists|p: int|
                touches(m, x0, y0, n as int, p) && !#[trigger] m.gfx[p]
        }),
{
    let x0 = vx as int % SCREEN_WIDTH as int;
    let y0 = vy as int % SCREEN_HEIGHT as int;
    let m1 = draw_spec(m, vx, vy, n);
    let m2 = draw_spec(m1, vx, vy, n);
    assert forall|p: int| #![auto] touches(m1, x0, y0, n as int, p) == touches(m, x0, y0, n as int, p) by {}
    assert(m2.gfx =~= m.gfx);
    if exists|p: int| touches(m, x0, y0, n as int, p) && !#[trigger] m.gfx[p] {
        let p = choose|p: int| touches(m, x0, y0, n as int, p) && !#[trigger] m.gfx[p];
        assert(touches(m1, x0, y0, n as int, p) && m1.gfx[p]);
        assert(collides(m1, x0, y0, n as int));
    }
    if m2.v[FLAG_REGISTER as int] == 1 {
        assert(collides(m1, x0, y0, n as int));
        let p = choose|p: int| touches(m1, x0, y0, n as int, p) && #[trigger] m1.gfx[p];
        assert(touches(m, x0, y0, n as int, p) && !m.gfx[p]);
    }
}

/// A sprite never wraps: the only pixels a draw changes lie to the right of
/// and below its start position, within its 8 columns and `n` rows, and the
/// framebuffer keeps its size.
pub proof fn lemma_draw_clips(m: Machine, vx: u8, vy: u8, n: u8)
    requires
        m.wf(),
    ensures
        draw_spec(m, vx, vy, n).gfx.len() == SCREEN_PIXELS,
        forall|p: int|
            0 <= p < SCREEN_PIXELS && #[trigger] draw_spec(m, vx, vy, n).gfx[p] != m.gfx[p] ==> {
                let col = p % SCREEN_WIDTH as int;
                let row = p / SCREEN_WIDTH as int;
                &&& vx as int % SCREEN_WIDTH as int <= col < vx as int % SCREEN_WIDTH as int + 8
                &&& vy as int % SCREEN_HEIGHT as int <= row < vy as int % SCREEN_HEIGHT as int
                    + n
            },
{
}

/// After `k` timer ticks each timer has counted down by `k`, stopping at
/// zero.
pub proof fn lemma_ticks_floor(m: Machine, k: nat)
    ensures
        ticks_spec(m, k).delay == (if m.delay >= k { m.delay - k } else { 0 }),
        ticks_spec(m, k).sound == (if m.sound >= k { m.sound - k } else { 0 }),
    decreases k,
{
    if k > 0 {
        lemma_ticks_floor(m, (k - 1) as nat);
    }
}

/// `first_release` names the lowest key pressed in the previous snapshot and
/// released in the current one, and is `None` when there is no such key.
pub proof fn lemma_first_release(m: Machine)
    requires
        m.wf(),
    ensures
        first_release(m) matches Some(k) ==> k < 16 && m.prev_keys[k as int] && !m.keys[k as int]
            && forall|j: int| 0 <= j < k ==> !(#[trigger] m.prev_keys[j] && !m.keys[j]),
        first_release(m) is None ==> forall|j: int|
            0 <= j < 16 ==> !(#[trigger] m.prev_keys[j] && !m.keys[j]),
{
    lemma_first_release_from(m, 0);
}

proof fn lemma_first_release_from(m: Machine, k: nat)
    requires
        m.wf(),
        k <= 16,
    ensures
        first_release_from(m, k) matches Some(r) ==> k <= r < 16 && m.prev_keys[r as int]
            && !m.keys[r as int] && forall|j: int|
            k <= j < r ==> !(#[trigger] m.prev_keys[j] && !m.keys[j]),
        first_release_from(m, k) is None ==> forall|j: int|
            k <= j < 16 ==> !(#[trigger] m.prev_keys[j] && !m.keys[j]),
    decreases 16 - k,
{
    if k < 16 {
        lemma_first_release_from(m, k + 1);
    }
}

/// `FX0A` with no key released since the previous snapshot changes nothing,
/// so `PC` stays on it; once a key is released, `VX` gets the lowest such key
/// and `PC` moves past it.
pub proof fn lemma_wait_key(m: Machine, rnd: u8, x: u8)
    requires
        m.wf(),
        can_fetch(m),
        x < 16,
        m.memory[m.pc as int] == 0xF0 + x,
        m.memory[m.pc + 1] == 0x0A,
    ensures
        first_release(m) is None ==> cycle_spec(m, rnd) == Ok::<Machine, Fault>(m),
        first_release(m) matches Some(k) ==> cycle_spec(m, rnd) == Ok::<Machine, Fault>(
            m.with_pc(m.pc + 2).with_reg(x, k),
        ),
{
}

/// While no key is released, any number of cycles on `FX0A` leaves the whole
/// machine, `PC` included, as it was.
pub proof fn lemma_wait_key_idles(m: Machine, rs: Seq<u8>, x: u8)
    requires
        m.wf(),
        can_fetch(m),
        x < 16,
        m.memory[m.pc as int] == 0xF0 + x,
        m.memory[m.pc + 1] == 0x0A,
        first_release(m) is None,
    ensures
        run_spec(m, rs).machine == m,
        run_spec(m, rs).fault is None,
    decreases rs.len(),
{
    if rs.len() > 0 {
        lemma_wait_key_idles(m, rs.drop_last(), x);
        lemma_wait_key(m, rs.last(), x);
    }
}

} // verus!
