//! A CHIP-8 interpreter core: memory image, register file, call stack, timers
//! and a 64x32 monochrome framebuffer, driven one instruction at a time.
//!
//! Every executable function is verified against a ghost model of the machine
//! (`Machine`), and each instruction's effect is stated as a spec function
//! over that model (`execute_spec`). The public proof functions in `laws`
//! state properties that hold across instructions and calls.
mod font;
mod instruction;
mod interpreter;
mod laws;
mod machine;
mod rng;

pub use font::{font_spec, font_table, FONTSET_START, FONT_LEN};
pub use instruction::{
    decode, decode_spec, group_of, n_of, nn_of, nnn_of, operands_in_range, x_of, y_of,
    Instruction,
};
pub use interpreter::{initial_machine, Chip8};
pub use laws::{
    lemma_add_immediate_wraps, lemma_call_return, lemma_draw_clips, lemma_draw_twice,
    lemma_first_release, lemma_load_places_rom_and_font, lemma_return_underflow,
    lemma_set_immediate, lemma_ticks_floor, lemma_wait_key, lemma_wait_key_idles,
};
pub use machine::{
    bcd_digits, can_fetch, collides, cycle_spec, draw_in_range, draw_spec, drawn_rows,
    execute_spec, fetch_spec, first_release, first_release_from, key_down, memory_image,
    run_spec, sprite_bit, tick_spec, ticks_spec, touches, Fault, LoadError, Machine, Run,
    FLAG_REGISTER, MAX_ROM_SIZE, MEMORY_SIZE, NUM_REGISTERS, PROGRAM_START, SCREEN_HEIGHT,
    SCREEN_PIXELS, SCREEN_WIDTH,
};
