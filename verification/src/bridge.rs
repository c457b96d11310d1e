//! The host bridge: owns one emulator core (a processor and its memory) and
//! exposes the lifecycle and per-frame operations a frame loop drives. The
//! caller owes the cadence - instruction cycles at the execution rate,
//! timer decrements at 60 Hz - and the bridge owes exact dispatch: key
//! events reach the core through the keymap or not at all, program images
//! land verbatim at the load address, and a draw yields one square per lit
//! framebuffer cell.

use vstd::prelude::*;

use crate::emu;
use crate::emu::{
    cycle_ok, cycle_video, delay_of, index_of, keys_of, pc_of, ram_of, regs_of, sound_of,
    stack_depth_of, video_of, DISPLAY_CELLS, KEY_COUNT, LOAD_ADDR, PROGRAM_CAPACITY, RAM_SIZE,
};
use crate::keymap;
use crate::keymap::key2btn_spec;
use crate::render;
use crate::render::{squares_of, Square};

verus! {

/// The display width the core fixes, in cells.
pub const SCREEN_WIDTH: usize = 64;

/// The display height the core fixes, in cells.
pub const SCREEN_HEIGHT: usize = 32;

/// The observable framebuffer of a core fresh from power-on or reset:
/// every cell unlit.
pub open spec fn blank_display() -> Seq<bool> {
    Seq::new(DISPLAY_CELLS as nat, |i: int| false)
}

/// The key state of a core fresh from power-on or reset: every key
/// released.
pub open spec fn blank_keys() -> Seq<bool> {
    Seq::new(KEY_COUNT as nat, |i: int| false)
}

/// The register file of a processor fresh from power-on or reset: sixteen
/// zeroed registers.
pub open spec fn blank_regs() -> Seq<u8> {
    Seq::new(16, |i: int| 0u8)
}

/// The host bridge: one emulator core, exclusively owned.
pub struct CpuWasm {
    cpu: chip8::Cpu,
    mem: chip8::Memory,
}

impl CpuWasm {
    /// The framebuffer the core currently shows, row-major, true = lit.
    pub closed spec fn display_view(&self) -> Seq<bool> {
        video_of(self.mem)
    }

    /// The key states the core currently holds, true = pressed.
    pub closed spec fn keys_view(&self) -> Seq<bool> {
        keys_of(self.mem)
    }

    /// The core's RAM, in address order; programs live from `LOAD_ADDR`.
    pub closed spec fn ram_view(&self) -> Seq<u8> {
        ram_of(self.mem)
    }

    /// The whole processor half of the core; every processor view below
    /// is a function of it, so an operation that leaves it alone leaves
    /// them all alone.
    pub closed spec fn processor_view(&self) -> chip8::Cpu {
        self.cpu
    }

    /// The core's delay timer.
    pub open spec fn delay_view(&self) -> u8 {
        delay_of(self.processor_view())
    }

    /// The core's sound timer.
    pub open spec fn sound_view(&self) -> u8 {
        sound_of(self.processor_view())
    }

    /// The core's program counter.
    pub open spec fn pc_view(&self) -> u16 {
        pc_of(self.processor_view())
    }

    /// The core's sixteen general-purpose registers.
    pub open spec fn regs_view(&self) -> Seq<u8> {
        regs_of(self.processor_view())
    }

    /// The core's index register.
    pub open spec fn index_view(&self) -> u16 {
        index_of(self.processor_view())
    }

    /// How many return addresses the core's call stack holds.
    pub open spec fn stack_depth_view(&self) -> u8 {
        stack_depth_of(self.processor_view())
    }

    /// The framebuffer one instruction cycle from this state leaves
    /// behind: the core's own function of processor and memory.
    pub closed spec fn cycle_display(&self) -> Seq<bool> {
        cycle_video(self.cpu, self.mem)
    }

    /// Whether the next instruction cycle returns instead of halting the
    /// core: the program counter fetches inside RAM and the fetched
    /// opcode decodes and keeps every access in bounds.
    pub open spec fn can_tick(&self) -> bool {
        cycle_ok(
            self.ram_view(),
            self.pc_view(),
            self.regs_view(),
            self.index_view(),
            self.stack_depth_view(),
        )
    }

    /// Builds a bridge around a core in its power-on state: the
    /// framebuffer all unlit, every key released, registers and timers
    /// zero, the program counter at the load address and the program
    /// region of RAM all zero.
    pub fn new() -> (r: CpuWasm)
        ensures
            r.display_view() == blank_display(),
            r.keys_view() == blank_keys(),
            r.regs_view() == blank_regs(),
            r.delay_view() == 0,
            r.sound_view() == 0,
            r.pc_view() == LOAD_ADDR as u16,
            r.index_view() == 0,
            r.stack_depth_view() == 0,
            r.ram_view().len() == RAM_SIZE,
            r.ram_view().skip(LOAD_ADDR as int) == Seq::new(
                (RAM_SIZE - LOAD_ADDR) as nat,
                |i: int| 0u8,
            ),
    {
        CpuWasm { cpu: emu::fresh_cpu(), mem: emu::fresh_memory() }
    }

    /// Advances the core by exactly one instruction cycle: the framebuffer
    /// becomes the core's own function of the prior processor and memory
    /// state, the key states stay as they were, and the fixed-size stores
    /// keep their sizes. What the cycle computes is the core's contract,
    /// not the bridge's. The precondition is that the cycle returns: on a
    /// program the core cannot decode - the zero bytes of an unloaded
    /// program included - or that runs an access out of bounds, the core
    /// halts fatally, and the bridge has no recoverable path; a caller
    /// outside the proofs that ignores the precondition reaches exactly
    /// that halt.
    pub fn tick(&mut self)
        requires
            old(self).can_tick(),
        ensures
            final(self).display_view() == old(self).cycle_display(),
            final(self).display_view().len() == DISPLAY_CELLS,
            final(self).keys_view() == old(self).keys_view(),
            final(self).ram_view().len() == RAM_SIZE,
    {
        emu::run_cycle(&mut self.cpu, &mut self.mem);
    }

    /// Decrements the core's delay and sound timers once - each timer
    /// drops by one if it was positive and zero stays zero - and changes
    /// nothing else the bridge can observe. The caller owes this call a
    /// fixed 60 Hz cadence; the bridge does not schedule it.
    pub fn tick_timers(&mut self)
        ensures
            final(self).delay_view() == (if old(self).delay_view() > 0 {
                (old(self).delay_view() - 1) as u8
            } else {
                0u8
            }),
            final(self).sound_view() == (if old(self).sound_view() > 0 {
                (old(self).sound_view() - 1) as u8
            } else {
                0u8
            }),
            final(self).pc_view() == old(self).pc_view(),
            final(self).regs_view() == old(self).regs_view(),
            final(self).index_view() == old(self).index_view(),
            final(self).stack_depth_view() == old(self).stack_depth_view(),
            final(self).display_view() == old(self).display_view(),
            final(self).keys_view() == old(self).keys_view(),
            final(self).ram_view() == old(self).ram_view(),
    {
        emu::timers_tick(&mut self.cpu);
    }

    /// Restores the core to its power-on state: whatever preceded - any
    /// run of instructions, any key presses - the framebuffer comes back
    /// all unlit, every key released, registers and timers zero and the
    /// program counter back at the load address. The loaded program
    /// persists: RAM behind the load address is untouched.
    pub fn reset(&mut self)
        ensures
            final(self).display_view() == blank_display(),
            final(self).keys_view() == blank_keys(),
            final(self).regs_view() == blank_regs(),
            final(self).delay_view() == 0,
            final(self).sound_view() == 0,
            final(self).pc_view() == LOAD_ADDR as u16,
            final(self).index_view() == 0,
            final(self).stack_depth_view() == 0,
            final(self).ram_view().len() == RAM_SIZE,
            final(self).ram_view().skip(LOAD_ADDR as int) == old(self).ram_view().skip(
                LOAD_ADDR as int,
            ),
    {
        emu::cpu_reset(&mut self.cpu);
        emu::mem_reset(&mut self.mem);
    }

    /// Copies a program image verbatim into the core's RAM at the fixed
    /// load address, overwriting any program loaded before; RAM outside
    /// the image, the framebuffer, the key states and the whole processor
    /// are untouched. The bridge forwards the bytes without validation of
    /// its own; the image must fit the core's program region.
    pub fn load_game(&mut self, data: &[u8])
        requires
            data@.len() <= PROGRAM_CAPACITY,
        ensures
            final(self).ram_view() == old(self).ram_view().take(LOAD_ADDR as int) + data@ + old(
                self,
            ).ram_view().skip(LOAD_ADDR as int + data@.len()),
            final(self).display_view() == old(self).display_view(),
            final(self).keys_view() == old(self).keys_view(),
            final(self).processor_view() == old(self).processor_view(),
    {
        emu::load_program(&mut self.mem, data);
    }

    /// Forwards one key transition to the core: a raw identifier inside
    /// the keymap table updates exactly its keypad index to `pressed`,
    /// touching neither the framebuffer, nor RAM, nor the processor; any
    /// other identifier leaves the core untouched, silently.
    pub fn keypress(&mut self, key: &str, pressed: bool)
        ensures
            match key2btn_spec(key@) {
                Some(k) => {
                    &&& final(self).keys_view() == old(self).keys_view().update(k as int, pressed)
                    &&& final(self).display_view() == old(self).display_view()
                    &&& final(self).ram_view() == old(self).ram_view()
                    &&& final(self).processor_view() == old(self).processor_view()
                },
                None => *final(self) == *old(self),
            },
    {
        if let Some(k) = keymap::key2btn(key) {
            emu::set_key(&mut self.mem, k, pressed);
        }
    }

    /// The core's current framebuffer snapshot, fetched afresh: row-major,
    /// width times height cells, true = lit.
    pub fn get_display(&self) -> (r: Vec<bool>)
        ensures
            r@ == self.display_view(),
            r@.len() == DISPLAY_CELLS,
    {
        emu::read_display(&self.mem)
    }

    /// The core's current key states: sixteen flags, true = pressed.
    pub fn get_keys(&self) -> (r: Vec<bool>)
        ensures
            r@ == self.keys_view(),
            r@.len() == KEY_COUNT,
    {
        emu::read_keys(&self.mem)
    }

    /// Fetches the current framebuffer snapshot and computes the squares a
    /// renderer must fill: one `scale x scale` square per lit cell, at the
    /// cell's column and row times `scale`, in ascending cell order;
    /// nothing for unlit cells, and nothing at all at scale zero. Painting
    /// never clears: a caller that wants a clean frame clears the surface
    /// itself before filling these.
    pub fn draw_screen(&self, scale: usize) -> (r: Vec<Square>)
        requires
            DISPLAY_CELLS * scale <= usize::MAX,
        ensures
            r@ == squares_of(self.display_view(), SCREEN_WIDTH as int, scale as int),
            scale == 0 ==> r@ == Seq::<Square>::empty(),
    {
        let disp = emu::read_display(&self.mem);
        render::squares_for(&disp, SCREEN_WIDTH, scale)
    }
}

impl Default for CpuWasm {
    /// The default bridge is the power-on bridge.
    fn default() -> (r: CpuWasm)
        ensures
            r.display_view() == blank_display(),
            r.keys_view() == blank_keys(),
            r.regs_view() == blank_regs(),
            r.delay_view() == 0,
            r.sound_view() == 0,
            r.pc_view() == LOAD_ADDR as u16,
            r.index_view() == 0,
            r.stack_depth_view() == 0,
            r.ram_view().len() == RAM_SIZE,
            r.ram_view().skip(LOAD_ADDR as int) == Seq::new(
                (RAM_SIZE - LOAD_ADDR) as nat,
                |i: int| 0u8,
            ),
    {
        CpuWasm::new()
    }
}

/// Resetting is idempotent on everything the bridge can observe: any two
/// states the reset postcondition admits - a bridge reset once, reset many
/// times over, or fresh from power-on - show the same framebuffer and the
/// same key states, all cells unlit and all keys released.
pub proof fn lemma_reset_idempotent(a: &CpuWasm, b: &CpuWasm)
    requires
        a.display_view() == blank_display(),
        a.keys_view() == blank_keys(),
        b.display_view() == blank_display(),
        b.keys_view() == blank_keys(),
    ensures
        a.display_view() == b.display_view(),
        a.keys_view() == b.keys_view(),
        forall|i: int| 0 <= i < a.display_view().len() ==> !a.display_view()[i],
{
}

} // verus!
