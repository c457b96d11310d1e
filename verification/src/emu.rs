//! The boundary to the emulator core, the `chip8` crate: the core's
//! processor and memory types, names for the state its source fixes (the
//! video cells, the key states, the RAM bytes, the two timers, the
//! registers and the program counter), and one wrapper per core operation
//! the bridge drives. What a cycle computes - opcode decode and execution -
//! is the collaborator's own business and stays behind a name here.

use vstd::prelude::*;

verus! {

#[verifier::external_type_specification]
#[verifier::external_body]
pub struct ExCpu(chip8::Cpu);

#[verifier::external_type_specification]
#[verifier::external_body]
pub struct ExMemory(chip8::Memory);

/// The video cells the core's memory holds, row-major, true = lit.
pub uninterp spec fn video_of(m: chip8::Memory) -> Seq<bool>;

/// The sixteen key states the core's memory holds, true = pressed.
pub uninterp spec fn keys_of(m: chip8::Memory) -> Seq<bool>;

/// The RAM bytes the core's memory holds, in address order.
pub uninterp spec fn ram_of(m: chip8::Memory) -> Seq<u8>;

/// The processor's delay timer.
pub uninterp spec fn delay_of(c: chip8::Cpu) -> u8;

/// The processor's sound timer.
pub uninterp spec fn sound_of(c: chip8::Cpu) -> u8;

/// The processor's program counter.
pub uninterp spec fn pc_of(c: chip8::Cpu) -> u16;

/// The processor's sixteen general-purpose registers.
pub uninterp spec fn regs_of(c: chip8::Cpu) -> Seq<u8>;

/// The processor's index register.
pub uninterp spec fn index_of(c: chip8::Cpu) -> u16;

/// How many return addresses the processor's call stack holds.
pub uninterp spec fn stack_depth_of(c: chip8::Cpu) -> u8;

/// The video cells one instruction cycle leaves behind. Every processor
/// the library builds carries the same fixed byte source, so what a cycle
/// does is a function of the processor and the memory alone.
pub uninterp spec fn cycle_video(c: chip8::Cpu, m: chip8::Memory) -> Seq<bool>;

/// The number of cells of the core's video memory: its display is 64 x 32.
pub const DISPLAY_CELLS: usize = 64 * 32;

/// The number of keys of the core's keypad.
pub const KEY_COUNT: usize = 16;

/// The number of bytes of the core's RAM.
pub const RAM_SIZE: usize = 4096;

/// The address programs load at and the processor starts at.
pub const LOAD_ADDR: usize = 0x200;

/// Bytes of program memory behind the load address.
pub const PROGRAM_CAPACITY: usize = RAM_SIZE - LOAD_ADDR;

/// The two instruction bytes at address `pc`, big-endian, as the core
/// fetches them.
pub open spec fn opcode_at(ram: Seq<u8>, pc: int) -> int {
    (ram[pc] as int) * 0x100 + (ram[pc + 1] as int)
}

/// Whether the core executes the opcode `op` without halting, given the
/// register file, the index register and the call-stack depth: the opcode
/// must be one the core's decode table knows, a return needs a pushed
/// address, a call needs stack room, the key-skip pair needs a register
/// value inside the sixteen keys, and the sprite, add-to-index, decimal
/// and register-file transfers need the index register to keep every RAM
/// access in bounds and the index arithmetic inside its register width.
pub open spec fn opcode_ok(op: int, regs: Seq<u8>, index: u16, depth: u8) -> bool {
    let group = op / 0x1000;
    let x = (op / 0x100) % 0x10;
    let n = op % 0x10;
    let nn = op % 0x100;
    if group == 0x0 {
        nn == 0xE0 || (nn == 0xEE && depth > 0)
    } else if group == 0x2 {
        depth < 16
    } else if group == 0x5 || group == 0x9 {
        n == 0
    } else if group == 0x8 {
        n <= 0x7 || n == 0xE
    } else if group == 0xD {
        n == 0 || index as int + n <= RAM_SIZE
    } else if group == 0xE {
        (nn == 0x9E || nn == 0xA1) && regs[x] <= 15
    } else if group == 0xF {
        if nn == 0x1E {
            index as int + regs[x] <= u16::MAX
        } else if nn == 0x33 {
            index as int + 2 < RAM_SIZE
        } else if nn == 0x55 {
            x == 0 || index as int + x <= RAM_SIZE
        } else if nn == 0x65 {
            index as int + x < RAM_SIZE
        } else {
            nn == 0x07 || nn == 0x0A || nn == 0x15 || nn == 0x18 || nn == 0x29
        }
    } else {
        true
    }
}

/// When one fetch-and-execute cycle of the core returns normally: the
/// stores have their fixed sizes, the program counter fetches two bytes
/// inside RAM, and the opcode they form executes without halting.
pub open spec fn cycle_ok(ram: Seq<u8>, pc: u16, regs: Seq<u8>, index: u16, depth: u8) -> bool {
    &&& ram.len() == RAM_SIZE
    &&& regs.len() == 16
    &&& pc as int + 2 <= RAM_SIZE
    &&& opcode_ok(opcode_at(ram, pc as int), regs, index, depth)
}

/// The byte source handed to the core's random-number instruction. The
/// bridge owes the core a source but promises nothing of its distribution,
/// so a fixed byte serves; a program that leans on the random-number
/// instruction sees a degenerate, constant draw.
fn fixed_rand_byte() -> (r: u8)
    ensures
        r == 0,
{
    0
}

/// Relies on chip8::Cpu::new: builds a processor in its power-on state -
/// registers, both timers and the index register zero, the program
/// counter at the load address, the call stack empty - keeping the given
/// function as its byte source.
#[verifier::external_body]
pub(crate) fn fresh_cpu() -> (c: chip8::Cpu)
    ensures
        delay_of(c) == 0,
        sound_of(c) == 0,
        pc_of(c) == LOAD_ADDR as u16,
        regs_of(c) == Seq::new(16, |i: int| 0u8),
        index_of(c) == 0,
        stack_depth_of(c) == 0,
{
    chip8::Cpu::new(fixed_rand_byte)
}

/// Relies on chip8::Memory::new: every video cell starts unlit, every key
/// released, and the RAM holds the font sprites alone, so the program
/// region behind the load address starts all zero.
#[verifier::external_body]
pub(crate) fn fresh_memory() -> (m: chip8::Memory)
    ensures
        video_of(m) == Seq::new(DISPLAY_CELLS as nat, |i: int| false),
        keys_of(m) == Seq::new(KEY_COUNT as nat, |i: int| false),
        ram_of(m).len() == RAM_SIZE,
        ram_of(m).skip(LOAD_ADDR as int) == Seq::new(
            (RAM_SIZE - LOAD_ADDR) as nat,
            |i: int| 0u8,
        ),
{
    chip8::Memory::new()
}

/// Relies on chip8::Cpu::reset: restores the processor's power-on state -
/// registers, both timers and the index register zero, the program
/// counter back at the load address, the call stack and current opcode
/// cleared; it holds no video or key state.
#[verifier::external_body]
pub(crate) fn cpu_reset(cpu: &mut chip8::Cpu)
    ensures
        delay_of(*final(cpu)) == 0,
        sound_of(*final(cpu)) == 0,
        pc_of(*final(cpu)) == LOAD_ADDR as u16,
        regs_of(*final(cpu)) == Seq::new(16, |i: int| 0u8),
        index_of(*final(cpu)) == 0,
        stack_depth_of(*final(cpu)) == 0,
{
    cpu.reset();
}

/// Relies on chip8::Memory::reset: clears every video cell and every key
/// and rewrites the font sprites below the load address; the RAM behind
/// the load address - the loaded program - persists.
#[verifier::external_body]
pub(crate) fn mem_reset(m: &mut chip8::Memory)
    ensures
        video_of(*final(m)) == Seq::new(DISPLAY_CELLS as nat, |i: int| false),
        keys_of(*final(m)) == Seq::new(KEY_COUNT as nat, |i: int| false),
        ram_of(*final(m)).len() == RAM_SIZE,
        ram_of(*final(m)).skip(LOAD_ADDR as int) == ram_of(*old(m)).skip(LOAD_ADDR as int),
{
    m.reset();
}

/// Relies on chip8::Cpu::run: fetches and executes one instruction against
/// the memory. The `requires` is exactly the condition under which the
/// core's source returns instead of halting: the fetch stays inside RAM,
/// the opcode is one the decode table knows (the zero bytes of an
/// unloaded program are not), a return has an address to pop, a call has
/// stack room, and every operand keeps its RAM and key accesses in
/// bounds; the byte source consulted by the random-number instruction is
/// the library's own verified function and cannot halt. The video cells
/// the cycle leaves are the named function of the two arguments; no
/// instruction writes the key states; the arrays keep their fixed sizes.
#[verifier::external_body]
pub(crate) fn run_cycle(cpu: &mut chip8::Cpu, m: &mut chip8::Memory)
    requires
        cycle_ok(
            ram_of(*old(m)),
            pc_of(*old(cpu)),
            regs_of(*old(cpu)),
            index_of(*old(cpu)),
            stack_depth_of(*old(cpu)),
        ),
    ensures
        video_of(*final(m)) == cycle_video(*old(cpu), *old(m)),
        video_of(*final(m)).len() == DISPLAY_CELLS,
        keys_of(*final(m)) == keys_of(*old(m)),
        ram_of(*final(m)).len() == RAM_SIZE,
{
    cpu.run(m, 1);
}

/// Relies on chip8::Cpu::tick: each timer comes back decremented if it was
/// positive and zero stays zero; registers, program counter, index
/// register and call stack are untouched, and it touches no memory.
#[verifier::external_body]
pub(crate) fn timers_tick(cpu: &mut chip8::Cpu)
    ensures
        delay_of(*final(cpu)) == (if delay_of(*old(cpu)) > 0 {
            (delay_of(*old(cpu)) - 1) as u8
        } else {
            0u8
        }),
        sound_of(*final(cpu)) == (if sound_of(*old(cpu)) > 0 {
            (sound_of(*old(cpu)) - 1) as u8
        } else {
            0u8
        }),
        pc_of(*final(cpu)) == pc_of(*old(cpu)),
        regs_of(*final(cpu)) == regs_of(*old(cpu)),
        index_of(*final(cpu)) == index_of(*old(cpu)),
        stack_depth_of(*final(cpu)) == stack_depth_of(*old(cpu)),
{
    cpu.tick();
}

/// Relies on chip8::Memory::load_program: copies the bytes into RAM at the
/// load address, leaving the rest of RAM and the video cells and key
/// states as they were; the copy stays in bounds exactly when the program
/// fits the capacity.
#[verifier::external_body]
pub(crate) fn load_program(m: &mut chip8::Memory, program: &[u8])
    requires
        program@.len() <= PROGRAM_CAPACITY,
    ensures
        ram_of(*final(m)) == ram_of(*old(m)).take(LOAD_ADDR as int) + program@ + ram_of(
            *old(m),
        ).skip(LOAD_ADDR as int + program@.len()),
        video_of(*final(m)) == video_of(*old(m)),
        keys_of(*final(m)) == keys_of(*old(m)),
{
    m.load_program(program);
}

/// Relies on chip8::Memory's public `keys` field: writes one key's state
/// and nothing else.
#[verifier::external_body]
pub(crate) fn set_key(m: &mut chip8::Memory, idx: usize, pressed: bool)
    requires
        idx < KEY_COUNT,
    ensures
        keys_of(*final(m)) == keys_of(*old(m)).update(idx as int, pressed),
        keys_of(*final(m)).len() == KEY_COUNT,
        video_of(*final(m)) == video_of(*old(m)),
        ram_of(*final(m)) == ram_of(*old(m)),
{
    m.keys[idx] = pressed;
}

/// Relies on chip8::Memory's public `video` field, a 64 x 32 array of
/// booleans: copies the video cells out in row-major order.
#[verifier::external_body]
pub(crate) fn read_display(m: &chip8::Memory) -> (r: Vec<bool>)
    ensures
        r@ == video_of(*m),
        r@.len() == DISPLAY_CELLS,
{
    m.video.to_vec()
}

/// Relies on chip8::Memory's public `keys` field, an array of sixteen
/// booleans: copies the key states out.
#[verifier::external_body]
pub(crate) fn read_keys(m: &chip8::Memory) -> (r: Vec<bool>)
    ensures
        r@ == keys_of(*m),
        r@.len() == KEY_COUNT,
{
    m.keys.to_vec()
}

} // verus!
