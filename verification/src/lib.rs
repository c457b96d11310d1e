//! A host bridge that drives a CHIP-8 emulator core from an event loop:
//! key-to-keypad translation, lifecycle operations on the core, and the
//! computation of the squares a renderer must paint for the framebuffer.

pub mod bridge;
pub mod emu;
pub mod keymap;
pub mod render;

pub use bridge::CpuWasm;
pub use keymap::key2btn;
pub use render::Square;
