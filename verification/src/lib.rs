//! Core logic of a small freestanding kernel: heap selection from the boot
//! memory map, a pixel-framebuffer text console, keyboard scancode decoding
//! and interrupt dispatch.  Everything here works on plain values; the code
//! that touches hardware registers lives with the kernel binary.

pub mod font;
pub mod interrupt;
pub mod keyboard;
pub mod memory_map;
pub mod pic;
pub mod setup;
pub mod writer;
