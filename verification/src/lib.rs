//! A bare-metal DOOM-like kernel's logic: the mode 13h renderer, the number
//! formatting of its HUD, the interrupt vector layout, the GDT layout and the
//! physical frame allocator.
use vstd::prelude::*;

pub mod vga;
pub mod idt;
pub mod doom_engine;
pub mod counter_text;
pub mod banner;
pub mod doom;
pub mod memory;
pub mod gdt;
pub mod keyboard;
