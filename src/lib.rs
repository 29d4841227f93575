//! The core of an 8-bit handheld console: the processor's register file,
//! instruction decoder and execution engine, the tile store and pixel unit
//! that render scanlines, the timer, the cartridge and the system bus.

use vstd::prelude::*;

pub mod registers;
pub mod instruction;
pub mod alu;
pub mod cpu;
pub mod lcdc;
pub mod tile;
pub mod gpu;
pub mod timer;
pub mod cartridge;
pub mod bus;

verus! {

} // verus!
