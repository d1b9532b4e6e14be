use vstd::prelude::*;

pub mod interrupt;
pub mod cpu;
pub mod memory;
pub mod text;
pub mod controllers;
pub mod cdrom;
pub mod cheats;
pub mod gpu;
pub mod sio;
pub mod clock;
pub mod bios;
pub mod audio;
pub mod snapshot;
pub mod dma;
pub mod debugger;
pub mod config;
pub mod exe;

verus! {

} // verus!
