//! Core of a Commodore 64 emulator: a MOS 6502 interpreter over a banked
//! 64 KiB address space, two CIA timer chips, a text-mode VIC-II and the
//! KERNAL LOAD/SAVE traps, with every operation stated as a contract.

pub mod cia;
pub mod cpu;
pub mod debugger;
pub mod io;
pub mod keyboard;
pub mod machine;
pub mod memory;
pub mod storage;
pub mod text;
pub mod ticks;
pub mod vic;
