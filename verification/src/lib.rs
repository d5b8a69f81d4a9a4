//! Core of an emulator for an 8-bit handheld game console: a byte-store /
//! storage-view layer with per-width access permissions, a register file whose
//! 8-bit and 16-bit views alias the same bytes, an address decoder over the
//! 16-bit memory map, an instruction-descriptor table, and a fetch-decode-execute
//! engine with typed faults.

pub mod cpu;
pub mod instruction;
pub mod storage;
