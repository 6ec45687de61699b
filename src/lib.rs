//! An instruction-level interpreter core for a 6502-class processor: registers and
//! status flags, a flat 64 KiB memory, addressing-mode resolution, a metadata-driven
//! fetch-decode-execute loop and the handlers for LDA, STA, ADC, TAX and INX.
//!
//! Every step of the machine is described by spec functions over [`state::CpuState`];
//! the executable [`cpu::CPU`] is proved to follow them exactly.

pub mod status;
pub mod memory;
pub mod opcodes;
pub mod state;
pub mod cpu;
