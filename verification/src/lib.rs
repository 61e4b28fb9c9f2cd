//! The hardware-facing core of a small x86-64 kernel: the interrupt
//! descriptor table and the VGA text-mode writer.
//!
//! Everything here works on plain values. The privileged instructions and the
//! stores to memory-mapped regions are the caller's part; this crate decides
//! what is stored and what is loaded.

pub mod bits;
pub mod interrupt;
pub mod layout;
pub mod vga;
