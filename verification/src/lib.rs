//! An instruction-level emulator core for the RISC-V user-mode ISA.
//!
//! The core is parameterized by address width — 32, 64 or 128 bits, chosen
//! at run time through [`xlen::Xlen`] — and by a set of standard extensions
//! (M, A, F, D, C, Zicsr, Zifencei, and the reduced register file E), chosen
//! through [`decode::common::Isa`].  It decodes raw 16- and 32-bit
//! instruction words into micro-ops, executes them against an abstract hart
//! state (registers, program counter, memory), and reports architectural
//! faults as traps.  A direct-mapped decoded-op cache sits between fetch
//! and decode; `fence.i` flushes it.
//!
//! Floating-point arithmetic itself — addition through division, fused
//! multiply-add, square root, and the conversions between integers and
//! floats — is delegated to a host arithmetic bundle through the
//! [`fpu::FpOp`] trait, of whose results nothing is assumed.  Everything
//! around it — NaN-boxing, canonical-NaN production, sign injection,
//! min/max and comparison rules, classification, rounding-mode staging and
//! sticky-flag accumulation — is implemented on plain bit patterns and
//! verified here, as are the decoder, the integer ALU, the memory and
//! atomics model, and the dispatch loop.  The general laws the crate
//! states about itself are collected in [`laws`].

pub mod decode;
pub mod execute;
pub mod fpu;
pub mod hart;
pub mod laws;
pub mod mem;
pub mod privilege;
pub mod uop;
pub mod xlen;
