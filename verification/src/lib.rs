//! A toy compiler back end, twice over: one instruction set vocabulary, two
//! code generators ("RISC" and "CISC") that lower the same analyzed program
//! into labeled basic blocks, and two virtual machines that execute those
//! blocks over an untyped 64-bit register file and a flat byte-addressable
//! memory.  The two pipelines are independent and must agree on observable
//! program output.

pub mod fpu;
pub mod inst;
pub mod text;
pub mod vm;
