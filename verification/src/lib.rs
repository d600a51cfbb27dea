//! An instruction-level emulator for a small subset of the 32-bit x86
//! instruction set: a flat byte-addressable memory, eight general-purpose
//! registers, arithmetic status flags, a ModRM addressing-mode decoder, an
//! opcode dispatch table and a fetch-decode-execute loop.
//!
//! Every state transition of the machine is specified: each instruction
//! handler carries a contract that pins down exactly which bytes it consumes,
//! how registers, memory, flags and the instruction pointer change, and on
//! which machine states it faults instead.

pub mod arith;
pub mod emulator;
pub mod fault;
pub mod flags;
pub mod insts;
pub mod laws;
pub mod memory;
pub mod modrm;
