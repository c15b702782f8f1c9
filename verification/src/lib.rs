//! A verified core of a 16-bit x86-family real-mode processor emulator:
//! the register file, the segmented memory bus, the prefix and ModR/M
//! decoders, the opcode dispatch table, and the per-instruction execution
//! semantics with their flag effects.
//!
//! The core itself binds no devices to the port plane: port reads yield
//! all-ones of the requested width and port writes are discarded, the
//! architectural behaviour of an unbound port.  A host that attaches
//! devices does so outside the core.

pub mod regs;
pub mod flags;
pub mod cpu;
pub mod modrm;
pub mod arith;
pub mod transfer;
pub mod stack;
pub mod conditionals;
pub mod flagops;
pub mod ports;
pub mod strings;
pub mod control;
pub mod opcodes;
