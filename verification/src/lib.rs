//! An interpreter core for the MOS 6502: registers, status flags, a flat
//! 64 KiB memory, the addressing modes, and a fetch-decode-execute loop.
//!
//! [`cpu::CPU`] is the executable processor. What each of its methods does is
//! stated against [`machine::Machine`], a model of the processor's state as
//! plain mathematical values, and [`theorems`] holds what follows for every
//! state of that model.
//!
//! The dispatch table in [`opcode`] knows the instructions BRK, INX, LDA, STA
//! and TAX in all their addressing modes. Every other opcode byte is marked
//! as unimplemented there, and a step onto one is answered by a fault.

pub mod addressing;
pub mod cpu;
pub mod machine;
pub mod memory;
pub mod opcode;
pub mod status;
pub mod theorems;

pub use addressing::AddressingModes;
pub use cpu::CPU;
pub use machine::{Fault, StepOutcome};
pub use opcode::{decode, Mnemonic, OpcodeEntry};
pub use status::StatusFlag;
