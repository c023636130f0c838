//! Core of a CHIP-8 virtual machine: the machine state, the semantics of each
//! instruction in scope, and proofs that the executable code implements them.

pub mod dispatch;
pub mod font;
pub mod instructions;
pub mod laws;
pub mod machine;

pub use dispatch::ExecuteError;
pub use dispatch::Instruction;
pub use machine::Chip8;
pub use machine::LoadError;
pub use machine::MachineView;
