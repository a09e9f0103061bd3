//! A verified CHIP-8 interpreter core.
//!
//! The library models the machine state of a CHIP-8 virtual machine --
//! memory, registers, call stack, timers, key states and the 64x32
//! monochrome display -- and executes its instruction set one
//! fetch-decode-execute cycle at a time.  Every public operation carries a
//! contract that pins down the resulting machine state; fatal conditions
//! (unknown opcodes, stack misuse, out-of-range memory access, oversized
//! program images) are returned to the host as typed faults instead of
//! panicking.

pub mod display;
pub mod isa;
pub mod laws;
pub mod machine;
pub mod step;

pub use isa::Fault;
pub use isa::Instr;
pub use machine::EmuView;
pub use machine::Emulator;
