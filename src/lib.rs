//! A CHIP-8 virtual machine: opcode decoding, instruction execution against
//! registers, stack, memory, display and keypad, the wait-for-key state and
//! the two countdown timers, each stated over an abstract machine model.
pub mod emulator;
pub mod instruction;
pub mod laws;
pub mod machine;
