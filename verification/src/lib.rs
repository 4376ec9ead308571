//! A Hack computer tool chain: the chips of the CPU (ALU, registers, program
//! counter, memories), the assembler, and the VM translator.
pub mod alu;
pub mod assembler;
pub mod cpu;
pub mod pc;
pub mod ram;
pub mod register;
pub mod rom;
pub mod semantics;
pub mod text;
pub mod translator;
pub mod toolchain;
