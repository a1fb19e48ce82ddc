//! A small register machine with a fixed two-byte instruction format.
//!
//! The crate has three layers:
//!
//! - [`codec`]: packing and unpacking of a single instruction to and from
//!   its two-byte wire form;
//! - [`machine`]: the interpreter core, a register file of sixteen 64-bit
//!   registers driven by a fetch-decode-execute loop;
//! - [`assembler`]: a builder that turns symbolic instructions into the byte
//!   stream the machine consumes.

pub mod assembler;
pub mod codec;
pub mod machine;

pub use assembler::AsmInst;
pub use codec::Inst;
pub use machine::{Error, Op, Vm};
