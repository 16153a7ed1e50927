//! A small virtual machine: one processing node that runs a program of
//! four-byte instructions over an accumulator, a backup register and two
//! ports.
//!
//! - [`common`]: the saturating value type, opcodes, selectors and errors.
//! - [`vm`]: the machine, with the instruction semantics that it is
//!   verified against.
//! - [`modules`]: the ports.
//! - [`emitter`]: writes instructions in the machine's binary format.
//! - [`compiler`]: the beginnings of a front end for source text.
//! - [`decimal`]: decimal text of integers.

pub mod common;
pub mod compiler;
pub mod decimal;
pub mod emitter;
pub mod modules;
pub mod vm;
