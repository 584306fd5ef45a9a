//! Registers, instructions and the static semantics of x86 instructions.

pub mod x86_ins;
pub mod x86_ins_semantics;
pub mod x86_reg;
