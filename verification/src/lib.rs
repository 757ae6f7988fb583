//! Gas accounting for bytecode execution: gas units and their algebra,
//! the per-instruction cost table and the intrinsic charge of a transaction.

pub mod algebra;
pub mod bytecode;
pub mod opcodes;
pub mod cost;
pub mod constants;
pub mod intrinsic;
