//! Opcode classification and the line-by-line decompiler of the first
//! generation.

pub mod binary;
pub mod op;
pub mod types;
pub mod valuetype;
pub mod bytecode;
pub mod bytecode_type;
pub mod utils;
pub mod operator;
