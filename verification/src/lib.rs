//! Python bytecode reverse engineering: opcode models, expression trees and
//! source reconstruction.

pub mod text;
pub mod bytecode;
pub mod patterns;
pub mod mark;
pub mod opcode;
pub mod disasm;
pub mod common;
pub mod query_id;
pub mod ast;
pub mod query;
pub mod visit;
pub mod parser;
pub mod tree;
pub mod core_ast;
pub mod ast_build;
pub mod color;
pub mod bytecodemap;
pub mod decompiler;
