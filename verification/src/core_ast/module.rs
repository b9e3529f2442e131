//! Python mod
use vstd::prelude::*;
use super::{expr::Expr, seqs::{ExprSeq, StmtSeq, TypeIgnoreSeq}};



verus! {

/// The `Mod` node.
pub struct Mod {
    pub value: ModType,
}

/// The `ModType` node.
pub enum ModType {
    Module(Module),
    Interactive(Interactive),
    Expression(Expression),
    FunctionType(FunctionType),
}

/// The `Module` node.
pub struct Module {
    pub body: Vec<StmtSeq>,
    pub type_ignores: Vec<TypeIgnoreSeq>,
}

/// The `Interactive` node.
pub struct Interactive {
    pub body: Vec<StmtSeq>,
}

/// The `Expression` node.
pub struct Expression {
    pub body: Expr,
}

/// The `FunctionType` node.
pub struct FunctionType {
    pub arg_types: Vec<ExprSeq>,
    pub returns: Expr,
}

} // verus!
