//! Python Type Param
use vstd::prelude::*;
use super::{expr::Expr, Ident};


verus! {

/// The `TypeParam` node.
pub struct TypeParam {
    pub value: TypeParamType,
    pub lineno: usize,
    pub col_offset: usize,
    pub end_lineno: usize,
    pub end_col_offset: usize,
}

/// The `TypeParamType` node.
pub enum TypeParamType {
    TypeVar(TypeVar),
    ParamSpec(ParamSpec),
    TypeVarTuple(TypeVarTuple),
}

/// The `TypeVar` node.
pub struct TypeVar {
    pub name: Ident,
    pub bound: Expr,
    pub default_value: Expr,
}

/// The `ParamSpec` node.
pub struct ParamSpec {
    pub name: Ident,
    pub default_value: Expr,
}

/// The `TypeVarTuple` node.
pub struct TypeVarTuple {
    pub name: Ident,
    pub default_value: Expr,
}

} // verus!
