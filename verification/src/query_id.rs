//! The ids under which expressions are filed.

use vstd::prelude::*;
use crate::ast::Expression;

verus! {

/// The node type an id was filed under.
#[derive(Debug, Clone, Copy, PartialEq, Eq, Hash, Structural)]
pub enum ExprKind {
    Import,
    Class,
    FastVariable,
    Function,
    Return,
    Yield,
    Assign,
    Alias,
    Try,
    Except,
    Finally,
    Assert,
    Raise,
    BaseValue,
    FormatValue,
    Format,
    BinaryOperation,
    Subscr,
    UnaryOperation,
    Call,
    With,
    For,
    If,
    Await,
    Jump,
    Container,
    Slice,
    Attribute,
}

/// An id of an expression, together with the node type it is filed under.
#[derive(Debug, Clone, Copy, PartialEq, Eq, Hash, Structural)]
pub struct QueryId {
    /// The id of the query.
    id: usize,
    /// The node type it is filed under.
    type_id: ExprKind,
}

impl View for QueryId {
    type V = QueryId;

    open spec fn view(&self) -> QueryId {
        *self
    }
}

impl QueryId {
    /// The number of the id.
    pub closed spec fn spec_id(self) -> usize {
        self.id
    }

    /// The node type of the id.
    pub closed spec fn spec_type_id(self) -> ExprKind {
        self.type_id
    }

    /// The id numbered `id` filed under `k`.
    pub closed spec fn spec_new(id: usize, k: ExprKind) -> QueryId {
        QueryId { id, type_id: k }
    }

    /// What `spec_new` builds.
    pub proof fn lemma_spec_new(id: usize, k: ExprKind)
        ensures
            #[trigger] QueryId::spec_new(id, k).spec_id() == id,
            QueryId::spec_new(id, k).spec_type_id() == k,
    {
    }

    /// An id numbered `id` filed under `type_id`.
    pub fn new(id: usize, type_id: ExprKind) -> (r: QueryId)
        ensures
            r == QueryId::spec_new(id, type_id),
            r.spec_id() == id,
            r.spec_type_id() == type_id,
    {
        QueryId { id, type_id }
    }

    /// The number of the id.
    pub fn id(&self) -> (r: usize)
        ensures
            r == self.spec_id(),
    {
        self.id
    }

    /// The node type the id is filed under.
    pub fn type_id(&self) -> (r: ExprKind)
        ensures
            r == self.spec_type_id(),
    {
        self.type_id
    }

    /// Files the id under another node type.
    pub fn set_type_id(&mut self, type_id: ExprKind)
        ensures
            final(self).spec_id() == old(self).spec_id(),
            final(self).spec_type_id() == type_id,
    {
        self.type_id = type_id;
    }

    /// Whether the id is filed under the node type `T`.
    pub fn is<T: Expression>(&self) -> (r: bool)
        ensures
            r == (self.spec_type_id() == T::spec_kind()),
    {
        self.type_id == T::kind()
    }
}

/// Two ids are equal exactly when their numbers and node types are.
pub proof fn lemma_query_id_eq(a: QueryId, b: QueryId)
    ensures
        (a == b) <==> (a.spec_id() == b.spec_id() && a.spec_type_id() == b.spec_type_id()),
{
}

} // verus!
