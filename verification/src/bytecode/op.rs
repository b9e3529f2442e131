//! The operator table of the second opcode reader, which also knows `~`.

use vstd::prelude::*;
use crate::text::str_eq;

verus! {

/// An operator of a binary operation, and its spelling in Python source.
#[derive(Debug, Clone, Copy, PartialEq, Eq, Hash, Structural)]
pub enum OP {
    Add,
    Sub,
    Mul,
    Div,
    Mod,
    Xor,
    Or,
    And,
    Not,
    Eq,
    Ne,
    Gt,
    Lt,
    Ge,
    Le,
    AddEq,
    SubEq,
    MulEq,
    DivEq,
    ModEq,
    XorEq,
    OrEq,
    AndEq,
    NotEq,
}

impl OP {
    /// The Python spelling of the operator.
    pub open spec fn symbol(self) -> Seq<char> {
        match self {
            OP::Add => "+"@,
            OP::Sub => "-"@,
            OP::Mul => "*"@,
            OP::Div => "/"@,
            OP::Mod => "%"@,
            OP::Xor => "^"@,
            OP::Or => "|"@,
            OP::And => "&"@,
            OP::Not => "~"@,
            OP::Eq => "=="@,
            OP::Ne => "!="@,
            OP::Gt => ">"@,
            OP::Lt => "<"@,
            OP::Ge => ">="@,
            OP::Le => "<="@,
            OP::AddEq => "+="@,
            OP::SubEq => "-="@,
            OP::MulEq => "*="@,
            OP::DivEq => "/="@,
            OP::ModEq => "%="@,
            OP::XorEq => "^="@,
            OP::OrEq => "|="@,
            OP::AndEq => "&="@,
            OP::NotEq => "~="@,
        }
    }

    /// The operator spelled `s`, if there is one.
    pub open spec fn spelled(s: Seq<char>) -> Option<OP> {
        if exists|op: OP| op.symbol() == s {
            Some(choose|op: OP| op.symbol() == s)
        } else {
            None
        }
    }

    /// The operator spelled `s`, if any.
    pub fn from_str(s: &str) -> (r: Option<OP>)
        ensures
            r == OP::spelled(s@),
    {
        let r = Self::lookup(s);
        proof {
            if let Some(op) = r {
                let c = choose|x: OP| x.symbol() == s@;
                if c != op {
                    lemma_symbols_distinct(c, op);
                }
            }
        }
        r
    }

    fn lookup(s: &str) -> (r: Option<OP>)
        ensures
            r matches Some(op) ==> op.symbol() == s@,
            r is None ==> forall|op: OP| op.symbol() != s@,
    {
        if str_eq(s, "+") {
            return Some(OP::Add);
        }
        if str_eq(s, "-") {
            return Some(OP::Sub);
        }
        if str_eq(s, "*") {
            return Some(OP::Mul);
        }
        if str_eq(s, "/") {
            return Some(OP::Div);
        }
        if str_eq(s, "%") {
            return Some(OP::Mod);
        }
        if str_eq(s, "^") {
            return Some(OP::Xor);
        }
        if str_eq(s, "|") {
            return Some(OP::Or);
        }
        if str_eq(s, "&") {
            return Some(OP::And);
        }
        if str_eq(s, "~") {
            return Some(OP::Not);
        }
        if str_eq(s, "==") {
            return Some(OP::Eq);
        }
        if str_eq(s, "!=") {
            return Some(OP::Ne);
        }
        if str_eq(s, ">") {
            return Some(OP::Gt);
        }
        if str_eq(s, "<") {
            return Some(OP::Lt);
        }
        if str_eq(s, ">=") {
            return Some(OP::Ge);
        }
        if str_eq(s, "<=") {
            return Some(OP::Le);
        }
        if str_eq(s, "+=") {
            return Some(OP::AddEq);
        }
        if str_eq(s, "-=") {
            return Some(OP::SubEq);
        }
        if str_eq(s, "*=") {
            return Some(OP::MulEq);
        }
        if str_eq(s, "/=") {
            return Some(OP::DivEq);
        }
        if str_eq(s, "%=") {
            return Some(OP::ModEq);
        }
        if str_eq(s, "^=") {
            return Some(OP::XorEq);
        }
        if str_eq(s, "|=") {
            return Some(OP::OrEq);
        }
        if str_eq(s, "&=") {
            return Some(OP::AndEq);
        }
        if str_eq(s, "~=") {
            return Some(OP::NotEq);
        }
        proof {
            assert forall|op: OP| op.symbol() != s@ by {
                match op {
                    OP::Add => {},
                    OP::Sub => {},
                    OP::Mul => {},
                    OP::Div => {},
                    OP::Mod => {},
                    OP::Xor => {},
                    OP::Or => {},
                    OP::And => {},
                    OP::Not => {},
                    OP::Eq => {},
                    OP::Ne => {},
                    OP::Gt => {},
                    OP::Lt => {},
                    OP::Ge => {},
                    OP::Le => {},
                    OP::AddEq => {},
                    OP::SubEq => {},
                    OP::MulEq => {},
                    OP::DivEq => {},
                    OP::ModEq => {},
                    OP::XorEq => {},
                    OP::OrEq => {},
                    OP::AndEq => {},
                    OP::NotEq => {},
                }
            }
        }
        None
    }

    /// The Python spelling of the operator.
    pub fn to_str(self) -> (r: &'static str)
        ensures
            r@ == self.symbol(),
    {
        match self {
            OP::Add => "+",
            OP::Sub => "-",
            OP::Mul => "*",
            OP::Div => "/",
            OP::Mod => "%",
            OP::Xor => "^",
            OP::Or => "|",
            OP::And => "&",
            OP::Not => "~",
            OP::Eq => "==",
            OP::Ne => "!=",
            OP::Gt => ">",
            OP::Lt => "<",
            OP::Ge => ">=",
            OP::Le => "<=",
            OP::AddEq => "+=",
            OP::SubEq => "-=",
            OP::MulEq => "*=",
            OP::DivEq => "/=",
            OP::ModEq => "%=",
            OP::XorEq => "^=",
            OP::OrEq => "|=",
            OP::AndEq => "&=",
            OP::NotEq => "~=",
        }
    }

    /// `left`, the operator and `right`, separated by single spaces.
    pub fn get_expr(&self, left: &str, right: &str) -> (r: String)
        ensures
            r@ == left@ + " "@ + self.symbol() + " "@ + right@,
    {
        let mut r = String::from_str(left);
        r.append(" ");
        r.append(self.to_str());
        r.append(" ");
        r.append(right);
        r
    }
}

/// No two operators share a spelling.
pub proof fn lemma_symbols_distinct(a: OP, b: OP)
    requires
        a != b,
    ensures
        a.symbol() != b.symbol(),
{
    reveal_strlit("+");
    reveal_strlit("-");
    reveal_strlit("*");
    reveal_strlit("/");
    reveal_strlit("%");
    reveal_strlit("^");
    reveal_strlit("|");
    reveal_strlit("&");
    reveal_strlit("~");
    reveal_strlit("==");
    reveal_strlit("!=");
    reveal_strlit(">");
    reveal_strlit("<");
    reveal_strlit(">=");
    reveal_strlit("<=");
    reveal_strlit("+=");
    reveal_strlit("-=");
    reveal_strlit("*=");
    reveal_strlit("/=");
    reveal_strlit("%=");
    reveal_strlit("^=");
    reveal_strlit("|=");
    reveal_strlit("&=");
    reveal_strlit("~=");
    match a {
        OP::Add => match b {
            OP::Sub => assert(a.symbol()[0] != b.symbol()[0]),
            OP::Mul => assert(a.symbol()[0] != b.symbol()[0]),
            OP::Div => assert(a.symbol()[0] != b.symbol()[0]),
            OP::Mod => assert(a.symbol()[0] != b.symbol()[0]),
            OP::Xor => assert(a.symbol()[0] != b.symbol()[0]),
            OP::Or => assert(a.symbol()[0] != b.symbol()[0]),
            OP::And => assert(a.symbol()[0] != b.symbol()[0]),
            OP::Not => assert(a.symbol()[0] != b.symbol()[0]),
            OP::Eq => assert(a.symbol().len() != b.symbol().len()),
            OP::Ne => assert(a.symbol().len() != b.symbol().len()),
            OP::Gt => assert(a.symbol()[0] != b.symbol()[0]),
            OP::Lt => assert(a.symbol()[0] != b.symbol()[0]),
            OP::Ge => assert(a.symbol().len() != b.symbol().len()),
            OP::Le => assert(a.symbol().len() != b.symbol().len()),
            OP::AddEq => assert(a.symbol().len() != b.symbol().len()),
            OP::SubEq => assert(a.symbol().len() != b.symbol().len()),
            OP::MulEq => assert(a.symbol().len() != b.symbol().len()),
            OP::DivEq => assert(a.symbol().len() != b.symbol().len()),
            OP::ModEq => assert(a.symbol().len() != b.symbol().len()),
            OP::XorEq => assert(a.symbol().len() != b.symbol().len()),
            OP::OrEq => assert(a.symbol().len() != b.symbol().len()),
            OP::AndEq => assert(a.symbol().len() != b.symbol().len()),
            OP::NotEq => assert(a.symbol().len() != b.symbol().len()),
            OP::Add => {},
        },
        OP::Sub => match b {
            OP::Add => assert(a.symbol()[0] != b.symbol()[0]),
            OP::Mul => assert(a.symbol()[0] != b.symbol()[0]),
            OP::Div => assert(a.symbol()[0] != b.symbol()[0]),
            OP::Mod => assert(a.symbol()[0] != b.symbol()[0]),
            OP::Xor => assert(a.symbol()[0] != b.symbol()[0]),
            OP::Or => assert(a.symbol()[0] != b.symbol()[0]),
            OP::And => assert(a.symbol()[0] != b.symbol()[0]),
            OP::Not => assert(a.symbol()[0] != b.symbol()[0]),
            OP::Eq => assert(a.symbol().len() != b.symbol().len()),
            OP::Ne => assert(a.symbol().len() != b.symbol().len()),
            OP::Gt => assert(a.symbol()[0] != b.symbol()[0]),
            OP::Lt => assert(a.symbol()[0] != b.symbol()[0]),
            OP::Ge => assert(a.symbol().len() != b.symbol().len()),
            OP::Le => assert(a.symbol().len() != b.symbol().len()),
            OP::AddEq => assert(a.symbol().len() != b.symbol().len()),
            OP::SubEq => assert(a.symbol().len() != b.symbol().len()),
            OP::MulEq => assert(a.symbol().len() != b.symbol().len()),
            OP::DivEq => assert(a.symbol().len() != b.symbol().len()),
            OP::ModEq => assert(a.symbol().len() != b.symbol().len()),
            OP::XorEq => assert(a.symbol().len() != b.symbol().len()),
            OP::OrEq => assert(a.symbol().len() != b.symbol().len()),
            OP::AndEq => assert(a.symbol().len() != b.symbol().len()),
            OP::NotEq => assert(a.symbol().len() != b.symbol().len()),
            OP::Sub => {},
        },
        OP::Mul => match b {
            OP::Add => assert(a.symbol()[0] != b.symbol()[0]),
            OP::Sub => assert(a.symbol()[0] != b.symbol()[0]),
            OP::Div => assert(a.symbol()[0] != b.symbol()[0]),
            OP::Mod => assert(a.symbol()[0] != b.symbol()[0]),
            OP::Xor => assert(a.symbol()[0] != b.symbol()[0]),
            OP::Or => assert(a.symbol()[0] != b.symbol()[0]),
            OP::And => assert(a.symbol()[0] != b.symbol()[0]),
            OP::Not => assert(a.symbol()[0] != b.symbol()[0]),
            OP::Eq => assert(a.symbol().len() != b.symbol().len()),
            OP::Ne => assert(a.symbol().len() != b.symbol().len()),
            OP::Gt => assert(a.symbol()[0] != b.symbol()[0]),
            OP::Lt => assert(a.symbol()[0] != b.symbol()[0]),
            OP::Ge => assert(a.symbol().len() != b.symbol().len()),
            OP::Le => assert(a.symbol().len() != b.symbol().len()),
            OP::AddEq => assert(a.symbol().len() != b.symbol().len()),
            OP::SubEq => assert(a.symbol().len() != b.symbol().len()),
            OP::MulEq => assert(a.symbol().len() != b.symbol().len()),
            OP::DivEq => assert(a.symbol().len() != b.symbol().len()),
            OP::ModEq => assert(a.symbol().len() != b.symbol().len()),
            OP::XorEq => assert(a.symbol().len() != b.symbol().len()),
            OP::OrEq => assert(a.symbol().len() != b.symbol().len()),
            OP::AndEq => assert(a.symbol().len() != b.symbol().len()),
            OP::NotEq => assert(a.symbol().len() != b.symbol().len()),
            OP::Mul => {},
        },
        OP::Div => match b {
            OP::Add => assert(a.symbol()[0] != b.symbol()[0]),
            OP::Sub => assert(a.symbol()[0] != b.symbol()[0]),
            OP::Mul => assert(a.symbol()[0] != b.symbol()[0]),
            OP::Mod => assert(a.symbol()[0] != b.symbol()[0]),
            OP::Xor => assert(a.symbol()[0] != b.symbol()[0]),
            OP::Or => assert(a.symbol()[0] != b.symbol()[0]),
            OP::And => assert(a.symbol()[0] != b.symbol()[0]),
            OP::Not => assert(a.symbol()[0] != b.symbol()[0]),
            OP::Eq => assert(a.symbol().len() != b.symbol().len()),
            OP::Ne => assert(a.symbol().len() != b.symbol().len()),
            OP::Gt => assert(a.symbol()[0] != b.symbol()[0]),
            OP::Lt => assert(a.symbol()[0] != b.symbol()[0]),
            OP::Ge => assert(a.symbol().len() != b.symbol().len()),
            OP::Le => assert(a.symbol().len() != b.symbol().len()),
            OP::AddEq => assert(a.symbol().len() != b.symbol().len()),
            OP::SubEq => assert(a.symbol().len() != b.symbol().len()),
            OP::MulEq => assert(a.symbol().len() != b.symbol().len()),
            OP::DivEq => assert(a.symbol().len() != b.symbol().len()),
            OP::ModEq => assert(a.symbol().len() != b.symbol().len()),
            OP::XorEq => assert(a.symbol().len() != b.symbol().len()),
            OP::OrEq => assert(a.symbol().len() != b.symbol().len()),
            OP::AndEq => assert(a.symbol().len() != b.symbol().len()),
            OP::NotEq => assert(a.symbol().len() != b.symbol().len()),
            OP::Div => {},
        },
        OP::Mod => match b {
            OP::Add => assert(a.symbol()[0] != b.symbol()[0]),
            OP::Sub => assert(a.symbol()[0] != b.symbol()[0]),
            OP::Mul => assert(a.symbol()[0] != b.symbol()[0]),
            OP::Div => assert(a.symbol()[0] != b.symbol()[0]),
            OP::Xor => assert(a.symbol()[0] != b.symbol()[0]),
            OP::Or => assert(a.symbol()[0] != b.symbol()[0]),
            OP::And => assert(a.symbol()[0] != b.symbol()[0]),
            OP::Not => assert(a.symbol()[0] != b.symbol()[0]),
            OP::Eq => assert(a.symbol().len() != b.symbol().len()),
            OP::Ne => assert(a.symbol().len() != b.symbol().len()),
            OP::Gt => assert(a.symbol()[0] != b.symbol()[0]),
            OP::Lt => assert(a.symbol()[0] != b.symbol()[0]),
            OP::Ge => assert(a.symbol().len() != b.symbol().len()),
            OP::Le => assert(a.symbol().len() != b.symbol().len()),
            OP::AddEq => assert(a.symbol().len() != b.symbol().len()),
            OP::SubEq => assert(a.symbol().len() != b.symbol().len()),
            OP::MulEq => assert(a.symbol().len() != b.symbol().len()),
            OP::DivEq => assert(a.symbol().len() != b.symbol().len()),
            OP::ModEq => assert(a.symbol().len() != b.symbol().len()),
            OP::XorEq => assert(a.symbol().len() != b.symbol().len()),
            OP::OrEq => assert(a.symbol().len() != b.symbol().len()),
            OP::AndEq => assert(a.symbol().len() != b.symbol().len()),
            OP::NotEq => assert(a.symbol().len() != b.symbol().len()),
            OP::Mod => {},
        },
        OP::Xor => match b {
            OP::Add => assert(a.symbol()[0] != b.symbol()[0]),
            OP::Sub => assert(a.symbol()[0] != b.symbol()[0]),
            OP::Mul => assert(a.symbol()[0] != b.symbol()[0]),
            OP::Div => assert(a.symbol()[0] != b.symbol()[0]),
            OP::Mod => assert(a.symbol()[0] != b.symbol()[0]),
            OP::Or => assert(a.symbol()[0] != b.symbol()[0]),
            OP::And => assert(a.symbol()[0] != b.symbol()[0]),
            OP::Not => assert(a.symbol()[0] != b.symbol()[0]),
            OP::Eq => assert(a.symbol().len() != b.symbol().len()),
            OP::Ne => assert(a.symbol().len() != b.symbol().len()),
            OP::Gt => assert(a.symbol()[0] != b.symbol()[0]),
            OP::Lt => assert(a.symbol()[0] != b.symbol()[0]),
            OP::Ge => assert(a.symbol().len() != b.symbol().len()),
            OP::Le => assert(a.symbol().len() != b.symbol().len()),
            OP::AddEq => assert(a.symbol().len() != b.symbol().len()),
            OP::SubEq => assert(a.symbol().len() != b.symbol().len()),
            OP::MulEq => assert(a.symbol().len() != b.symbol().len()),
            OP::DivEq => assert(a.symbol().len() != b.symbol().len()),
            OP::ModEq => assert(a.symbol().len() != b.symbol().len()),
            OP::XorEq => assert(a.symbol().len() != b.symbol().len()),
            OP::OrEq => assert(a.symbol().len() != b.symbol().len()),
            OP::AndEq => assert(a.symbol().len() != b.symbol().len()),
            OP::NotEq => assert(a.symbol().len() != b.symbol().len()),
            OP::Xor => {},
        },
        OP::Or => match b {
            OP::Add => assert(a.symbol()[0] != b.symbol()[0]),
            OP::Sub => assert(a.symbol()[0] != b.symbol()[0]),
            OP::Mul => assert(a.symbol()[0] != b.symbol()[0]),
            OP::Div => assert(a.symbol()[0] != b.symbol()[0]),
            OP::Mod => assert(a.symbol()[0] != b.symbol()[0]),
            OP::Xor => assert(a.symbol()[0] != b.symbol()[0]),
            OP::And => assert(a.symbol()[0] != b.symbol()[0]),
            OP::Not => assert(a.symbol()[0] != b.symbol()[0]),
            OP::Eq => assert(a.symbol().len() != b.symbol().len()),
            OP::Ne => assert(a.symbol().len() != b.symbol().len()),
            OP::Gt => assert(a.symbol()[0] != b.symbol()[0]),
            OP::Lt => assert(a.symbol()[0] != b.symbol()[0]),
            OP::Ge => assert(a.symbol().len() != b.symbol().len()),
            OP::Le => assert(a.symbol().len() != b.symbol().len()),
            OP::AddEq => assert(a.symbol().len() != b.symbol().len()),
            OP::SubEq => assert(a.symbol().len() != b.symbol().len()),
            OP::MulEq => assert(a.symbol().len() != b.symbol().len()),
            OP::DivEq => assert(a.symbol().len() != b.symbol().len()),
            OP::ModEq => assert(a.symbol().len() != b.symbol().len()),
            OP::XorEq => assert(a.symbol().len() != b.symbol().len()),
            OP::OrEq => assert(a.symbol().len() != b.symbol().len()),
            OP::AndEq => assert(a.symbol().len() != b.symbol().len()),
            OP::NotEq => assert(a.symbol().len() != b.symbol().len()),
            OP::Or => {},
        },
        OP::And => match b {
            OP::Add => assert(a.symbol()[0] != b.symbol()[0]),
            OP::Sub => assert(a.symbol()[0] != b.symbol()[0]),
            OP::Mul => assert(a.symbol()[0] != b.symbol()[0]),
            OP::Div => assert(a.symbol()[0] != b.symbol()[0]),
            OP::Mod => assert(a.symbol()[0] != b.symbol()[0]),
            OP::Xor => assert(a.symbol()[0] != b.symbol()[0]),
            OP::Or => assert(a.symbol()[0] != b.symbol()[0]),
            OP::Not => assert(a.symbol()[0] != b.symbol()[0]),
            OP::Eq => assert(a.symbol().len() != b.symbol().len()),
            OP::Ne => assert(a.symbol().len() != b.symbol().len()),
            OP::Gt => assert(a.symbol()[0] != b.symbol()[0]),
            OP::Lt => assert(a.symbol()[0] != b.symbol()[0]),
            OP::Ge => assert(a.symbol().len() != b.symbol().len()),
            OP::Le => assert(a.symbol().len() != b.symbol().len()),
            OP::AddEq => assert(a.symbol().len() != b.symbol().len()),
            OP::SubEq => assert(a.symbol().len() != b.symbol().len()),
            OP::MulEq => assert(a.symbol().len() != b.symbol().len()),
            OP::DivEq => assert(a.symbol().len() != b.symbol().len()),
            OP::ModEq => assert(a.symbol().len() != b.symbol().len()),
            OP::XorEq => assert(a.symbol().len() != b.symbol().len()),
            OP::OrEq => assert(a.symbol().len() != b.symbol().len()),
            OP::AndEq => assert(a.symbol().len() != b.symbol().len()),
            OP::NotEq => assert(a.symbol().len() != b.symbol().len()),
            OP::And => {},
        },
        OP::Not => match b {
            OP::Add => assert(a.symbol()[0] != b.symbol()[0]),
            OP::Sub => assert(a.symbol()[0] != b.symbol()[0]),
            OP::Mul => assert(a.symbol()[0] != b.symbol()[0]),
            OP::Div => assert(a.symbol()[0] != b.symbol()[0]),
            OP::Mod => assert(a.symbol()[0] != b.symbol()[0]),
            OP::Xor => assert(a.symbol()[0] != b.symbol()[0]),
            OP::Or => assert(a.symbol()[0] != b.symbol()[0]),
            OP::And => assert(a.symbol()[0] != b.symbol()[0]),
            OP::Eq => assert(a.symbol().len() != b.symbol().len()),
            OP::Ne => assert(a.symbol().len() != b.symbol().len()),
            OP::Gt => assert(a.symbol()[0] != b.symbol()[0]),
            OP::Lt => assert(a.symbol()[0] != b.symbol()[0]),
            OP::Ge => assert(a.symbol().len() != b.symbol().len()),
            OP::Le => assert(a.symbol().len() != b.symbol().len()),
            OP::AddEq => assert(a.symbol().len() != b.symbol().len()),
            OP::SubEq => assert(a.symbol().len() != b.symbol().len()),
            OP::MulEq => assert(a.symbol().len() != b.symbol().len()),
            OP::DivEq => assert(a.symbol().len() != b.symbol().len()),
            OP::ModEq => assert(a.symbol().len() != b.symbol().len()),
            OP::XorEq => assert(a.symbol().len() != b.symbol().len()),
            OP::OrEq => assert(a.symbol().len() != b.symbol().len()),
            OP::AndEq => assert(a.symbol().len() != b.symbol().len()),
            OP::NotEq => assert(a.symbol().len() != b.symbol().len()),
            OP::Not => {},
        },
        OP::Eq => match b {
            OP::Add => assert(a.symbol().len() != b.symbol().len()),
            OP::Sub => assert(a.symbol().len() != b.symbol().len()),
            OP::Mul => assert(a.symbol().len() != b.symbol().len()),
            OP::Div => assert(a.symbol().len() != b.symbol().len()),
            OP::Mod => assert(a.symbol().len() != b.symbol().len()),
            OP::Xor => assert(a.symbol().len() != b.symbol().len()),
            OP::Or => assert(a.symbol().len() != b.symbol().len()),
            OP::And => assert(a.symbol().len() != b.symbol().len()),
            OP::Not => assert(a.symbol().len() != b.symbol().len()),
            OP::Ne => assert(a.symbol()[0] != b.symbol()[0]),
            OP::Gt => assert(a.symbol().len() != b.symbol().len()),
            OP::Lt => assert(a.symbol().len() != b.symbol().len()),
            OP::Ge => assert(a.symbol()[0] != b.symbol()[0]),
            OP::Le => assert(a.symbol()[0] != b.symbol()[0]),
            OP::AddEq => assert(a.symbol()[0] != b.symbol()[0]),
            OP::SubEq => assert(a.symbol()[0] != b.symbol()[0]),
            OP::MulEq => assert(a.symbol()[0] != b.symbol()[0]),
            OP::DivEq => assert(a.symbol()[0] != b.symbol()[0]),
            OP::ModEq => assert(a.symbol()[0] != b.symbol()[0]),
            OP::XorEq => assert(a.symbol()[0] != b.symbol()[0]),
            OP::OrEq => assert(a.symbol()[0] != b.symbol()[0]),
            OP::AndEq => assert(a.symbol()[0] != b.symbol()[0]),
            OP::NotEq => assert(a.symbol()[0] != b.symbol()[0]),
            OP::Eq => {},
        },
        OP::Ne => match b {
            OP::Add => assert(a.symbol().len() != b.symbol().len()),
            OP::Sub => assert(a.symbol().len() != b.symbol().len()),
            OP::Mul => assert(a.symbol().len() != b.symbol().len()),
            OP::Div => assert(a.symbol().len() != b.symbol().len()),
            OP::Mod => assert(a.symbol().len() != b.symbol().len()),
            OP::Xor => assert(a.symbol().len() != b.symbol().len()),
            OP::Or => assert(a.symbol().len() != b.symbol().len()),
            OP::And => assert(a.symbol().len() != b.symbol().len()),
            OP::Not => assert(a.symbol().len() != b.symbol().len()),
            OP::Eq => assert(a.symbol()[0] != b.symbol()[0]),
            OP::Gt => assert(a.symbol().len() != b.symbol().len()),
            OP::Lt => assert(a.symbol().len() != b.symbol().len()),
            OP::Ge => assert(a.symbol()[0] != b.symbol()[0]),
            OP::Le => assert(a.symbol()[0] != b.symbol()[0]),
            OP::AddEq => assert(a.symbol()[0] != b.symbol()[0]),
            OP::SubEq => assert(a.symbol()[0] != b.symbol()[0]),
            OP::MulEq => assert(a.symbol()[0] != b.symbol()[0]),
            OP::DivEq => assert(a.symbol()[0] != b.symbol()[0]),
            OP::ModEq => assert(a.symbol()[0] != b.symbol()[0]),
            OP::XorEq => assert(a.symbol()[0] != b.symbol()[0]),
            OP::OrEq => assert(a.symbol()[0] != b.symbol()[0]),
            OP::AndEq => assert(a.symbol()[0] != b.symbol()[0]),
            OP::NotEq => assert(a.symbol()[0] != b.symbol()[0]),
            OP::Ne => {},
        },
        OP::Gt => match b {
            OP::Add => assert(a.symbol()[0] != b.symbol()[0]),
            OP::Sub => assert(a.symbol()[0] != b.symbol()[0]),
            OP::Mul => assert(a.symbol()[0] != b.symbol()[0]),
            OP::Div => assert(a.symbol()[0] != b.symbol()[0]),
            OP::Mod => assert(a.symbol()[0] != b.symbol()[0]),
            OP::Xor => assert(a.symbol()[0] != b.symbol()[0]),
            OP::Or => assert(a.symbol()[0] != b.symbol()[0]),
            OP::And => assert(a.symbol()[0] != b.symbol()[0]),
            OP::Not => assert(a.symbol()[0] != b.symbol()[0]),
            OP::Eq => assert(a.symbol().len() != b.symbol().len()),
            OP::Ne => assert(a.symbol().len() != b.symbol().len()),
            OP::Lt => assert(a.symbol()[0] != b.symbol()[0]),
            OP::Ge => assert(a.symbol().len() != b.symbol().len()),
            OP::Le => assert(a.symbol().len() != b.symbol().len()),
            OP::AddEq => assert(a.symbol().len() != b.symbol().len()),
            OP::SubEq => assert(a.symbol().len() != b.symbol().len()),
            OP::MulEq => assert(a.symbol().len() != b.symbol().len()),
            OP::DivEq => assert(a.symbol().len() != b.symbol().len()),
            OP::ModEq => assert(a.symbol().len() != b.symbol().len()),
            OP::XorEq => assert(a.symbol().len() != b.symbol().len()),
            OP::OrEq => assert(a.symbol().len() != b.symbol().len()),
            OP::AndEq => assert(a.symbol().len() != b.symbol().len()),
            OP::NotEq => assert(a.symbol().len() != b.symbol().len()),
            OP::Gt => {},
        },
        OP::Lt => match b {
            OP::Add => assert(a.symbol()[0] != b.symbol()[0]),
            OP::Sub => assert(a.symbol()[0] != b.symbol()[0]),
            OP::Mul => assert(a.symbol()[0] != b.symbol()[0]),
            OP::Div => assert(a.symbol()[0] != b.symbol()[0]),
            OP::Mod => assert(a.symbol()[0] != b.symbol()[0]),
            OP::Xor => assert(a.symbol()[0] != b.symbol()[0]),
            OP::Or => assert(a.symbol()[0] != b.symbol()[0]),
            OP::And => assert(a.symbol()[0] != b.symbol()[0]),
            OP::Not => assert(a.symbol()[0] != b.symbol()[0]),
            OP::Eq => assert(a.symbol().len() != b.symbol().len()),
            OP::Ne => assert(a.symbol().len() != b.symbol().len()),
            OP::Gt => assert(a.symbol()[0] != b.symbol()[0]),
            OP::Ge => assert(a.symbol().len() != b.symbol().len()),
            OP::Le => assert(a.symbol().len() != b.symbol().len()),
            OP::AddEq => assert(a.symbol().len() != b.symbol().len()),
            OP::SubEq => assert(a.symbol().len() != b.symbol().len()),
            OP::MulEq => assert(a.symbol().len() != b.symbol().len()),
            OP::DivEq => assert(a.symbol().len() != b.symbol().len()),
            OP::ModEq => assert(a.symbol().len() != b.symbol().len()),
            OP::XorEq => assert(a.symbol().len() != b.symbol().len()),
            OP::OrEq => assert(a.symbol().len() != b.symbol().len()),
            OP::AndEq => assert(a.symbol().len() != b.symbol().len()),
            OP::NotEq => assert(a.symbol().len() != b.symbol().len()),
            OP::Lt => {},
        },
        OP::Ge => match b {
            OP::Add => assert(a.symbol().len() != b.symbol().len()),
            OP::Sub => assert(a.symbol().len() != b.symbol().len()),
            OP::Mul => assert(a.symbol().len() != b.symbol().len()),
            OP::Div => assert(a.symbol().len() != b.symbol().len()),
            OP::Mod => assert(a.symbol().len() != b.symbol().len()),
            OP::Xor => assert(a.symbol().len() != b.symbol().len()),
            OP::Or => assert(a.symbol().len() != b.symbol().len()),
            OP::And => assert(a.symbol().len() != b.symbol().len()),
            OP::Not => assert(a.symbol().len() != b.symbol().len()),
            OP::Eq => assert(a.symbol()[0] != b.symbol()[0]),
            OP::Ne => assert(a.symbol()[0] != b.symbol()[0]),
            OP::Gt => assert(a.symbol().len() != b.symbol().len()),
            OP::Lt => assert(a.symbol().len() != b.symbol().len()),
            OP::Le => assert(a.symbol()[0] != b.symbol()[0]),
            OP::AddEq => assert(a.symbol()[0] != b.symbol()[0]),
            OP::SubEq => assert(a.symbol()[0] != b.symbol()[0]),
            OP::MulEq => assert(a.symbol()[0] != b.symbol()[0]),
            OP::DivEq => assert(a.symbol()[0] != b.symbol()[0]),
            OP::ModEq => assert(a.symbol()[0] != b.symbol()[0]),
            OP::XorEq => assert(a.symbol()[0] != b.symbol()[0]),
            OP::OrEq => assert(a.symbol()[0] != b.symbol()[0]),
            OP::AndEq => assert(a.symbol()[0] != b.symbol()[0]),
            OP::NotEq => assert(a.symbol()[0] != b.symbol()[0]),
            OP::Ge => {},
        },
        OP::Le => match b {
            OP::Add => assert(a.symbol().len() != b.symbol().len()),
            OP::Sub => assert(a.symbol().len() != b.symbol().len()),
            OP::Mul => assert(a.symbol().len() != b.symbol().len()),
            OP::Div => assert(a.symbol().len() != b.symbol().len()),
            OP::Mod => assert(a.symbol().len() != b.symbol().len()),
            OP::Xor => assert(a.symbol().len() != b.symbol().len()),
            OP::Or => assert(a.symbol().len() != b.symbol().len()),
            OP::And => assert(a.symbol().len() != b.symbol().len()),
            OP::Not => assert(a.symbol().len() != b.symbol().len()),
            OP::Eq => assert(a.symbol()[0] != b.symbol()[0]),
            OP::Ne => assert(a.symbol()[0] != b.symbol()[0]),
            OP::Gt => assert(a.symbol().len() != b.symbol().len()),
            OP::Lt => assert(a.symbol().len() != b.symbol().len()),
            OP::Ge => assert(a.symbol()[0] != b.symbol()[0]),
            OP::AddEq => assert(a.symbol()[0] != b.symbol()[0]),
            OP::SubEq => assert(a.symbol()[0] != b.symbol()[0]),
            OP::MulEq => assert(a.symbol()[0] != b.symbol()[0]),
            OP::DivEq => assert(a.symbol()[0] != b.symbol()[0]),
            OP::ModEq => assert(a.symbol()[0] != b.symbol()[0]),
            OP::XorEq => assert(a.symbol()[0] != b.symbol()[0]),
            OP::OrEq => assert(a.symbol()[0] != b.symbol()[0]),
            OP::AndEq => assert(a.symbol()[0] != b.symbol()[0]),
            OP::NotEq => assert(a.symbol()[0] != b.symbol()[0]),
            OP::Le => {},
        },
        OP::AddEq => match b {
            OP::Add => assert(a.symbol().len() != b.symbol().len()),
            OP::Sub => assert(a.symbol().len() != b.symbol().len()),
            OP::Mul => assert(a.symbol().len() != b.symbol().len()),
            OP::Div => assert(a.symbol().len() != b.symbol().len()),
            OP::Mod => assert(a.symbol().len() != b.symbol().len()),
            OP::Xor => assert(a.symbol().len() != b.symbol().len()),
            OP::Or => assert(a.symbol().len() != b.symbol().len()),
            OP::And => assert(a.symbol().len() != b.symbol().len()),
            OP::Not => assert(a.symbol().len() != b.symbol().len()),
            OP::Eq => assert(a.symbol()[0] != b.symbol()[0]),
            OP::Ne => assert(a.symbol()[0] != b.symbol()[0]),
            OP::Gt => assert(a.symbol().len() != b.symbol().len()),
            OP::Lt => assert(a.symbol().len() != b.symbol().len()),
            OP::Ge => assert(a.symbol()[0] != b.symbol()[0]),
            OP::Le => assert(a.symbol()[0] != b.symbol()[0]),
            OP::SubEq => assert(a.symbol()[0] != b.symbol()[0]),
            OP::MulEq => assert(a.symbol()[0] != b.symbol()[0]),
            OP::DivEq => assert(a.symbol()[0] != b.symbol()[0]),
            OP::ModEq => assert(a.symbol()[0] != b.symbol()[0]),
            OP::XorEq => assert(a.symbol()[0] != b.symbol()[0]),
            OP::OrEq => assert(a.symbol()[0] != b.symbol()[0]),
            OP::AndEq => assert(a.symbol()[0] != b.symbol()[0]),
            OP::NotEq => assert(a.symbol()[0] != b.symbol()[0]),
            OP::AddEq => {},
        },
        OP::SubEq => match b {
            OP::Add => assert(a.symbol().len() != b.symbol().len()),
            OP::Sub => assert(a.symbol().len() != b.symbol().len()),
            OP::Mul => assert(a.symbol().len() != b.symbol().len()),
            OP::Div => assert(a.symbol().len() != b.symbol().len()),
            OP::Mod => assert(a.symbol().len() != b.symbol().len()),
            OP::Xor => assert(a.symbol().len() != b.symbol().len()),
            OP::Or => assert(a.symbol().len() != b.symbol().len()),
            OP::And => assert(a.symbol().len() != b.symbol().len()),
            OP::Not => assert(a.symbol().len() != b.symbol().len()),
            OP::Eq => assert(a.symbol()[0] != b.symbol()[0]),
            OP::Ne => assert(a.symbol()[0] != b.symbol()[0]),
            OP::Gt => assert(a.symbol().len() != b.symbol().len()),
            OP::Lt => assert(a.symbol().len() != b.symbol().len()),
            OP::Ge => assert(a.symbol()[0] != b.symbol()[0]),
            OP::Le => assert(a.symbol()[0] != b.symbol()[0]),
            OP::AddEq => assert(a.symbol()[0] != b.symbol()[0]),
            OP::MulEq => assert(a.symbol()[0] != b.symbol()[0]),
            OP::DivEq => assert(a.symbol()[0] != b.symbol()[0]),
            OP::ModEq => assert(a.symbol()[0] != b.symbol()[0]),
            OP::XorEq => assert(a.symbol()[0] != b.symbol()[0]),
            OP::OrEq => assert(a.symbol()[0] != b.symbol()[0]),
            OP::AndEq => assert(a.symbol()[0] != b.symbol()[0]),
            OP::NotEq => assert(a.symbol()[0] != b.symbol()[0]),
            OP::SubEq => {},
        },
        OP::MulEq => match b {
            OP::Add => assert(a.symbol().len() != b.symbol().len()),
            OP::Sub => assert(a.symbol().len() != b.symbol().len()),
            OP::Mul => assert(a.symbol().len() != b.symbol().len()),
            OP::Div => assert(a.symbol().len() != b.symbol().len()),
            OP::Mod => assert(a.symbol().len() != b.symbol().len()),
            OP::Xor => assert(a.symbol().len() != b.symbol().len()),
            OP::Or => assert(a.symbol().len() != b.symbol().len()),
            OP::And => assert(a.symbol().len() != b.symbol().len()),
            OP::Not => assert(a.symbol().len() != b.symbol().len()),
            OP::Eq => assert(a.symbol()[0] != b.symbol()[0]),
            OP::Ne => assert(a.symbol()[0] != b.symbol()[0]),
            OP::Gt => assert(a.symbol().len() != b.symbol().len()),
            OP::Lt => assert(a.symbol().len() != b.symbol().len()),
            OP::Ge => assert(a.symbol()[0] != b.symbol()[0]),
            OP::Le => assert(a.symbol()[0] != b.symbol()[0]),
            OP::AddEq => assert(a.symbol()[0] != b.symbol()[0]),
            OP::SubEq => assert(a.symbol()[0] != b.symbol()[0]),
            OP::DivEq => assert(a.symbol()[0] != b.symbol()[0]),
            OP::ModEq => assert(a.symbol()[0] != b.symbol()[0]),
            OP::XorEq => assert(a.symbol()[0] != b.symbol()[0]),
            OP::OrEq => assert(a.symbol()[0] != b.symbol()[0]),
            OP::AndEq => assert(a.symbol()[0] != b.symbol()[0]),
            OP::NotEq => assert(a.symbol()[0] != b.symbol()[0]),
            OP::MulEq => {},
        },
        OP::DivEq => match b {
            OP::Add => assert(a.symbol().len() != b.symbol().len()),
            OP::Sub => assert(a.symbol().len() != b.symbol().len()),
            OP::Mul => assert(a.symbol().len() != b.symbol().len()),
            OP::Div => assert(a.symbol().len() != b.symbol().len()),
            OP::Mod => assert(a.symbol().len() != b.symbol().len()),
            OP::Xor => assert(a.symbol().len() != b.symbol().len()),
            OP::Or => assert(a.symbol().len() != b.symbol().len()),
            OP::And => assert(a.symbol().len() != b.symbol().len()),
            OP::Not => assert(a.symbol().len() != b.symbol().len()),
            OP::Eq => assert(a.symbol()[0] != b.symbol()[0]),
            OP::Ne => assert(a.symbol()[0] != b.symbol()[0]),
            OP::Gt => assert(a.symbol().len() != b.symbol().len()),
            OP::Lt => assert(a.symbol().len() != b.symbol().len()),
            OP::Ge => assert(a.symbol()[0] != b.symbol()[0]),
            OP::Le => assert(a.symbol()[0] != b.symbol()[0]),
            OP::AddEq => assert(a.symbol()[0] != b.symbol()[0]),
            OP::SubEq => assert(a.symbol()[0] != b.symbol()[0]),
            OP::MulEq => assert(a.symbol()[0] != b.symbol()[0]),
            OP::ModEq => assert(a.symbol()[0] != b.symbol()[0]),
            OP::XorEq => assert(a.symbol()[0] != b.symbol()[0]),
            OP::OrEq => assert(a.symbol()[0] != b.symbol()[0]),
            OP::AndEq => assert(a.symbol()[0] != b.symbol()[0]),
            OP::NotEq => assert(a.symbol()[0] != b.symbol()[0]),
            OP::DivEq => {},
        },
        OP::ModEq => match b {
            OP::Add => assert(a.symbol().len() != b.symbol().len()),
            OP::Sub => assert(a.symbol().len() != b.symbol().len()),
            OP::Mul => assert(a.symbol().len() != b.symbol().len()),
            OP::Div => assert(a.symbol().len() != b.symbol().len()),
            OP::Mod => assert(a.symbol().len() != b.symbol().len()),
            OP::Xor => assert(a.symbol().len() != b.symbol().len()),
            OP::Or => assert(a.symbol().len() != b.symbol().len()),
            OP::And => assert(a.symbol().len() != b.symbol().len()),
            OP::Not => assert(a.symbol().len() != b.symbol().len()),
            OP::Eq => assert(a.symbol()[0] != b.symbol()[0]),
            OP::Ne => assert(a.symbol()[0] != b.symbol()[0]),
            OP::Gt => assert(a.symbol().len() != b.symbol().len()),
            OP::Lt => assert(a.symbol().len() != b.symbol().len()),
            OP::Ge => assert(a.symbol()[0] != b.symbol()[0]),
            OP::Le => assert(a.symbol()[0] != b.symbol()[0]),
            OP::AddEq => assert(a.symbol()[0] != b.symbol()[0]),
            OP::SubEq => assert(a.symbol()[0] != b.symbol()[0]),
            OP::MulEq => assert(a.symbol()[0] != b.symbol()[0]),
            OP::DivEq => assert(a.symbol()[0] != b.symbol()[0]),
            OP::XorEq => assert(a.symbol()[0] != b.symbol()[0]),
            OP::OrEq => assert(a.symbol()[0] != b.symbol()[0]),
            OP::AndEq => assert(a.symbol()[0] != b.symbol()[0]),
            OP::NotEq => assert(a.symbol()[0] != b.symbol()[0]),
            OP::ModEq => {},
        },
        OP::XorEq => match b {
            OP::Add => assert(a.symbol().len() != b.symbol().len()),
            OP::Sub => assert(a.symbol().len() != b.symbol().len()),
            OP::Mul => assert(a.symbol().len() != b.symbol().len()),
            OP::Div => assert(a.symbol().len() != b.symbol().len()),
            OP::Mod => assert(a.symbol().len() != b.symbol().len()),
            OP::Xor => assert(a.symbol().len() != b.symbol().len()),
            OP::Or => assert(a.symbol().len() != b.symbol().len()),
            OP::And => assert(a.symbol().len() != b.symbol().len()),
            OP::Not => assert(a.symbol().len() != b.symbol().len()),
            OP::Eq => assert(a.symbol()[0] != b.symbol()[0]),
            OP::Ne => assert(a.symbol()[0] != b.symbol()[0]),
            OP::Gt => assert(a.symbol().len() != b.symbol().len()),
            OP::Lt => assert(a.symbol().len() != b.symbol().len()),
            OP::Ge => assert(a.symbol()[0] != b.symbol()[0]),
            OP::Le => assert(a.symbol()[0] != b.symbol()[0]),
            OP::AddEq => assert(a.symbol()[0] != b.symbol()[0]),
            OP::SubEq => assert(a.symbol()[0] != b.symbol()[0]),
            OP::MulEq => assert(a.symbol()[0] != b.symbol()[0]),
            OP::DivEq => assert(a.symbol()[0] != b.symbol()[0]),
            OP::ModEq => assert(a.symbol()[0] != b.symbol()[0]),
            OP::OrEq => assert(a.symbol()[0] != b.symbol()[0]),
            OP::AndEq => assert(a.symbol()[0] != b.symbol()[0]),
            OP::NotEq => assert(a.symbol()[0] != b.symbol()[0]),
            OP::XorEq => {},
        },
        OP::OrEq => match b {
            OP::Add => assert(a.symbol().len() != b.symbol().len()),
            OP::Sub => assert(a.symbol().len() != b.symbol().len()),
            OP::Mul => assert(a.symbol().len() != b.symbol().len()),
            OP::Div => assert(a.symbol().len() != b.symbol().len()),
            OP::Mod => assert(a.symbol().len() != b.symbol().len()),
            OP::Xor => assert(a.symbol().len() != b.symbol().len()),
            OP::Or => assert(a.symbol().len() != b.symbol().len()),
            OP::And => assert(a.symbol().len() != b.symbol().len()),
            OP::Not => assert(a.symbol().len() != b.symbol().len()),
            OP::Eq => assert(a.symbol()[0] != b.symbol()[0]),
            OP::Ne => assert(a.symbol()[0] != b.symbol()[0]),
            OP::Gt => assert(a.symbol().len() != b.symbol().len()),
            OP::Lt => assert(a.symbol().len() != b.symbol().len()),
            OP::Ge => assert(a.symbol()[0] != b.symbol()[0]),
            OP::Le => assert(a.symbol()[0] != b.symbol()[0]),
            OP::AddEq => assert(a.symbol()[0] != b.symbol()[0]),
            OP::SubEq => assert(a.symbol()[0] != b.symbol()[0]),
            OP::MulEq => assert(a.symbol()[0] != b.symbol()[0]),
            OP::DivEq => assert(a.symbol()[0] != b.symbol()[0]),
            OP::ModEq => assert(a.symbol()[0] != b.symbol()[0]),
            OP::XorEq => assert(a.symbol()[0] != b.symbol()[0]),
            OP::AndEq => assert(a.symbol()[0] != b.symbol()[0]),
            OP::NotEq => assert(a.symbol()[0] != b.symbol()[0]),
            OP::OrEq => {},
        },
        OP::AndEq => match b {
            OP::Add => assert(a.symbol().len() != b.symbol().len()),
            OP::Sub => assert(a.symbol().len() != b.symbol().len()),
            OP::Mul => assert(a.symbol().len() != b.symbol().len()),
            OP::Div => assert(a.symbol().len() != b.symbol().len()),
            OP::Mod => assert(a.symbol().len() != b.symbol().len()),
            OP::Xor => assert(a.symbol().len() != b.symbol().len()),
            OP::Or => assert(a.symbol().len() != b.symbol().len()),
            OP::And => assert(a.symbol().len() != b.symbol().len()),
            OP::Not => assert(a.symbol().len() != b.symbol().len()),
            OP::Eq => assert(a.symbol()[0] != b.symbol()[0]),
            OP::Ne => assert(a.symbol()[0] != b.symbol()[0]),
            OP::Gt => assert(a.symbol().len() != b.symbol().len()),
            OP::Lt => assert(a.symbol().len() != b.symbol().len()),
            OP::Ge => assert(a.symbol()[0] != b.symbol()[0]),
            OP::Le => assert(a.symbol()[0] != b.symbol()[0]),
            OP::AddEq => assert(a.symbol()[0] != b.symbol()[0]),
            OP::SubEq => assert(a.symbol()[0] != b.symbol()[0]),
            OP::MulEq => assert(a.symbol()[0] != b.symbol()[0]),
            OP::DivEq => assert(a.symbol()[0] != b.symbol()[0]),
            OP::ModEq => assert(a.symbol()[0] != b.symbol()[0]),
            OP::XorEq => assert(a.symbol()[0] != b.symbol()[0]),
            OP::OrEq => assert(a.symbol()[0] != b.symbol()[0]),
            OP::NotEq => assert(a.symbol()[0] != b.symbol()[0]),
            OP::AndEq => {},
        },
        OP::NotEq => match b {
            OP::Add => assert(a.symbol().len() != b.symbol().len()),
            OP::Sub => assert(a.symbol().len() != b.symbol().len()),
            OP::Mul => assert(a.symbol().len() != b.symbol().len()),
            OP::Div => assert(a.symbol().len() != b.symbol().len()),
            OP::Mod => assert(a.symbol().len() != b.symbol().len()),
            OP::Xor => assert(a.symbol().len() != b.symbol().len()),
            OP::Or => assert(a.symbol().len() != b.symbol().len()),
            OP::And => assert(a.symbol().len() != b.symbol().len()),
            OP::Not => assert(a.symbol().len() != b.symbol().len()),
            OP::Eq => assert(a.symbol()[0] != b.symbol()[0]),
            OP::Ne => assert(a.symbol()[0] != b.symbol()[0]),
            OP::Gt => assert(a.symbol().len() != b.symbol().len()),
            OP::Lt => assert(a.symbol().len() != b.symbol().len()),
            OP::Ge => assert(a.symbol()[0] != b.symbol()[0]),
            OP::Le => assert(a.symbol()[0] != b.symbol()[0]),
            OP::AddEq => assert(a.symbol()[0] != b.symbol()[0]),
            OP::SubEq => assert(a.symbol()[0] != b.symbol()[0]),
            OP::MulEq => assert(a.symbol()[0] != b.symbol()[0]),
            OP::DivEq => assert(a.symbol()[0] != b.symbol()[0]),
            OP::ModEq => assert(a.symbol()[0] != b.symbol()[0]),
            OP::XorEq => assert(a.symbol()[0] != b.symbol()[0]),
            OP::OrEq => assert(a.symbol()[0] != b.symbol()[0]),
            OP::AndEq => assert(a.symbol()[0] != b.symbol()[0]),
            OP::NotEq => {},
        },
    }
}

/// Law: reading back the spelling of any operator gives that operator.
pub proof fn law_spelling_roundtrip(op: OP)
    ensures
        OP::spelled(op.symbol()) == Some(op),
{
    let c = choose|x: OP| x.symbol() == op.symbol();
    if c != op {
        lemma_symbols_distinct(c, op);
    }
}

/// Each Python operator text reads as the operator it names: `+` as
/// addition, `-` as subtraction, `~` as inversion, `==` as equality, `+=`
/// as in-place addition, and so on for every operator.
pub proof fn law_python_operator_texts()
    ensures
        OP::spelled("+"@) == Some(OP::Add),
        OP::spelled("-"@) == Some(OP::Sub),
        OP::spelled("*"@) == Some(OP::Mul),
        OP::spelled("/"@) == Some(OP::Div),
        OP::spelled("%"@) == Some(OP::Mod),
        OP::spelled("^"@) == Some(OP::Xor),
        OP::spelled("|"@) == Some(OP::Or),
        OP::spelled("&"@) == Some(OP::And),
        OP::spelled("~"@) == Some(OP::Not),
        OP::spelled("=="@) == Some(OP::Eq),
        OP::spelled("!="@) == Some(OP::Ne),
        OP::spelled(">"@) == Some(OP::Gt),
        OP::spelled("<"@) == Some(OP::Lt),
        OP::spelled(">="@) == Some(OP::Ge),
        OP::spelled("<="@) == Some(OP::Le),
        OP::spelled("+="@) == Some(OP::AddEq),
        OP::spelled("-="@) == Some(OP::SubEq),
        OP::spelled("*="@) == Some(OP::MulEq),
        OP::spelled("/="@) == Some(OP::DivEq),
        OP::spelled("%="@) == Some(OP::ModEq),
        OP::spelled("^="@) == Some(OP::XorEq),
        OP::spelled("|="@) == Some(OP::OrEq),
        OP::spelled("&="@) == Some(OP::AndEq),
        OP::spelled("~="@) == Some(OP::NotEq),
{
    law_spelling_roundtrip(OP::Add);
    law_spelling_roundtrip(OP::Sub);
    law_spelling_roundtrip(OP::Mul);
    law_spelling_roundtrip(OP::Div);
    law_spelling_roundtrip(OP::Mod);
    law_spelling_roundtrip(OP::Xor);
    law_spelling_roundtrip(OP::Or);
    law_spelling_roundtrip(OP::And);
    law_spelling_roundtrip(OP::Not);
    law_spelling_roundtrip(OP::Eq);
    law_spelling_roundtrip(OP::Ne);
    law_spelling_roundtrip(OP::Gt);
    law_spelling_roundtrip(OP::Lt);
    law_spelling_roundtrip(OP::Ge);
    law_spelling_roundtrip(OP::Le);
    law_spelling_roundtrip(OP::AddEq);
    law_spelling_roundtrip(OP::SubEq);
    law_spelling_roundtrip(OP::MulEq);
    law_spelling_roundtrip(OP::DivEq);
    law_spelling_roundtrip(OP::ModEq);
    law_spelling_roundtrip(OP::XorEq);
    law_spelling_roundtrip(OP::OrEq);
    law_spelling_roundtrip(OP::AndEq);
    law_spelling_roundtrip(OP::NotEq);
}

} // verus!
