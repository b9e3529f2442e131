//! The value kinds of the first block reader, with a stack of them.

use vstd::prelude::*;
use crate::text::{concat3, contains_seq, contains_str, lowercase, str_eq, to_lowercase};
use crate::patterns::{strip_enclosing, strip_enclosing_brackets};

verus! {

/// The Python value kinds that `BUILD_*` opcodes make; `NoType` when none
/// is known.
#[derive(Debug, Clone, Copy, PartialEq, Eq, Hash, Structural)]
pub enum ValueType {
    Common,
    List,
    Tuple,
    SetValue,
    Dict,
    NoType,
}

impl ValueType {
    /// The kind named by the lower-case text `l`; any other name is `Common`.
    pub open spec fn named(l: Seq<char>) -> ValueType {
        if l == "list"@ {
            ValueType::List
        } else if l == "tuple"@ {
            ValueType::Tuple
        } else if l == "set"@ {
            ValueType::SetValue
        } else if l == "dict"@ {
            ValueType::Dict
        } else {
            ValueType::Common
        }
    }

    /// Writes an empty value of this kind, or the given value of a plain or
    /// tuple kind. A value given to a list, set or dict is refused by the
    /// bracket pattern of this reader, and a plain or tuple kind needs one.
    pub fn build(&self, value: Option<&str>) -> (r: String)
        requires
            (*self is List || *self is SetValue || *self is Dict) ==> value is None,
            (*self is Tuple || *self is Common) ==> value is Some,
        ensures
            r@ == (match *self {
                ValueType::List => "[]"@,
                ValueType::SetValue => "{}"@,
                ValueType::Dict => "{}"@,
                ValueType::Tuple => value.unwrap()@,
                ValueType::Common => value.unwrap()@,
                ValueType::NoType => ""@,
            }),
    {
        match self {
            ValueType::List => String::from_str("[]"),
            ValueType::SetValue => String::from_str("{}"),
            ValueType::Tuple => String::from_str(value.unwrap()),
            ValueType::Dict => String::from_str("{}"),
            ValueType::Common => String::from_str(value.unwrap()),
            ValueType::NoType => {
                proof {
                    reveal_strlit("");
                }
                String::new()
            },
        }
    }

    /// Extends the value `src` by `etn`: inside a pair of brackets taken
    /// from `()[]{}`, or with ` + ` otherwise.
    pub fn extend(&self, src: &str, etn: &str) -> (r: String)
        requires
            contains_seq("()[]{}"@, src@) ==> src@.len() == 2,
        ensures
            contains_seq("()[]{}"@, src@) ==> r@ == seq![src@[0]] + strip_enclosing(etn@) + seq![
                src@[1],
            ],
            !contains_seq("()[]{}"@, src@) ==> r@ == src@ + " + "@ + etn@,
    {
        if contains_str("()[]{}", src) {
            let inner = strip_enclosing_brackets(etn);
            let open = src.substring_char(0, 1);
            let close = src.substring_char(1, 2);
            let r = concat3(open, inner.as_str(), close);
            assert(open@ =~= seq![src@[0]]);
            assert(close@ =~= seq![src@[1]]);
            r
        } else {
            concat3(src, " + ", etn)
        }
    }

    /// The kind named by `s`, whatever its letter case.
    pub fn get(s: &str) -> (r: ValueType)
        ensures
            r == ValueType::named(lowercase(s@)),
    {
        let l = to_lowercase(s);
        ValueType::from_lowercase(l.as_str())
    }

    /// The kind named by the already lower-cased `l`.
    pub fn from_lowercase(l: &str) -> (r: ValueType)
        ensures
            r == ValueType::named(l@),
    {
        if str_eq(l, "list") {
            ValueType::List
        } else if str_eq(l, "tuple") {
            ValueType::Tuple
        } else if str_eq(l, "set") {
            ValueType::SetValue
        } else if str_eq(l, "dict") {
            ValueType::Dict
        } else {
            ValueType::Common
        }
    }
}

/// A stack of value kinds whose `pop` never runs dry: an empty stack gives
/// `NoType`.
pub struct ValueTypeVec {
    pub value_type: Vec<ValueType>,
}

impl ValueTypeVec {
    /// An empty stack.
    pub fn new() -> (r: ValueTypeVec)
        ensures
            r.value_type@ == Seq::<ValueType>::empty(),
    {
        ValueTypeVec { value_type: Vec::new() }
    }

    /// Pushes a kind.
    pub fn push(&mut self, value_type: ValueType)
        ensures
            final(self).value_type@ == old(self).value_type@.push(value_type),
    {
        self.value_type.push(value_type);
    }

    /// Pops the top kind, or gives `NoType` when the stack is empty; never
    /// `None`.
    pub fn pop(&mut self) -> (r: Option<ValueType>)
        ensures
            old(self).value_type@.len() > 0 ==> r == Some(old(self).value_type@.last())
                && final(self).value_type@ == old(self).value_type@.drop_last(),
            old(self).value_type@.len() == 0 ==> r == Some(ValueType::NoType)
                && final(self).value_type@ == old(self).value_type@,
    {
        match self.value_type.pop() {
            Some(value_type) => Some(value_type),
            None => Some(ValueType::NoType),
        }
    }
}

} // verus!
