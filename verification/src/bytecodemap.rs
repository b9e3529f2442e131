//! The first line-by-line reader: one source line's instructions, read
//! from whitespace-separated columns, turned into an assignment.
//!
//! A result of `None` in the specifications stands for the inputs on which
//! the reader stops: no line at all, a line number, offset or argument that
//! is not a `u32`, an argument text that ends in a character of more than
//! one byte or that is a single character, or a store with nothing loaded.

use vstd::prelude::*;
use crate::text::{
    parse_usize_spec, parse_usize, str_eq, trim_start_seq, trim_end_seq, strings_view, concat2,
    concat3, trim_start_matches, trim_end_matches,
};
use crate::visit::white_space;

verus! {

/// The opcodes that this reader knows.
#[derive(Debug, Clone, Copy, PartialEq, Eq, Structural)]
pub enum BytecodeMap {
    LoadConst,
    LoadName,
    StoreName,
    LoadFast,
    StoreFast,
    LoadGlobal,
    StoreGlobal,
    BuildList,
    BuildTuple,
    BuildSet,
    BuildMap,
    LoadAttr,
    StoreAttr,
    BuildSlice,
    LoadSubscr,
    StoreSubscr,
    SetupLoop,
    JumpAbsolute,
    PopJumpIfFalse,
    PopJumpIfTrue,
    JumpForward,
    CompareOp,
    MakeFunction,
    ListExtend,
    Unknown,
}

/// The name of each opcode; `None` for the unknown one.
pub open spec fn opcode_name(b: BytecodeMap) -> Seq<char> {
    match b {
        BytecodeMap::LoadConst => "LOAD_CONST"@,
        BytecodeMap::LoadName => "LOAD_NAME"@,
        BytecodeMap::StoreName => "STORE_NAME"@,
        BytecodeMap::LoadFast => "LOAD_FAST"@,
        BytecodeMap::StoreFast => "STORE_FAST"@,
        BytecodeMap::LoadGlobal => "LOAD_GLOBAL"@,
        BytecodeMap::StoreGlobal => "STORE_GLOBAL"@,
        BytecodeMap::BuildList => "BUILD_LIST"@,
        BytecodeMap::BuildTuple => "BUILD_TUPLE"@,
        BytecodeMap::BuildSet => "BUILD_SET"@,
        BytecodeMap::BuildMap => "BUILD_MAP"@,
        BytecodeMap::LoadAttr => "LOAD_ATTR"@,
        BytecodeMap::StoreAttr => "STORE_ATTR"@,
        BytecodeMap::BuildSlice => "BUILD_SLICE"@,
        BytecodeMap::LoadSubscr => "LOAD_SUBSCR"@,
        BytecodeMap::StoreSubscr => "STORE_SUBSCR"@,
        BytecodeMap::SetupLoop => "SETUP_LOOP"@,
        BytecodeMap::JumpAbsolute => "JUMP_ABSOLUTE"@,
        BytecodeMap::PopJumpIfFalse => "POP_JUMP_IF_FALSE"@,
        BytecodeMap::PopJumpIfTrue => "POP_JUMP_IF_TRUE"@,
        BytecodeMap::JumpForward => "JUMP_FORWARD"@,
        BytecodeMap::CompareOp => "COMPARE_OP"@,
        BytecodeMap::MakeFunction => "MAKE_FUNCTION"@,
        BytecodeMap::ListExtend => "LIST_EXTEND"@,
        BytecodeMap::Unknown => "None"@,
    }
}

/// The opcode named `name`; any other name is the unknown one.
pub open spec fn opcode_named(name: Seq<char>) -> BytecodeMap {
    if name == "LOAD_CONST"@ {
        BytecodeMap::LoadConst
    } else if name == "LOAD_NAME"@ {
        BytecodeMap::LoadName
    } else if name == "STORE_NAME"@ {
        BytecodeMap::StoreName
    } else if name == "LOAD_FAST"@ {
        BytecodeMap::LoadFast
    } else if name == "STORE_FAST"@ {
        BytecodeMap::StoreFast
    } else if name == "LOAD_GLOBAL"@ {
        BytecodeMap::LoadGlobal
    } else if name == "STORE_GLOBAL"@ {
        BytecodeMap::StoreGlobal
    } else if name == "BUILD_LIST"@ {
        BytecodeMap::BuildList
    } else if name == "BUILD_TUPLE"@ {
        BytecodeMap::BuildTuple
    } else if name == "BUILD_SET"@ {
        BytecodeMap::BuildSet
    } else if name == "BUILD_MAP"@ {
        BytecodeMap::BuildMap
    } else if name == "LOAD_ATTR"@ {
        BytecodeMap::LoadAttr
    } else if name == "STORE_ATTR"@ {
        BytecodeMap::StoreAttr
    } else if name == "BUILD_SLICE"@ {
        BytecodeMap::BuildSlice
    } else if name == "LOAD_SUBSCR"@ {
        BytecodeMap::LoadSubscr
    } else if name == "STORE_SUBSCR"@ {
        BytecodeMap::StoreSubscr
    } else if name == "SETUP_LOOP"@ {
        BytecodeMap::SetupLoop
    } else if name == "JUMP_ABSOLUTE"@ {
        BytecodeMap::JumpAbsolute
    } else if name == "POP_JUMP_IF_FALSE"@ {
        BytecodeMap::PopJumpIfFalse
    } else if name == "POP_JUMP_IF_TRUE"@ {
        BytecodeMap::PopJumpIfTrue
    } else if name == "JUMP_FORWARD"@ {
        BytecodeMap::JumpForward
    } else if name == "COMPARE_OP"@ {
        BytecodeMap::CompareOp
    } else if name == "MAKE_FUNCTION"@ {
        BytecodeMap::MakeFunction
    } else if name == "LIST_EXTEND"@ {
        BytecodeMap::ListExtend
    } else {
        BytecodeMap::Unknown
    }
}

impl BytecodeMap {
    /// The opcode named `name`.
    pub fn get(name: &str) -> (r: BytecodeMap)
        ensures
            r == opcode_named(name@),
    {
        if str_eq(name, "LOAD_CONST") {
            BytecodeMap::LoadConst
        } else if str_eq(name, "LOAD_NAME") {
            BytecodeMap::LoadName
        } else if str_eq(name, "STORE_NAME") {
            BytecodeMap::StoreName
        } else if str_eq(name, "LOAD_FAST") {
            BytecodeMap::LoadFast
        } else if str_eq(name, "STORE_FAST") {
            BytecodeMap::StoreFast
        } else if str_eq(name, "LOAD_GLOBAL") {
            BytecodeMap::LoadGlobal
        } else if str_eq(name, "STORE_GLOBAL") {
            BytecodeMap::StoreGlobal
        } else if str_eq(name, "BUILD_LIST") {
            BytecodeMap::BuildList
        } else if str_eq(name, "BUILD_TUPLE") {
            BytecodeMap::BuildTuple
        } else if str_eq(name, "BUILD_SET") {
            BytecodeMap::BuildSet
        } else if str_eq(name, "BUILD_MAP") {
            BytecodeMap::BuildMap
        } else if str_eq(name, "LOAD_ATTR") {
            BytecodeMap::LoadAttr
        } else if str_eq(name, "STORE_ATTR") {
            BytecodeMap::StoreAttr
        } else if str_eq(name, "BUILD_SLICE") {
            BytecodeMap::BuildSlice
        } else if str_eq(name, "LOAD_SUBSCR") {
            BytecodeMap::LoadSubscr
        } else if str_eq(name, "STORE_SUBSCR") {
            BytecodeMap::StoreSubscr
        } else if str_eq(name, "SETUP_LOOP") {
            BytecodeMap::SetupLoop
        } else if str_eq(name, "JUMP_ABSOLUTE") {
            BytecodeMap::JumpAbsolute
        } else if str_eq(name, "POP_JUMP_IF_FALSE") {
            BytecodeMap::PopJumpIfFalse
        } else if str_eq(name, "POP_JUMP_IF_TRUE") {
            BytecodeMap::PopJumpIfTrue
        } else if str_eq(name, "JUMP_FORWARD") {
            BytecodeMap::JumpForward
        } else if str_eq(name, "COMPARE_OP") {
            BytecodeMap::CompareOp
        } else if str_eq(name, "MAKE_FUNCTION") {
            BytecodeMap::MakeFunction
        } else if str_eq(name, "LIST_EXTEND") {
            BytecodeMap::ListExtend
        } else {
            BytecodeMap::Unknown
        }
    }

    /// The name of the opcode; `None` for the unknown one.
    pub fn name(&self) -> (r: &'static str)
        ensures
            r@ == opcode_name(*self),
    {
        match self {
            BytecodeMap::LoadConst => "LOAD_CONST",
            BytecodeMap::LoadName => "LOAD_NAME",
            BytecodeMap::StoreName => "STORE_NAME",
            BytecodeMap::LoadFast => "LOAD_FAST",
            BytecodeMap::StoreFast => "STORE_FAST",
            BytecodeMap::LoadGlobal => "LOAD_GLOBAL",
            BytecodeMap::StoreGlobal => "STORE_GLOBAL",
            BytecodeMap::BuildList => "BUILD_LIST",
            BytecodeMap::BuildTuple => "BUILD_TUPLE",
            BytecodeMap::BuildSet => "BUILD_SET",
            BytecodeMap::BuildMap => "BUILD_MAP",
            BytecodeMap::LoadAttr => "LOAD_ATTR",
            BytecodeMap::StoreAttr => "STORE_ATTR",
            BytecodeMap::BuildSlice => "BUILD_SLICE",
            BytecodeMap::LoadSubscr => "LOAD_SUBSCR",
            BytecodeMap::StoreSubscr => "STORE_SUBSCR",
            BytecodeMap::SetupLoop => "SETUP_LOOP",
            BytecodeMap::JumpAbsolute => "JUMP_ABSOLUTE",
            BytecodeMap::PopJumpIfFalse => "POP_JUMP_IF_FALSE",
            BytecodeMap::PopJumpIfTrue => "POP_JUMP_IF_TRUE",
            BytecodeMap::JumpForward => "JUMP_FORWARD",
            BytecodeMap::CompareOp => "COMPARE_OP",
            BytecodeMap::MakeFunction => "MAKE_FUNCTION",
            BytecodeMap::ListExtend => "LIST_EXTEND",
            BytecodeMap::Unknown => "None",
        }
    }
}

/// The white-space separated words of `s[i..]`, after the words `acc` and
/// the word `cur` begun before `i`.
pub open spec fn words_from(s: Seq<char>, i: nat, cur: Seq<char>, acc: Seq<Seq<char>>) -> Seq<Seq<char>>
    decreases s.len() - i,
{
    if i >= s.len() {
        if cur.len() > 0 {
            acc.push(cur)
        } else {
            acc
        }
    } else if white_space(s[i as int]) {
        words_from(s, i + 1, Seq::empty(), if cur.len() > 0 { acc.push(cur) } else { acc })
    } else {
        words_from(s, i + 1, cur.push(s[i as int]), acc)
    }
}

/// What `str::split_whitespace` gives: the maximal runs of characters that
/// are not white space.
pub open spec fn words(s: Seq<char>) -> Seq<Seq<char>> {
    words_from(s, 0, Seq::empty(), Seq::empty())
}

/// The words of `s`.
pub(crate) fn words_exec(s: &str) -> (r: Vec<String>)
    ensures
        crate::text::strings_view(r@) == words(s@),
{
    let n = s.unicode_len();
    let mut acc: Vec<String> = Vec::new();
    let mut cur = String::new();
    let mut i: usize = 0;
    proof {
        assert(crate::text::strings_view(acc@) =~= Seq::<Seq<char>>::empty());
    }
    while i < n
        invariant
            i <= n,
            n == s@.len(),
            words(s@) == words_from(s@, i as nat, cur@, crate::text::strings_view(acc@)),
        decreases n - i,
    {
        let c = s.get_char(i);
        if crate::bytecode::utils::is_ws(c) {
            if cur.as_str().unicode_len() > 0 {
                let ghost a0 = crate::text::strings_view(acc@);
                let ghost cv = cur@;
                acc.push(cur);
                proof {
                    assert(crate::text::strings_view(acc@) =~= a0.push(cv));
                }
            }
            cur = String::new();
            proof {
                assert(cur@ =~= Seq::<char>::empty());
            }
        } else {
            let ghost cv = cur@;
            let one = s.substring_char(i, i + 1);
            cur.append(one);
            proof {
                assert(one@ =~= seq![s@[i as int]]);
                assert(cur@ =~= cv.push(s@[i as int]));
            }
        }
        i = i + 1;
    }
    if cur.as_str().unicode_len() > 0 {
        let ghost a0 = crate::text::strings_view(acc@);
        let ghost cv = cur@;
        acc.push(cur);
        proof {
            assert(crate::text::strings_view(acc@) =~= a0.push(cv));
        }
    }
    acc
}

/// What `u32::from_str` gives.
pub open spec fn parse_u32_spec(s: Seq<char>) -> Option<u32> {
    match parse_usize_spec(s) {
        Some(n) => if n <= u32::MAX {
            Some(n as u32)
        } else {
            None
        },
        None => None,
    }
}

/// Reads a `u32`.
pub(crate) fn parse_u32_exec(s: &str) -> (r: Option<u32>)
    ensures
        r == parse_u32_spec(s@),
{
    match parse_usize(s) {
        Some(n) => if n <= 0xffff_ffff {
            Some(n as u32)
        } else {
            None
        },
        None => None,
    }
}

/// What the reader holds: the line number, and per instruction its offset,
/// opcode, argument and argument text.
pub struct BlockSpec {
    pub line: u32,
    pub offsets: Seq<u32>,
    pub codes: Seq<BytecodeMap>,
    pub args: Seq<u32>,
    pub reals: Seq<Seq<char>>,
}

/// The concatenation of the words `w[p..]`, with nothing between them.
pub open spec fn concat_from(w: Seq<Seq<char>>, p: nat) -> Seq<char>
    decreases w.len() - p,
{
    if p >= w.len() {
        Seq::empty()
    } else {
        w[p as int] + concat_from(w, p + 1)
    }
}

/// An argument text without its first and last character; `None` where the
/// last is not a one-byte character or there is none left.
pub open spec fn strip_real(r: Seq<char>) -> Option<Seq<char>> {
    if r.len() == 0 {
        Some(r)
    } else {
        let r1 = r.drop_first();
        if r1.len() >= 1 && (r1.last() as u32) < 0x80 {
            Some(r1.drop_last())
        } else {
            None
        }
    }
}

/// The columns `w[p..]` of one line read into `b`: an offset, an opcode, an
/// argument where there are words left, then the rest as argument text.
pub open spec fn read_line(w: Seq<Seq<char>>, p: nat, b: BlockSpec) -> Option<BlockSpec> {
    let off: Option<(Seq<u32>, nat)> = if p < w.len() {
        match parse_u32_spec(w[p as int]) {
            Some(o) => Some((b.offsets.push(o), p + 1)),
            None => None,
        }
    } else {
        Some((b.offsets, p))
    };
    match off {
        None => None,
        Some((offsets, p1)) => {
            let (codes, p2) = if p1 < w.len() {
                (b.codes.push(opcode_named(w[p1 as int])), p1 + 1)
            } else {
                (b.codes, p1)
            };
            let arg: Option<(Seq<u32>, nat)> = if p2 < w.len() {
                match parse_u32_spec(w[p2 as int]) {
                    Some(a) => Some((b.args.push(a), p2 + 1)),
                    None => None,
                }
            } else {
                Some((b.args, p2))
            };
            match arg {
                None => None,
                Some((args, p3)) => match strip_real(concat_from(w, p3)) {
                    None => None,
                    Some(r) => Some(
                        BlockSpec {
                            line: b.line,
                            offsets,
                            codes,
                            args,
                            reals: b.reals.push(r),
                        },
                    ),
                },
            }
        },
    }
}

/// The lines `ls[i..]` read into `b`.
pub open spec fn read_lines(ls: Seq<Seq<char>>, i: nat, b: BlockSpec) -> Option<BlockSpec>
    decreases ls.len() - i,
{
    if i >= ls.len() {
        Some(b)
    } else {
        match read_line(words(ls[i as int]), 0, b) {
            None => None,
            Some(b1) => read_lines(ls, i + 1, b1),
        }
    }
}

/// The lines `ls` read into `b`: the first word of the first line is the
/// line number.
pub open spec fn read_block(b: BlockSpec, ls: Seq<Seq<char>>) -> Option<BlockSpec> {
    if ls.len() == 0 {
        None
    } else {
        let w = words(ls[0]);
        if w.len() == 0 {
            None
        } else {
            match parse_u32_spec(w[0]) {
                None => None,
                Some(n) => match read_line(w, 1, BlockSpec { line: n, ..b }) {
                    None => None,
                    Some(b1) => read_lines(ls, 1, b1),
                },
            }
        }
    }
}

/// The reader's columns.
#[derive(Debug)]
struct BytecodeBlock {
    script_line_number: u32,
    cmd_offset: Vec<u32>,
    bytecode: Vec<BytecodeMap>,
    arg: Vec<u32>,
    real_arg: Vec<String>,
}

impl BytecodeBlock {
    /// What the reader holds.
    spec fn view_spec(&self) -> BlockSpec {
        BlockSpec {
            line: self.script_line_number,
            offsets: self.cmd_offset@,
            codes: self.bytecode@,
            args: self.arg@,
            reals: strings_view(self.real_arg@),
        }
    }

    /// An empty reader.
    fn new() -> (r: BytecodeBlock)
        ensures
            r.view_spec() == (BlockSpec {
                line: 0,
                offsets: Seq::empty(),
                codes: Seq::empty(),
                args: Seq::empty(),
                reals: Seq::empty(),
            }),
    {
        let r = BytecodeBlock {
            script_line_number: 0,
            cmd_offset: Vec::new(),
            bytecode: Vec::new(),
            arg: Vec::new(),
            real_arg: Vec::new(),
        };
        proof {
            assert(strings_view(r.real_arg@) =~= Seq::<Seq<char>>::empty());
        }
        r
    }

    /// Reads the columns `w[p..]` of one line.
    fn read_line_exec(&mut self, w: &Vec<String>, p: usize) -> (ok: bool)
        requires
            p <= w@.len(),
        ensures
            ok == read_line(strings_view(w@), p as nat, old(self).view_spec()) is Some,
            ok ==> Some(final(self).view_spec()) == read_line(strings_view(w@), p as nat, old(self).view_spec()),
    {
        let ghost wv = strings_view(w@);
        let ghost b0 = self.view_spec();
        let mut p = p;
        if p < w.len() {
            assert(wv[p as int] == w@[p as int]@);
            match parse_u32_exec(w[p].as_str()) {
                Some(o) => {
                    self.cmd_offset.push(o);
                    p = p + 1;
                },
                None => { return false; },
            }
        }
        if p < w.len() {
            assert(wv[p as int] == w@[p as int]@);
            self.bytecode.push(BytecodeMap::get(w[p].as_str()));
            p = p + 1;
        }
        if p < w.len() {
            assert(wv[p as int] == w@[p as int]@);
            match parse_u32_exec(w[p].as_str()) {
                Some(a) => {
                    self.arg.push(a);
                    p = p + 1;
                },
                None => { return false; },
            }
        }
        let rest = concat_exec(w, p);
        let r = match strip_real_exec(rest.as_str()) {
            Some(r) => r,
            None => { return false; },
        };
        let ghost rv = r@;
        let ghost before = self.real_arg@;
        self.real_arg.push(r);
        proof {
            assert(strings_view(self.real_arg@) =~= strings_view(before).push(rv));
        }
        true
    }
}

/// The concatenation of the words `w[p..]`.
fn concat_exec(w: &Vec<String>, p: usize) -> (r: String)
    requires
        p <= w@.len(),
    ensures
        r@ == concat_from(strings_view(w@), p as nat),
{
    let ghost wv = strings_view(w@);
    let mut r = String::new();
    let mut k = p;
    proof {
        assert(r@ + concat_from(wv, p as nat) =~= concat_from(wv, p as nat));
    }
    while k < w.len()
        invariant
            p <= k <= w@.len(),
            wv == strings_view(w@),
            r@ + concat_from(wv, k as nat) == concat_from(wv, p as nat),
        decreases w@.len() - k,
    {
        assert(wv[k as int] == w@[k as int]@);
        let ghost r0 = r@;
        r.append(w[k].as_str());
        proof {
            assert(r0 + (wv[k as int] + concat_from(wv, (k + 1) as nat)) =~= r@ + concat_from(
                wv,
                (k + 1) as nat,
            ));
        }
        k = k + 1;
    }
    proof {
        assert(r@ + concat_from(wv, k as nat) =~= r@);
    }
    r
}

/// An argument text without its first and last character.
fn strip_real_exec(r: &str) -> (out: Option<String>)
    ensures
        match strip_real(r@) {
            None => out is None,
            Some(t) => out matches Some(x) && x@ == t,
        },
{
    let n = r.unicode_len();
    if n == 0 {
        return Some(String::new());
    }
    if n >= 2 && (r.get_char(n - 1) as u32) < 0x80 {
        proof {
            assert(r@.drop_first().drop_last() =~= r@.subrange(1, n - 1));
            assert(r@.drop_first().last() == r@[n - 1]);
        }
        Some(String::from_str(r.substring_char(1, n - 1)))
    } else {
        None
    }
}

impl BytecodeBlock {
    /// Reads the lines of one source line's instructions.
    fn add(&mut self, bytecode_string: &Vec<String>) -> (ok: bool)
        ensures
            ok == read_block(old(self).view_spec(), strings_view(bytecode_string@)) is Some,
            ok ==> Some(final(self).view_spec()) == read_block(old(self).view_spec(), strings_view(bytecode_string@)),
    {
        let ghost ls = strings_view(bytecode_string@);
        if bytecode_string.len() == 0 {
            return false;
        }
        assert(ls[0] == bytecode_string@[0]@);
        let w = words_exec(bytecode_string[0].as_str());
        if w.len() == 0 {
            return false;
        }
        assert(strings_view(w@)[0] == w@[0]@);
        let n = match parse_u32_exec(w[0].as_str()) {
            Some(n) => n,
            None => { return false; },
        };
        self.script_line_number = n;
        if !self.read_line_exec(&w, 1) {
            return false;
        }
        let mut i: usize = 1;
        while i < bytecode_string.len()
            invariant
                1 <= i <= bytecode_string@.len(),
                ls == strings_view(bytecode_string@),
                read_block(old(self).view_spec(), ls) == read_lines(ls, i as nat, self.view_spec()),
            decreases bytecode_string@.len() - i,
        {
            assert(ls[i as int] == bytecode_string@[i as int]@);
            let w = words_exec(bytecode_string[i].as_str());
            if !self.read_line_exec(&w, 0) {
                return false;
            }
            i = i + 1;
        }
        true
    }
}

/// How a stored value is written.
#[derive(Debug, Clone, Copy, PartialEq, Eq, Structural)]
pub enum ValueType {
    Common,
    List,
    Tuple,
    SetValue,
    Dict,
    NoType,
}

/// `name = value` for the kind `t`, the value's outer parentheses dropped.
pub open spec fn assignment(t: ValueType, name: Seq<char>, value: Seq<char>) -> Seq<char> {
    let val = trim_end_seq(trim_start_seq(value, "("@), ")"@);
    match t {
        ValueType::Common => name + " = "@ + val,
        ValueType::List => name + " = ["@ + val + "]"@,
        ValueType::Tuple => name + " = ("@ + val + ")"@,
        ValueType::SetValue | ValueType::Dict => name + " = {"@ + val + "}"@,
        ValueType::NoType => name,
    }
}

impl ValueType {
    /// `name = value` for this kind.
    pub fn build(&self, name: &str, value: &str) -> (r: String)
        ensures
            r@ == assignment(*self, name@, value@),
    {
        let v1 = trim_start_matches(value, "(");
        let val = trim_end_matches(v1.as_str(), ")");
        match self {
            ValueType::Common => concat3(name, " = ", val.as_str()),
            ValueType::List => {
                let l = concat3(name, " = [", val.as_str());
                concat2(l.as_str(), "]")
            },
            ValueType::Tuple => {
                let l = concat3(name, " = (", val.as_str());
                concat2(l.as_str(), ")")
            },
            ValueType::SetValue | ValueType::Dict => {
                let l = concat3(name, " = {", val.as_str());
                concat2(l.as_str(), "}")
            },
            ValueType::NoType => String::from_str(name),
        }
    }
}

/// The values and kinds seen while reading: a store takes the last kind
/// pushed, `Common` when there is none.
pub struct ValueTypeVec {
    pub value_type: Vec<ValueType>,
}

impl ValueTypeVec {
    /// No kinds.
    pub fn new() -> (r: ValueTypeVec)
        ensures
            r.value_type@ == Seq::<ValueType>::empty(),
    {
        ValueTypeVec { value_type: Vec::new() }
    }

    /// Adds a kind.
    pub fn push(&mut self, value_type: ValueType)
        ensures
            final(self).value_type@ == old(self).value_type@.push(value_type),
    {
        self.value_type.push(value_type);
    }

    /// The last kind pushed, taken off; `Common` when there is none.
    pub fn pop(&mut self) -> (r: Option<ValueType>)
        ensures
            old(self).value_type@.len() > 0 ==> r == Some(old(self).value_type@.last())
                && final(self).value_type@ == old(self).value_type@.drop_last(),
            old(self).value_type@.len() == 0 ==> r == Some(ValueType::Common)
                && final(self).value_type@ == old(self).value_type@,
    {
        match self.value_type.pop() {
            Some(v) => Some(v),
            None => Some(ValueType::Common),
        }
    }
}

/// The kind that a build opcode pushes.
pub open spec fn built_kind(b: BytecodeMap) -> Option<ValueType> {
    match b {
        BytecodeMap::BuildList => Some(ValueType::List),
        BytecodeMap::BuildTuple => Some(ValueType::Tuple),
        BytecodeMap::BuildSet => Some(ValueType::SetValue),
        BytecodeMap::BuildMap => Some(ValueType::Dict),
        _ => None,
    }
}

/// The line that the instructions from `i` on add to `script`, with the
/// loaded values `buffer` and the kinds `types`: a constant is loaded, a
/// store writes an assignment, a build opcode gives the next store its kind.
pub open spec fn write_from(
    b: BlockSpec,
    i: nat,
    script: Seq<char>,
    buffer: Seq<Seq<char>>,
    types: Seq<ValueType>,
) -> Option<Seq<char>>
    decreases b.codes.len() - i,
{
    if i >= b.codes.len() {
        Some(script)
    } else if i >= b.reals.len() {
        None
    } else {
        let rarg = b.reals[i as int];
        match b.codes[i as int] {
            BytecodeMap::LoadConst => write_from(b, i + 1, script, buffer.push(rarg), types),
            BytecodeMap::StoreName => {
                let (t, rest) = if types.len() > 0 {
                    (types.last(), types.drop_last())
                } else {
                    (ValueType::Common, types)
                };
                if buffer.len() == 0 {
                    None
                } else {
                    write_from(
                        b,
                        i + 1,
                        script + assignment(t, rarg, buffer.last()),
                        buffer.drop_last(),
                        rest,
                    )
                }
            },
            c => match built_kind(c) {
                Some(t) => write_from(b, i + 1, script, buffer, types.push(t)),
                None => write_from(b, i + 1, script, buffer, types),
            },
        }
    }
}

/// The line that the instructions of `b` give.
pub open spec fn block_python(b: BlockSpec) -> Option<Seq<char>> {
    write_from(b, 0, Seq::empty(), Seq::empty(), Seq::empty())
}

impl BytecodeBlock {
    /// The line of Python that the instructions give; `None` where a store
    /// finds nothing loaded.
    fn to_python(&self) -> (r: Option<String>)
        ensures
            match block_python(self.view_spec()) {
                None => r is None,
                Some(t) => r matches Some(x) && x@ == t,
            },
    {
        let ghost b = self.view_spec();
        let mut script = String::new();
        let mut buffer: Vec<String> = Vec::new();
        let mut value_types = ValueTypeVec::new();
        let mut i: usize = 0;
        proof {
            assert(strings_view(buffer@) =~= Seq::<Seq<char>>::empty());
        }
        while i < self.bytecode.len()
            invariant
                i <= self.bytecode@.len(),
                b == self.view_spec(),
                block_python(b) == write_from(b, i as nat, script@, strings_view(buffer@), value_types.value_type@),
            decreases self.bytecode@.len() - i,
        {
            if i >= self.real_arg.len() {
                return None;
            }
            assert(b.reals[i as int] == self.real_arg@[i as int]@);
            let rarg = self.real_arg[i].as_str();
            match self.bytecode[i] {
                BytecodeMap::LoadConst => {
                    self.load(&mut buffer, self.bytecode[i], rarg);
                },
                BytecodeMap::StoreName => {
                    let t = match value_types.pop() {
                        Some(t) => t,
                        None => ValueType::Common,
                    };
                    if !self.store(&mut script, &mut buffer, rarg, t) {
                        return None;
                    }
                },
                BytecodeMap::BuildList => value_types.push(ValueType::List),
                BytecodeMap::BuildTuple => value_types.push(ValueType::Tuple),
                BytecodeMap::BuildSet => value_types.push(ValueType::SetValue),
                BytecodeMap::BuildMap => value_types.push(ValueType::Dict),
                _ => {},
            }
            i = i + 1;
        }
        Some(script)
    }

    /// Loads a constant.
    fn load(&self, buffer: &mut Vec<String>, bytecode: BytecodeMap, rarg: &str)
        ensures
            bytecode == BytecodeMap::LoadConst ==> strings_view(final(buffer)@) == strings_view(old(buffer)@).push(rarg@),
            bytecode != BytecodeMap::LoadConst ==> final(buffer)@ == old(buffer)@,
    {
        match bytecode {
            BytecodeMap::LoadConst => {
                let ghost b0 = strings_view(buffer@);
                buffer.push(String::from_str(rarg));
                proof {
                    assert(strings_view(buffer@) =~= b0.push(rarg@));
                }
            },
            _ => {},
        }
    }

    /// Writes an assignment of the last loaded value to `rarg`; `false`
    /// where nothing is loaded.
    fn store(&self, pyscript: &mut String, buffer: &mut Vec<String>, rarg: &str, value_type: ValueType) -> (ok: bool)
        ensures
            ok == (old(buffer)@.len() > 0),
            ok ==> final(pyscript)@ == old(pyscript)@ + assignment(value_type, rarg@, strings_view(old(buffer)@).last())
                && strings_view(final(buffer)@) == strings_view(old(buffer)@).drop_last(),
    {
        let ghost b0 = strings_view(buffer@);
        match buffer.pop() {
            Some(v) => {
                proof {
                    assert(strings_view(buffer@) =~= b0.drop_last());
                }
                let line = value_type.build(rarg, v.as_str());
                pyscript.append(line.as_str());
                true
            },
            None => false,
        }
    }
}

/// Whether the lines of one source line's instructions can be read and
/// turned into Python.
pub open spec fn block_reads(bcs: Seq<Seq<char>>) -> bool {
    match read_block(
        BlockSpec {
            line: 0,
            offsets: Seq::empty(),
            codes: Seq::empty(),
            args: Seq::empty(),
            reals: Seq::empty(),
        },
        bcs,
    ) {
        Some(b) => block_python(b) is Some,
        None => false,
    }
}

/// The line of Python that the lines of one source line's instructions
/// give.
pub open spec fn block_text(bcs: Seq<Seq<char>>) -> Seq<char> {
    block_python(
        read_block(
            BlockSpec {
                line: 0,
                offsets: Seq::empty(),
                codes: Seq::empty(),
                args: Seq::empty(),
                reals: Seq::empty(),
            },
            bcs,
        )->0,
    )->0
}

/// The line of Python that the lines `bcs` of one source line's
/// instructions give.
pub fn test(bcs: &Vec<String>) -> (r: String)
    requires
        block_reads(strings_view(bcs@)),
    ensures
        r@ == block_text(strings_view(bcs@)),
{
    let mut block = BytecodeBlock::new();
    if !block.add(bcs) {
        proof {
            assert(false);
        }
        return String::new();
    }
    match block.to_python() {
        Some(t) => t,
        None => {
            proof {
                assert(false);
            }
            String::new()
        },
    }
}


/// Reading a name back: a name that reads as a known opcode is that
/// opcode's name.
pub proof fn law_names_round_trip(n: Seq<char>)
    ensures
        opcode_named(n) != BytecodeMap::Unknown ==> opcode_name(opcode_named(n)) == n,
{
}

/// The value text `v` without its leading `(`s and trailing `)`s.
pub open spec fn unparenthesized(v: Seq<char>) -> Seq<char> {
    trim_end_seq(trim_start_seq(v, "("@), ")"@)
}

/// A build opcode, then a constant `v`, then a store to `n` writes
/// `n = ` and the value in the brackets of the built kind: `BUILD_LIST`
/// square brackets, `BUILD_TUPLE` parentheses, `BUILD_SET` and `BUILD_MAP`
/// braces. The rest of the block goes on as before.
pub proof fn law_build_then_store(
    b: BlockSpec,
    i: nat,
    script: Seq<char>,
    buffer: Seq<Seq<char>>,
    types: Seq<ValueType>,
)
    requires
        i + 2 < b.codes.len(),
        i + 2 < b.reals.len(),
        b.codes[i + 1int] == BytecodeMap::LoadConst,
        b.codes[i + 2int] == BytecodeMap::StoreName,
    ensures
        b.codes[i as int] == BytecodeMap::BuildList ==> write_from(b, i, script, buffer, types)
            == write_from(
            b,
            i + 3,
            script + b.reals[i + 2int] + " = ["@ + unparenthesized(b.reals[i + 1int]) + "]"@,
            buffer,
            types,
        ),
        b.codes[i as int] == BytecodeMap::BuildTuple ==> write_from(b, i, script, buffer, types)
            == write_from(
            b,
            i + 3,
            script + b.reals[i + 2int] + " = ("@ + unparenthesized(b.reals[i + 1int]) + ")"@,
            buffer,
            types,
        ),
        b.codes[i as int] == BytecodeMap::BuildSet ==> write_from(b, i, script, buffer, types)
            == write_from(
            b,
            i + 3,
            script + b.reals[i + 2int] + " = {"@ + unparenthesized(b.reals[i + 1int]) + "}"@,
            buffer,
            types,
        ),
        b.codes[i as int] == BytecodeMap::BuildMap ==> write_from(b, i, script, buffer, types)
            == write_from(
            b,
            i + 3,
            script + b.reals[i + 2int] + " = {"@ + unparenthesized(b.reals[i + 1int]) + "}"@,
            buffer,
            types,
        ),
{
    let c = b.codes[i as int];
    let v = b.reals[i + 1int];
    let n = b.reals[i + 2int];
    let val = unparenthesized(v);
    if c == BytecodeMap::BuildList || c == BytecodeMap::BuildTuple || c == BytecodeMap::BuildSet
        || c == BytecodeMap::BuildMap {
        let t = built_kind(c)->0;
        let tys = types.push(t);
        assert(write_from(b, i, script, buffer, types) == write_from(b, i + 1, script, buffer, tys));
        assert(write_from(b, i + 1, script, buffer, tys) == write_from(
            b,
            i + 2,
            script,
            buffer.push(v),
            tys,
        ));
        assert(tys.last() == t && tys.drop_last() =~= types);
        assert(buffer.push(v).last() == v && buffer.push(v).drop_last() =~= buffer);
        assert(write_from(b, i + 2, script, buffer.push(v), tys) == write_from(
            b,
            i + 3,
            script + assignment(t, n, v),
            buffer,
            types,
        ));
        reveal_strlit(" = [");
        reveal_strlit(" = (");
        reveal_strlit(" = {");
        reveal_strlit("]");
        reveal_strlit(")");
        reveal_strlit("}");
        assert(script + assignment(t, n, v) =~= script + n + (if c == BytecodeMap::BuildList {
            " = ["@ + val + "]"@
        } else if c == BytecodeMap::BuildTuple {
            " = ("@ + val + ")"@
        } else {
            " = {"@ + val + "}"@
        }));
        assert(script + n + " = ["@ + val + "]"@ =~= script + n + (" = ["@ + val + "]"@));
        assert(script + n + " = ("@ + val + ")"@ =~= script + n + (" = ("@ + val + ")"@));
        assert(script + n + " = {"@ + val + "}"@ =~= script + n + (" = {"@ + val + "}"@));
    }
}

/// With no kind pending, a constant `v` then a store to `n` writes
/// `n = v`, the value without its outer parentheses, and then a second
/// store takes the value loaded before `v`.
pub proof fn law_load_then_store(b: BlockSpec, i: nat, script: Seq<char>, buffer: Seq<Seq<char>>)
    requires
        i + 1 < b.codes.len(),
        i + 1 < b.reals.len(),
        b.codes[i as int] == BytecodeMap::LoadConst,
        b.codes[i + 1int] == BytecodeMap::StoreName,
    ensures
        write_from(b, i, script, buffer, Seq::empty()) == write_from(
            b,
            i + 2,
            script + b.reals[i + 1int] + " = "@ + unparenthesized(b.reals[i as int]),
            buffer,
            Seq::empty(),
        ),
{
    let v = b.reals[i as int];
    let n = b.reals[i + 1int];
    let e = Seq::<ValueType>::empty();
    assert(write_from(b, i, script, buffer, e) == write_from(b, i + 1, script, buffer.push(v), e));
    assert(buffer.push(v).last() == v && buffer.push(v).drop_last() =~= buffer);
    assert(write_from(b, i + 1, script, buffer.push(v), e) == write_from(
        b,
        i + 2,
        script + assignment(ValueType::Common, n, v),
        buffer,
        e,
    ));
    assert(script + assignment(ValueType::Common, n, v) =~= script + n + " = "@ + unparenthesized(v));
}

/// Each opcode name of a block reads as the opcode of that name:
/// `BUILD_SET` as a set build, `BUILD_LIST` as a list build, `STORE_NAME`
/// as a store, and so on for every name the map knows.
pub proof fn law_names_read_as_their_opcode()
    ensures
        opcode_named("LOAD_CONST"@) == BytecodeMap::LoadConst,
        opcode_named("LOAD_NAME"@) == BytecodeMap::LoadName,
        opcode_named("STORE_NAME"@) == BytecodeMap::StoreName,
        opcode_named("LOAD_FAST"@) == BytecodeMap::LoadFast,
        opcode_named("STORE_FAST"@) == BytecodeMap::StoreFast,
        opcode_named("LOAD_GLOBAL"@) == BytecodeMap::LoadGlobal,
        opcode_named("STORE_GLOBAL"@) == BytecodeMap::StoreGlobal,
        opcode_named("BUILD_LIST"@) == BytecodeMap::BuildList,
        opcode_named("BUILD_TUPLE"@) == BytecodeMap::BuildTuple,
        opcode_named("BUILD_SET"@) == BytecodeMap::BuildSet,
        opcode_named("BUILD_MAP"@) == BytecodeMap::BuildMap,
        opcode_named("LOAD_ATTR"@) == BytecodeMap::LoadAttr,
        opcode_named("STORE_ATTR"@) == BytecodeMap::StoreAttr,
        opcode_named("BUILD_SLICE"@) == BytecodeMap::BuildSlice,
        opcode_named("LOAD_SUBSCR"@) == BytecodeMap::LoadSubscr,
        opcode_named("STORE_SUBSCR"@) == BytecodeMap::StoreSubscr,
        opcode_named("SETUP_LOOP"@) == BytecodeMap::SetupLoop,
        opcode_named("JUMP_ABSOLUTE"@) == BytecodeMap::JumpAbsolute,
        opcode_named("POP_JUMP_IF_FALSE"@) == BytecodeMap::PopJumpIfFalse,
        opcode_named("POP_JUMP_IF_TRUE"@) == BytecodeMap::PopJumpIfTrue,
        opcode_named("JUMP_FORWARD"@) == BytecodeMap::JumpForward,
        opcode_named("COMPARE_OP"@) == BytecodeMap::CompareOp,
        opcode_named("MAKE_FUNCTION"@) == BytecodeMap::MakeFunction,
        opcode_named("LIST_EXTEND"@) == BytecodeMap::ListExtend,
{
    assert(opcode_named("LOAD_CONST"@) == BytecodeMap::LoadConst) by {
        reveal_strlit("LOAD_CONST");
    }
    assert(opcode_named("LOAD_NAME"@) == BytecodeMap::LoadName) by {
        reveal_strlit("LOAD_CONST");
        reveal_strlit("LOAD_NAME");
        assert("LOAD_NAME"@.len() != "LOAD_CONST"@.len());
    }
    assert(opcode_named("STORE_NAME"@) == BytecodeMap::StoreName) by {
        reveal_strlit("LOAD_CONST");
        reveal_strlit("LOAD_NAME");
        reveal_strlit("STORE_NAME");
        assert("STORE_NAME"@[0] != "LOAD_CONST"@[0]);
        assert("STORE_NAME"@.len() != "LOAD_NAME"@.len());
    }
    assert(opcode_named("LOAD_FAST"@) == BytecodeMap::LoadFast) by {
        reveal_strlit("LOAD_CONST");
        reveal_strlit("LOAD_NAME");
        reveal_strlit("STORE_NAME");
        reveal_strlit("LOAD_FAST");
        assert("LOAD_FAST"@.len() != "LOAD_CONST"@.len());
        assert("LOAD_FAST"@[5] != "LOAD_NAME"@[5]);
        assert("LOAD_FAST"@.len() != "STORE_NAME"@.len());
    }
    assert(opcode_named("STORE_FAST"@) == BytecodeMap::StoreFast) by {
        reveal_strlit("LOAD_CONST");
        reveal_strlit("LOAD_NAME");
        reveal_strlit("STORE_NAME");
        reveal_strlit("LOAD_FAST");
        reveal_strlit("STORE_FAST");
        assert("STORE_FAST"@[0] != "LOAD_CONST"@[0]);
        assert("STORE_FAST"@.len() != "LOAD_NAME"@.len());
        assert("STORE_FAST"@[6] != "STORE_NAME"@[6]);
        assert("STORE_FAST"@.len() != "LOAD_FAST"@.len());
    }
    assert(opcode_named("LOAD_GLOBAL"@) == BytecodeMap::LoadGlobal) by {
        reveal_strlit("LOAD_CONST");
        reveal_strlit("LOAD_NAME");
        reveal_strlit("STORE_NAME");
        reveal_strlit("LOAD_FAST");
        reveal_strlit("STORE_FAST");
        reveal_strlit("LOAD_GLOBAL");
        assert("LOAD_GLOBAL"@.len() != "LOAD_CONST"@.len());
        assert("LOAD_GLOBAL"@.len() != "LOAD_NAME"@.len());
        assert("LOAD_GLOBAL"@.len() != "STORE_NAME"@.len());
        assert("LOAD_GLOBAL"@.len() != "LOAD_FAST"@.len());
        assert("LOAD_GLOBAL"@.len() != "STORE_FAST"@.len());
    }
    assert(opcode_named("STORE_GLOBAL"@) == BytecodeMap::StoreGlobal) by {
        reveal_strlit("LOAD_CONST");
        reveal_strlit("LOAD_NAME");
        reveal_strlit("STORE_NAME");
        reveal_strlit("LOAD_FAST");
        reveal_strlit("STORE_FAST");
        reveal_strlit("LOAD_GLOBAL");
        reveal_strlit("STORE_GLOBAL");
        assert("STORE_GLOBAL"@.len() != "LOAD_CONST"@.len());
        assert("STORE_GLOBAL"@.len() != "LOAD_NAME"@.len());
        assert("STORE_GLOBAL"@.len() != "STORE_NAME"@.len());
        assert("STORE_GLOBAL"@.len() != "LOAD_FAST"@.len());
        assert("STORE_GLOBAL"@.len() != "STORE_FAST"@.len());
        assert("STORE_GLOBAL"@.len() != "LOAD_GLOBAL"@.len());
    }
    assert(opcode_named("BUILD_LIST"@) == BytecodeMap::BuildList) by {
        reveal_strlit("LOAD_CONST");
        reveal_strlit("LOAD_NAME");
        reveal_strlit("STORE_NAME");
        reveal_strlit("LOAD_FAST");
        reveal_strlit("STORE_FAST");
        reveal_strlit("LOAD_GLOBAL");
        reveal_strlit("STORE_GLOBAL");
        reveal_strlit("BUILD_LIST");
        assert("BUILD_LIST"@[0] != "LOAD_CONST"@[0]);
        assert("BUILD_LIST"@.len() != "LOAD_NAME"@.len());
        assert("BUILD_LIST"@[0] != "STORE_NAME"@[0]);
        assert("BUILD_LIST"@.len() != "LOAD_FAST"@.len());
        assert("BUILD_LIST"@[0] != "STORE_FAST"@[0]);
        assert("BUILD_LIST"@.len() != "LOAD_GLOBAL"@.len());
        assert("BUILD_LIST"@.len() != "STORE_GLOBAL"@.len());
    }
    assert(opcode_named("BUILD_TUPLE"@) == BytecodeMap::BuildTuple) by {
        reveal_strlit("LOAD_CONST");
        reveal_strlit("LOAD_NAME");
        reveal_strlit("STORE_NAME");
        reveal_strlit("LOAD_FAST");
        reveal_strlit("STORE_FAST");
        reveal_strlit("LOAD_GLOBAL");
        reveal_strlit("STORE_GLOBAL");
        reveal_strlit("BUILD_LIST");
        reveal_strlit("BUILD_TUPLE");
        assert("BUILD_TUPLE"@.len() != "LOAD_CONST"@.len());
        assert("BUILD_TUPLE"@.len() != "LOAD_NAME"@.len());
        assert("BUILD_TUPLE"@.len() != "STORE_NAME"@.len());
        assert("BUILD_TUPLE"@.len() != "LOAD_FAST"@.len());
        assert("BUILD_TUPLE"@.len() != "STORE_FAST"@.len());
        assert("BUILD_TUPLE"@[0] != "LOAD_GLOBAL"@[0]);
        assert("BUILD_TUPLE"@.len() != "STORE_GLOBAL"@.len());
        assert("BUILD_TUPLE"@.len() != "BUILD_LIST"@.len());
    }
    assert(opcode_named("BUILD_SET"@) == BytecodeMap::BuildSet) by {
        reveal_strlit("LOAD_CONST");
        reveal_strlit("LOAD_NAME");
        reveal_strlit("STORE_NAME");
        reveal_strlit("LOAD_FAST");
        reveal_strlit("STORE_FAST");
        reveal_strlit("LOAD_GLOBAL");
        reveal_strlit("STORE_GLOBAL");
        reveal_strlit("BUILD_LIST");
        reveal_strlit("BUILD_TUPLE");
        reveal_strlit("BUILD_SET");
        assert("BUILD_SET"@.len() != "LOAD_CONST"@.len());
        assert("BUILD_SET"@[0] != "LOAD_NAME"@[0]);
        assert("BUILD_SET"@.len() != "STORE_NAME"@.len());
        assert("BUILD_SET"@[0] != "LOAD_FAST"@[0]);
        assert("BUILD_SET"@.len() != "STORE_FAST"@.len());
        assert("BUILD_SET"@.len() != "LOAD_GLOBAL"@.len());
        assert("BUILD_SET"@.len() != "STORE_GLOBAL"@.len());
        assert("BUILD_SET"@.len() != "BUILD_LIST"@.len());
        assert("BUILD_SET"@.len() != "BUILD_TUPLE"@.len());
    }
    assert(opcode_named("BUILD_MAP"@) == BytecodeMap::BuildMap) by {
        reveal_strlit("LOAD_CONST");
        reveal_strlit("LOAD_NAME");
        reveal_strlit("STORE_NAME");
        reveal_strlit("LOAD_FAST");
        reveal_strlit("STORE_FAST");
        reveal_strlit("LOAD_GLOBAL");
        reveal_strlit("STORE_GLOBAL");
        reveal_strlit("BUILD_LIST");
        reveal_strlit("BUILD_TUPLE");
        reveal_strlit("BUILD_SET");
        reveal_strlit("BUILD_MAP");
        assert("BUILD_MAP"@.len() != "LOAD_CONST"@.len());
        assert("BUILD_MAP"@[0] != "LOAD_NAME"@[0]);
        assert("BUILD_MAP"@.len() != "STORE_NAME"@.len());
        assert("BUILD_MAP"@[0] != "LOAD_FAST"@[0]);
        assert("BUILD_MAP"@.len() != "STORE_FAST"@.len());
        assert("BUILD_MAP"@.len() != "LOAD_GLOBAL"@.len());
        assert("BUILD_MAP"@.len() != "STORE_GLOBAL"@.len());
        assert("BUILD_MAP"@.len() != "BUILD_LIST"@.len());
        assert("BUILD_MAP"@.len() != "BUILD_TUPLE"@.len());
        assert("BUILD_MAP"@[6] != "BUILD_SET"@[6]);
    }
    assert(opcode_named("LOAD_ATTR"@) == BytecodeMap::LoadAttr) by {
        reveal_strlit("LOAD_CONST");
        reveal_strlit("LOAD_NAME");
        reveal_strlit("STORE_NAME");
        reveal_strlit("LOAD_FAST");
        reveal_strlit("STORE_FAST");
        reveal_strlit("LOAD_GLOBAL");
        reveal_strlit("STORE_GLOBAL");
        reveal_strlit("BUILD_LIST");
        reveal_strlit("BUILD_TUPLE");
        reveal_strlit("BUILD_SET");
        reveal_strlit("BUILD_MAP");
        reveal_strlit("LOAD_ATTR");
        assert("LOAD_ATTR"@.len() != "LOAD_CONST"@.len());
        assert("LOAD_ATTR"@[5] != "LOAD_NAME"@[5]);
        assert("LOAD_ATTR"@.len() != "STORE_NAME"@.len());
        assert("LOAD_ATTR"@[5] != "LOAD_FAST"@[5]);
        assert("LOAD_ATTR"@.len() != "STORE_FAST"@.len());
        assert("LOAD_ATTR"@.len() != "LOAD_GLOBAL"@.len());
        assert("LOAD_ATTR"@.len() != "STORE_GLOBAL"@.len());
        assert("LOAD_ATTR"@.len() != "BUILD_LIST"@.len());
        assert("LOAD_ATTR"@.len() != "BUILD_TUPLE"@.len());
        assert("LOAD_ATTR"@[0] != "BUILD_SET"@[0]);
        assert("LOAD_ATTR"@[0] != "BUILD_MAP"@[0]);
    }
    assert(opcode_named("STORE_ATTR"@) == BytecodeMap::StoreAttr) by {
        reveal_strlit("LOAD_CONST");
        reveal_strlit("LOAD_NAME");
        reveal_strlit("STORE_NAME");
        reveal_strlit("LOAD_FAST");
        reveal_strlit("STORE_FAST");
        reveal_strlit("LOAD_GLOBAL");
        reveal_strlit("STORE_GLOBAL");
        reveal_strlit("BUILD_LIST");
        reveal_strlit("BUILD_TUPLE");
        reveal_strlit("BUILD_SET");
        reveal_strlit("BUILD_MAP");
        reveal_strlit("LOAD_ATTR");
        reveal_strlit("STORE_ATTR");
        assert("STORE_ATTR"@[0] != "LOAD_CONST"@[0]);
        assert("STORE_ATTR"@.len() != "LOAD_NAME"@.len());
        assert("STORE_ATTR"@[6] != "STORE_NAME"@[6]);
        assert("STORE_ATTR"@.len() != "LOAD_FAST"@.len());
        assert("STORE_ATTR"@[6] != "STORE_FAST"@[6]);
        assert("STORE_ATTR"@.len() != "LOAD_GLOBAL"@.len());
        assert("STORE_ATTR"@.len() != "STORE_GLOBAL"@.len());
        assert("STORE_ATTR"@[0] != "BUILD_LIST"@[0]);
        assert("STORE_ATTR"@.len() != "BUILD_TUPLE"@.len());
        assert("STORE_ATTR"@.len() != "BUILD_SET"@.len());
        assert("STORE_ATTR"@.len() != "BUILD_MAP"@.len());
        assert("STORE_ATTR"@.len() != "LOAD_ATTR"@.len());
    }
    assert(opcode_named("BUILD_SLICE"@) == BytecodeMap::BuildSlice) by {
        reveal_strlit("LOAD_CONST");
        reveal_strlit("LOAD_NAME");
        reveal_strlit("STORE_NAME");
        reveal_strlit("LOAD_FAST");
        reveal_strlit("STORE_FAST");
        reveal_strlit("LOAD_GLOBAL");
        reveal_strlit("STORE_GLOBAL");
        reveal_strlit("BUILD_LIST");
        reveal_strlit("BUILD_TUPLE");
        reveal_strlit("BUILD_SET");
        reveal_strlit("BUILD_MAP");
        reveal_strlit("LOAD_ATTR");
        reveal_strlit("STORE_ATTR");
        reveal_strlit("BUILD_SLICE");
        assert("BUILD_SLICE"@.len() != "LOAD_CONST"@.len());
        assert("BUILD_SLICE"@.len() != "LOAD_NAME"@.len());
        assert("BUILD_SLICE"@.len() != "STORE_NAME"@.len());
        assert("BUILD_SLICE"@.len() != "LOAD_FAST"@.len());
        assert("BUILD_SLICE"@.len() != "STORE_FAST"@.len());
        assert("BUILD_SLICE"@[0] != "LOAD_GLOBAL"@[0]);
        assert("BUILD_SLICE"@.len() != "STORE_GLOBAL"@.len());
        assert("BUILD_SLICE"@.len() != "BUILD_LIST"@.len());
        assert("BUILD_SLICE"@[6] != "BUILD_TUPLE"@[6]);
        assert("BUILD_SLICE"@.len() != "BUILD_SET"@.len());
        assert("BUILD_SLICE"@.len() != "BUILD_MAP"@.len());
        assert("BUILD_SLICE"@.len() != "LOAD_ATTR"@.len());
        assert("BUILD_SLICE"@.len() != "STORE_ATTR"@.len());
    }
    assert(opcode_named("LOAD_SUBSCR"@) == BytecodeMap::LoadSubscr) by {
        reveal_strlit("LOAD_CONST");
        reveal_strlit("LOAD_NAME");
        reveal_strlit("STORE_NAME");
        reveal_strlit("LOAD_FAST");
        reveal_strlit("STORE_FAST");
        reveal_strlit("LOAD_GLOBAL");
        reveal_strlit("STORE_GLOBAL");
        reveal_strlit("BUILD_LIST");
        reveal_strlit("BUILD_TUPLE");
        reveal_strlit("BUILD_SET");
        reveal_strlit("BUILD_MAP");
        reveal_strlit("LOAD_ATTR");
        reveal_strlit("STORE_ATTR");
        reveal_strlit("BUILD_SLICE");
        reveal_strlit("LOAD_SUBSCR");
        assert("LOAD_SUBSCR"@.len() != "LOAD_CONST"@.len());
        assert("LOAD_SUBSCR"@.len() != "LOAD_NAME"@.len());
        assert("LOAD_SUBSCR"@.len() != "STORE_NAME"@.len());
        assert("LOAD_SUBSCR"@.len() != "LOAD_FAST"@.len());
        assert("LOAD_SUBSCR"@.len() != "STORE_FAST"@.len());
        assert("LOAD_SUBSCR"@[5] != "LOAD_GLOBAL"@[5]);
        assert("LOAD_SUBSCR"@.len() != "STORE_GLOBAL"@.len());
        assert("LOAD_SUBSCR"@.len() != "BUILD_LIST"@.len());
        assert("LOAD_SUBSCR"@[0] != "BUILD_TUPLE"@[0]);
        assert("LOAD_SUBSCR"@.len() != "BUILD_SET"@.len());
        assert("LOAD_SUBSCR"@.len() != "BUILD_MAP"@.len());
        assert("LOAD_SUBSCR"@.len() != "LOAD_ATTR"@.len());
        assert("LOAD_SUBSCR"@.len() != "STORE_ATTR"@.len());
        assert("LOAD_SUBSCR"@[0] != "BUILD_SLICE"@[0]);
    }
    assert(opcode_named("STORE_SUBSCR"@) == BytecodeMap::StoreSubscr) by {
        reveal_strlit("LOAD_CONST");
        reveal_strlit("LOAD_NAME");
        reveal_strlit("STORE_NAME");
        reveal_strlit("LOAD_FAST");
        reveal_strlit("STORE_FAST");
        reveal_strlit("LOAD_GLOBAL");
        reveal_strlit("STORE_GLOBAL");
        reveal_strlit("BUILD_LIST");
        reveal_strlit("BUILD_TUPLE");
        reveal_strlit("BUILD_SET");
        reveal_strlit("BUILD_MAP");
        reveal_strlit("LOAD_ATTR");
        reveal_strlit("STORE_ATTR");
        reveal_strlit("BUILD_SLICE");
        reveal_strlit("LOAD_SUBSCR");
        reveal_strlit("STORE_SUBSCR");
        assert("STORE_SUBSCR"@.len() != "LOAD_CONST"@.len());
        assert("STORE_SUBSCR"@.len() != "LOAD_NAME"@.len());
        assert("STORE_SUBSCR"@.len() != "STORE_NAME"@.len());
        assert("STORE_SUBSCR"@.len() != "LOAD_FAST"@.len());
        assert("STORE_SUBSCR"@.len() != "STORE_FAST"@.len());
        assert("STORE_SUBSCR"@.len() != "LOAD_GLOBAL"@.len());
        assert("STORE_SUBSCR"@[6] != "STORE_GLOBAL"@[6]);
        assert("STORE_SUBSCR"@.len() != "BUILD_LIST"@.len());
        assert("STORE_SUBSCR"@.len() != "BUILD_TUPLE"@.len());
        assert("STORE_SUBSCR"@.len() != "BUILD_SET"@.len());
        assert("STORE_SUBSCR"@.len() != "BUILD_MAP"@.len());
        assert("STORE_SUBSCR"@.len() != "LOAD_ATTR"@.len());
        assert("STORE_SUBSCR"@.len() != "STORE_ATTR"@.len());
        assert("STORE_SUBSCR"@.len() != "BUILD_SLICE"@.len());
        assert("STORE_SUBSCR"@.len() != "LOAD_SUBSCR"@.len());
    }
    assert(opcode_named("SETUP_LOOP"@) == BytecodeMap::SetupLoop) by {
        reveal_strlit("LOAD_CONST");
        reveal_strlit("LOAD_NAME");
        reveal_strlit("STORE_NAME");
        reveal_strlit("LOAD_FAST");
        reveal_strlit("STORE_FAST");
        reveal_strlit("LOAD_GLOBAL");
        reveal_strlit("STORE_GLOBAL");
        reveal_strlit("BUILD_LIST");
        reveal_strlit("BUILD_TUPLE");
        reveal_strlit("BUILD_SET");
        reveal_strlit("BUILD_MAP");
        reveal_strlit("LOAD_ATTR");
        reveal_strlit("STORE_ATTR");
        reveal_strlit("BUILD_SLICE");
        reveal_strlit("LOAD_SUBSCR");
        reveal_strlit("STORE_SUBSCR");
        reveal_strlit("SETUP_LOOP");
        assert("SETUP_LOOP"@[0] != "LOAD_CONST"@[0]);
        assert("SETUP_LOOP"@.len() != "LOAD_NAME"@.len());
        assert("SETUP_LOOP"@[1] != "STORE_NAME"@[1]);
        assert("SETUP_LOOP"@.len() != "LOAD_FAST"@.len());
        assert("SETUP_LOOP"@[1] != "STORE_FAST"@[1]);
        assert("SETUP_LOOP"@.len() != "LOAD_GLOBAL"@.len());
        assert("SETUP_LOOP"@.len() != "STORE_GLOBAL"@.len());
        assert("SETUP_LOOP"@[0] != "BUILD_LIST"@[0]);
        assert("SETUP_LOOP"@.len() != "BUILD_TUPLE"@.len());
        assert("SETUP_LOOP"@.len() != "BUILD_SET"@.len());
        assert("SETUP_LOOP"@.len() != "BUILD_MAP"@.len());
        assert("SETUP_LOOP"@.len() != "LOAD_ATTR"@.len());
        assert("SETUP_LOOP"@[1] != "STORE_ATTR"@[1]);
        assert("SETUP_LOOP"@.len() != "BUILD_SLICE"@.len());
        assert("SETUP_LOOP"@.len() != "LOAD_SUBSCR"@.len());
        assert("SETUP_LOOP"@.len() != "STORE_SUBSCR"@.len());
    }
    assert(opcode_named("JUMP_ABSOLUTE"@) == BytecodeMap::JumpAbsolute) by {
        reveal_strlit("LOAD_CONST");
        reveal_strlit("LOAD_NAME");
        reveal_strlit("STORE_NAME");
        reveal_strlit("LOAD_FAST");
        reveal_strlit("STORE_FAST");
        reveal_strlit("LOAD_GLOBAL");
        reveal_strlit("STORE_GLOBAL");
        reveal_strlit("BUILD_LIST");
        reveal_strlit("BUILD_TUPLE");
        reveal_strlit("BUILD_SET");
        reveal_strlit("BUILD_MAP");
        reveal_strlit("LOAD_ATTR");
        reveal_strlit("STORE_ATTR");
        reveal_strlit("BUILD_SLICE");
        reveal_strlit("LOAD_SUBSCR");
        reveal_strlit("STORE_SUBSCR");
        reveal_strlit("SETUP_LOOP");
        reveal_strlit("JUMP_ABSOLUTE");
        assert("JUMP_ABSOLUTE"@.len() != "LOAD_CONST"@.len());
        assert("JUMP_ABSOLUTE"@.len() != "LOAD_NAME"@.len());
        assert("JUMP_ABSOLUTE"@.len() != "STORE_NAME"@.len());
        assert("JUMP_ABSOLUTE"@.len() != "LOAD_FAST"@.len());
        assert("JUMP_ABSOLUTE"@.len() != "STORE_FAST"@.len());
        assert("JUMP_ABSOLUTE"@.len() != "LOAD_GLOBAL"@.len());
        assert("JUMP_ABSOLUTE"@.len() != "STORE_GLOBAL"@.len());
        assert("JUMP_ABSOLUTE"@.len() != "BUILD_LIST"@.len());
        assert("JUMP_ABSOLUTE"@.len() != "BUILD_TUPLE"@.len());
        assert("JUMP_ABSOLUTE"@.len() != "BUILD_SET"@.len());
        assert("JUMP_ABSOLUTE"@.len() != "BUILD_MAP"@.len());
        assert("JUMP_ABSOLUTE"@.len() != "LOAD_ATTR"@.len());
        assert("JUMP_ABSOLUTE"@.len() != "STORE_ATTR"@.len());
        assert("JUMP_ABSOLUTE"@.len() != "BUILD_SLICE"@.len());
        assert("JUMP_ABSOLUTE"@.len() != "LOAD_SUBSCR"@.len());
        assert("JUMP_ABSOLUTE"@.len() != "STORE_SUBSCR"@.len());
        assert("JUMP_ABSOLUTE"@.len() != "SETUP_LOOP"@.len());
    }
    assert(opcode_named("POP_JUMP_IF_FALSE"@) == BytecodeMap::PopJumpIfFalse) by {
        reveal_strlit("LOAD_CONST");
        reveal_strlit("LOAD_NAME");
        reveal_strlit("STORE_NAME");
        reveal_strlit("LOAD_FAST");
        reveal_strlit("STORE_FAST");
        reveal_strlit("LOAD_GLOBAL");
        reveal_strlit("STORE_GLOBAL");
        reveal_strlit("BUILD_LIST");
        reveal_strlit("BUILD_TUPLE");
        reveal_strlit("BUILD_SET");
        reveal_strlit("BUILD_MAP");
        reveal_strlit("LOAD_ATTR");
        reveal_strlit("STORE_ATTR");
        reveal_strlit("BUILD_SLICE");
        reveal_strlit("LOAD_SUBSCR");
        reveal_strlit("STORE_SUBSCR");
        reveal_strlit("SETUP_LOOP");
        reveal_strlit("JUMP_ABSOLUTE");
        reveal_strlit("POP_JUMP_IF_FALSE");
        assert("POP_JUMP_IF_FALSE"@.len() != "LOAD_CONST"@.len());
        assert("POP_JUMP_IF_FALSE"@.len() != "LOAD_NAME"@.len());
        assert("POP_JUMP_IF_FALSE"@.len() != "STORE_NAME"@.len());
        assert("POP_JUMP_IF_FALSE"@.len() != "LOAD_FAST"@.len());
        assert("POP_JUMP_IF_FALSE"@.len() != "STORE_FAST"@.len());
        assert("POP_JUMP_IF_FALSE"@.len() != "LOAD_GLOBAL"@.len());
        assert("POP_JUMP_IF_FALSE"@.len() != "STORE_GLOBAL"@.len());
        assert("POP_JUMP_IF_FALSE"@.len() != "BUILD_LIST"@.len());
        assert("POP_JUMP_IF_FALSE"@.len() != "BUILD_TUPLE"@.len());
        assert("POP_JUMP_IF_FALSE"@.len() != "BUILD_SET"@.len());
        assert("POP_JUMP_IF_FALSE"@.len() != "BUILD_MAP"@.len());
        assert("POP_JUMP_IF_FALSE"@.len() != "LOAD_ATTR"@.len());
        assert("POP_JUMP_IF_FALSE"@.len() != "STORE_ATTR"@.len());
        assert("POP_JUMP_IF_FALSE"@.len() != "BUILD_SLICE"@.len());
        assert("POP_JUMP_IF_FALSE"@.len() != "LOAD_SUBSCR"@.len());
        assert("POP_JUMP_IF_FALSE"@.len() != "STORE_SUBSCR"@.len());
        assert("POP_JUMP_IF_FALSE"@.len() != "SETUP_LOOP"@.len());
        assert("POP_JUMP_IF_FALSE"@.len() != "JUMP_ABSOLUTE"@.len());
    }
    assert(opcode_named("POP_JUMP_IF_TRUE"@) == BytecodeMap::PopJumpIfTrue) by {
        reveal_strlit("LOAD_CONST");
        reveal_strlit("LOAD_NAME");
        reveal_strlit("STORE_NAME");
        reveal_strlit("LOAD_FAST");
        reveal_strlit("STORE_FAST");
        reveal_strlit("LOAD_GLOBAL");
        reveal_strlit("STORE_GLOBAL");
        reveal_strlit("BUILD_LIST");
        reveal_strlit("BUILD_TUPLE");
        reveal_strlit("BUILD_SET");
        reveal_strlit("BUILD_MAP");
        reveal_strlit("LOAD_ATTR");
        reveal_strlit("STORE_ATTR");
        reveal_strlit("BUILD_SLICE");
        reveal_strlit("LOAD_SUBSCR");
        reveal_strlit("STORE_SUBSCR");
        reveal_strlit("SETUP_LOOP");
        reveal_strlit("JUMP_ABSOLUTE");
        reveal_strlit("POP_JUMP_IF_FALSE");
        reveal_strlit("POP_JUMP_IF_TRUE");
        assert("POP_JUMP_IF_TRUE"@.len() != "LOAD_CONST"@.len());
        assert("POP_JUMP_IF_TRUE"@.len() != "LOAD_NAME"@.len());
        assert("POP_JUMP_IF_TRUE"@.len() != "STORE_NAME"@.len());
        assert("POP_JUMP_IF_TRUE"@.len() != "LOAD_FAST"@.len());
        assert("POP_JUMP_IF_TRUE"@.len() != "STORE_FAST"@.len());
        assert("POP_JUMP_IF_TRUE"@.len() != "LOAD_GLOBAL"@.len());
        assert("POP_JUMP_IF_TRUE"@.len() != "STORE_GLOBAL"@.len());
        assert("POP_JUMP_IF_TRUE"@.len() != "BUILD_LIST"@.len());
        assert("POP_JUMP_IF_TRUE"@.len() != "BUILD_TUPLE"@.len());
        assert("POP_JUMP_IF_TRUE"@.len() != "BUILD_SET"@.len());
        assert("POP_JUMP_IF_TRUE"@.len() != "BUILD_MAP"@.len());
        assert("POP_JUMP_IF_TRUE"@.len() != "LOAD_ATTR"@.len());
        assert("POP_JUMP_IF_TRUE"@.len() != "STORE_ATTR"@.len());
        assert("POP_JUMP_IF_TRUE"@.len() != "BUILD_SLICE"@.len());
        assert("POP_JUMP_IF_TRUE"@.len() != "LOAD_SUBSCR"@.len());
        assert("POP_JUMP_IF_TRUE"@.len() != "STORE_SUBSCR"@.len());
        assert("POP_JUMP_IF_TRUE"@.len() != "SETUP_LOOP"@.len());
        assert("POP_JUMP_IF_TRUE"@.len() != "JUMP_ABSOLUTE"@.len());
        assert("POP_JUMP_IF_TRUE"@.len() != "POP_JUMP_IF_FALSE"@.len());
    }
    assert(opcode_named("JUMP_FORWARD"@) == BytecodeMap::JumpForward) by {
        reveal_strlit("LOAD_CONST");
        reveal_strlit("LOAD_NAME");
        reveal_strlit("STORE_NAME");
        reveal_strlit("LOAD_FAST");
        reveal_strlit("STORE_FAST");
        reveal_strlit("LOAD_GLOBAL");
        reveal_strlit("STORE_GLOBAL");
        reveal_strlit("BUILD_LIST");
        reveal_strlit("BUILD_TUPLE");
        reveal_strlit("BUILD_SET");
        reveal_strlit("BUILD_MAP");
        reveal_strlit("LOAD_ATTR");
        reveal_strlit("STORE_ATTR");
        reveal_strlit("BUILD_SLICE");
        reveal_strlit("LOAD_SUBSCR");
        reveal_strlit("STORE_SUBSCR");
        reveal_strlit("SETUP_LOOP");
        reveal_strlit("JUMP_ABSOLUTE");
        reveal_strlit("POP_JUMP_IF_FALSE");
        reveal_strlit("POP_JUMP_IF_TRUE");
        reveal_strlit("JUMP_FORWARD");
        assert("JUMP_FORWARD"@.len() != "LOAD_CONST"@.len());
        assert("JUMP_FORWARD"@.len() != "LOAD_NAME"@.len());
        assert("JUMP_FORWARD"@.len() != "STORE_NAME"@.len());
        assert("JUMP_FORWARD"@.len() != "LOAD_FAST"@.len());
        assert("JUMP_FORWARD"@.len() != "STORE_FAST"@.len());
        assert("JUMP_FORWARD"@.len() != "LOAD_GLOBAL"@.len());
        assert("JUMP_FORWARD"@[0] != "STORE_GLOBAL"@[0]);
        assert("JUMP_FORWARD"@.len() != "BUILD_LIST"@.len());
        assert("JUMP_FORWARD"@.len() != "BUILD_TUPLE"@.len());
        assert("JUMP_FORWARD"@.len() != "BUILD_SET"@.len());
        assert("JUMP_FORWARD"@.len() != "BUILD_MAP"@.len());
        assert("JUMP_FORWARD"@.len() != "LOAD_ATTR"@.len());
        assert("JUMP_FORWARD"@.len() != "STORE_ATTR"@.len());
        assert("JUMP_FORWARD"@.len() != "BUILD_SLICE"@.len());
        assert("JUMP_FORWARD"@.len() != "LOAD_SUBSCR"@.len());
        assert("JUMP_FORWARD"@[0] != "STORE_SUBSCR"@[0]);
        assert("JUMP_FORWARD"@.len() != "SETUP_LOOP"@.len());
        assert("JUMP_FORWARD"@.len() != "JUMP_ABSOLUTE"@.len());
        assert("JUMP_FORWARD"@.len() != "POP_JUMP_IF_FALSE"@.len());
        assert("JUMP_FORWARD"@.len() != "POP_JUMP_IF_TRUE"@.len());
    }
    assert(opcode_named("COMPARE_OP"@) == BytecodeMap::CompareOp) by {
        reveal_strlit("LOAD_CONST");
        reveal_strlit("LOAD_NAME");
        reveal_strlit("STORE_NAME");
        reveal_strlit("LOAD_FAST");
        reveal_strlit("STORE_FAST");
        reveal_strlit("LOAD_GLOBAL");
        reveal_strlit("STORE_GLOBAL");
        reveal_strlit("BUILD_LIST");
        reveal_strlit("BUILD_TUPLE");
        reveal_strlit("BUILD_SET");
        reveal_strlit("BUILD_MAP");
        reveal_strlit("LOAD_ATTR");
        reveal_strlit("STORE_ATTR");
        reveal_strlit("BUILD_SLICE");
        reveal_strlit("LOAD_SUBSCR");
        reveal_strlit("STORE_SUBSCR");
        reveal_strlit("SETUP_LOOP");
        reveal_strlit("JUMP_ABSOLUTE");
        reveal_strlit("POP_JUMP_IF_FALSE");
        reveal_strlit("POP_JUMP_IF_TRUE");
        reveal_strlit("JUMP_FORWARD");
        reveal_strlit("COMPARE_OP");
        assert("COMPARE_OP"@[0] != "LOAD_CONST"@[0]);
        assert("COMPARE_OP"@.len() != "LOAD_NAME"@.len());
        assert("COMPARE_OP"@[0] != "STORE_NAME"@[0]);
        assert("COMPARE_OP"@.len() != "LOAD_FAST"@.len());
        assert("COMPARE_OP"@[0] != "STORE_FAST"@[0]);
        assert("COMPARE_OP"@.len() != "LOAD_GLOBAL"@.len());
        assert("COMPARE_OP"@.len() != "STORE_GLOBAL"@.len());
        assert("COMPARE_OP"@[0] != "BUILD_LIST"@[0]);
        assert("COMPARE_OP"@.len() != "BUILD_TUPLE"@.len());
        assert("COMPARE_OP"@.len() != "BUILD_SET"@.len());
        assert("COMPARE_OP"@.len() != "BUILD_MAP"@.len());
        assert("COMPARE_OP"@.len() != "LOAD_ATTR"@.len());
        assert("COMPARE_OP"@[0] != "STORE_ATTR"@[0]);
        assert("COMPARE_OP"@.len() != "BUILD_SLICE"@.len());
        assert("COMPARE_OP"@.len() != "LOAD_SUBSCR"@.len());
        assert("COMPARE_OP"@.len() != "STORE_SUBSCR"@.len());
        assert("COMPARE_OP"@[0] != "SETUP_LOOP"@[0]);
        assert("COMPARE_OP"@.len() != "JUMP_ABSOLUTE"@.len());
        assert("COMPARE_OP"@.len() != "POP_JUMP_IF_FALSE"@.len());
        assert("COMPARE_OP"@.len() != "POP_JUMP_IF_TRUE"@.len());
        assert("COMPARE_OP"@.len() != "JUMP_FORWARD"@.len());
    }
    assert(opcode_named("MAKE_FUNCTION"@) == BytecodeMap::MakeFunction) by {
        reveal_strlit("LOAD_CONST");
        reveal_strlit("LOAD_NAME");
        reveal_strlit("STORE_NAME");
        reveal_strlit("LOAD_FAST");
        reveal_strlit("STORE_FAST");
        reveal_strlit("LOAD_GLOBAL");
        reveal_strlit("STORE_GLOBAL");
        reveal_strlit("BUILD_LIST");
        reveal_strlit("BUILD_TUPLE");
        reveal_strlit("BUILD_SET");
        reveal_strlit("BUILD_MAP");
        reveal_strlit("LOAD_ATTR");
        reveal_strlit("STORE_ATTR");
        reveal_strlit("BUILD_SLICE");
        reveal_strlit("LOAD_SUBSCR");
        reveal_strlit("STORE_SUBSCR");
        reveal_strlit("SETUP_LOOP");
        reveal_strlit("JUMP_ABSOLUTE");
        reveal_strlit("POP_JUMP_IF_FALSE");
        reveal_strlit("POP_JUMP_IF_TRUE");
        reveal_strlit("JUMP_FORWARD");
        reveal_strlit("COMPARE_OP");
        reveal_strlit("MAKE_FUNCTION");
        assert("MAKE_FUNCTION"@.len() != "LOAD_CONST"@.len());
        assert("MAKE_FUNCTION"@.len() != "LOAD_NAME"@.len());
        assert("MAKE_FUNCTION"@.len() != "STORE_NAME"@.len());
        assert("MAKE_FUNCTION"@.len() != "LOAD_FAST"@.len());
        assert("MAKE_FUNCTION"@.len() != "STORE_FAST"@.len());
        assert("MAKE_FUNCTION"@.len() != "LOAD_GLOBAL"@.len());
        assert("MAKE_FUNCTION"@.len() != "STORE_GLOBAL"@.len());
        assert("MAKE_FUNCTION"@.len() != "BUILD_LIST"@.len());
        assert("MAKE_FUNCTION"@.len() != "BUILD_TUPLE"@.len());
        assert("MAKE_FUNCTION"@.len() != "BUILD_SET"@.len());
        assert("MAKE_FUNCTION"@.len() != "BUILD_MAP"@.len());
        assert("MAKE_FUNCTION"@.len() != "LOAD_ATTR"@.len());
        assert("MAKE_FUNCTION"@.len() != "STORE_ATTR"@.len());
        assert("MAKE_FUNCTION"@.len() != "BUILD_SLICE"@.len());
        assert("MAKE_FUNCTION"@.len() != "LOAD_SUBSCR"@.len());
        assert("MAKE_FUNCTION"@.len() != "STORE_SUBSCR"@.len());
        assert("MAKE_FUNCTION"@.len() != "SETUP_LOOP"@.len());
        assert("MAKE_FUNCTION"@[0] != "JUMP_ABSOLUTE"@[0]);
        assert("MAKE_FUNCTION"@.len() != "POP_JUMP_IF_FALSE"@.len());
        assert("MAKE_FUNCTION"@.len() != "POP_JUMP_IF_TRUE"@.len());
        assert("MAKE_FUNCTION"@.len() != "JUMP_FORWARD"@.len());
        assert("MAKE_FUNCTION"@.len() != "COMPARE_OP"@.len());
    }
    assert(opcode_named("LIST_EXTEND"@) == BytecodeMap::ListExtend) by {
        reveal_strlit("LOAD_CONST");
        reveal_strlit("LOAD_NAME");
        reveal_strlit("STORE_NAME");
        reveal_strlit("LOAD_FAST");
        reveal_strlit("STORE_FAST");
        reveal_strlit("LOAD_GLOBAL");
        reveal_strlit("STORE_GLOBAL");
        reveal_strlit("BUILD_LIST");
        reveal_strlit("BUILD_TUPLE");
        reveal_strlit("BUILD_SET");
        reveal_strlit("BUILD_MAP");
        reveal_strlit("LOAD_ATTR");
        reveal_strlit("STORE_ATTR");
        reveal_strlit("BUILD_SLICE");
        reveal_strlit("LOAD_SUBSCR");
        reveal_strlit("STORE_SUBSCR");
        reveal_strlit("SETUP_LOOP");
        reveal_strlit("JUMP_ABSOLUTE");
        reveal_strlit("POP_JUMP_IF_FALSE");
        reveal_strlit("POP_JUMP_IF_TRUE");
        reveal_strlit("JUMP_FORWARD");
        reveal_strlit("COMPARE_OP");
        reveal_strlit("MAKE_FUNCTION");
        reveal_strlit("LIST_EXTEND");
        assert("LIST_EXTEND"@.len() != "LOAD_CONST"@.len());
        assert("LIST_EXTEND"@.len() != "LOAD_NAME"@.len());
        assert("LIST_EXTEND"@.len() != "STORE_NAME"@.len());
        assert("LIST_EXTEND"@.len() != "LOAD_FAST"@.len());
        assert("LIST_EXTEND"@.len() != "STORE_FAST"@.len());
        assert("LIST_EXTEND"@[1] != "LOAD_GLOBAL"@[1]);
        assert("LIST_EXTEND"@.len() != "STORE_GLOBAL"@.len());
        assert("LIST_EXTEND"@.len() != "BUILD_LIST"@.len());
        assert("LIST_EXTEND"@[0] != "BUILD_TUPLE"@[0]);
        assert("LIST_EXTEND"@.len() != "BUILD_SET"@.len());
        assert("LIST_EXTEND"@.len() != "BUILD_MAP"@.len());
        assert("LIST_EXTEND"@.len() != "LOAD_ATTR"@.len());
        assert("LIST_EXTEND"@.len() != "STORE_ATTR"@.len());
        assert("LIST_EXTEND"@[0] != "BUILD_SLICE"@[0]);
        assert("LIST_EXTEND"@[1] != "LOAD_SUBSCR"@[1]);
        assert("LIST_EXTEND"@.len() != "STORE_SUBSCR"@.len());
        assert("LIST_EXTEND"@.len() != "SETUP_LOOP"@.len());
        assert("LIST_EXTEND"@.len() != "JUMP_ABSOLUTE"@.len());
        assert("LIST_EXTEND"@.len() != "POP_JUMP_IF_FALSE"@.len());
        assert("LIST_EXTEND"@.len() != "POP_JUMP_IF_TRUE"@.len());
        assert("LIST_EXTEND"@.len() != "JUMP_FORWARD"@.len());
        assert("LIST_EXTEND"@.len() != "COMPARE_OP"@.len());
        assert("LIST_EXTEND"@.len() != "MAKE_FUNCTION"@.len());
    }
}

} // verus!
