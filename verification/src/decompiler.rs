//! The whole decompiler: every code object parsed into one map, then the
//! statements of the main code object written back as Python source.

use vstd::prelude::*;
use crate::common::order_map::OrderMap;
use crate::opcode::OpcodeInstruction;
use crate::parser::parse;
use crate::parser::spec::{abs, perr, run, sane, store_of, PErr, PState, ParseError};
use crate::query::QueryMap;
use crate::query_id::QueryId;
use crate::ast::ExpressionEnum;
use crate::text::{join, join_seq, strings_view, str_eq};
use crate::visit::{render, PyNodeVisitor, Unparser, MAX_DEPTH};

verus! {

/// Code objects by name, each with its instructions in order.
pub type CodeObjects = OrderMap<String, Vec<OpcodeInstruction>>;

/// The state of an empty map.
pub open spec fn start_state() -> PState {
    PState { store: store_of(Map::<QueryId, ExpressionEnum>::empty()), count: 0, stack: Seq::empty() }
}

/// `st` with its stack emptied: the state in which the next code object is
/// parsed.
pub open spec fn fresh_state(st: PState) -> PState {
    PState { stack: Seq::empty(), ..st }
}

/// The code objects `objs[i..]`, named `marks[i..]`, parsed one after
/// another from `st`: the last state and the ids of the last object named
/// `<main>` (`main` before `i`); an error stops at the first object that
/// fails, and `None` stands for a parse that does not come back.
pub open spec fn parse_all(
    st: PState,
    marks: Seq<Seq<char>>,
    objs: Seq<Seq<OpcodeInstruction>>,
    i: nat,
    main: Option<Seq<QueryId>>,
) -> Option<Result<(PState, Option<Seq<QueryId>>), PErr>>
    decreases objs.len() - i,
{
    if i >= objs.len() || i >= marks.len() {
        Some(Ok((st, main)))
    } else {
        match run(fresh_state(st), objs[i as int], 0) {
            None => None,
            Some(Err(e)) => Some(Err(e)),
            Some(Ok(s)) => parse_all(
                s,
                marks,
                objs,
                i + 1,
                if marks[i as int] == "<main>"@ {
                    Some(s.stack)
                } else {
                    main
                },
            ),
        }
    }
}

/// The names of the code objects.
pub open spec fn marks_of(m: CodeObjects) -> Seq<Seq<char>> {
    m.spec_keys().map_values(|k: String| k@)
}

/// The instructions of the code objects.
pub open spec fn objects_of(m: CodeObjects) -> Seq<Seq<OpcodeInstruction>> {
    m.spec_values().map_values(|v: Vec<OpcodeInstruction>| v@)
}

/// Whether the map `m` holds what the parser state `st` describes.
pub open spec fn holds_state(m: QueryMap, st: PState) -> bool {
    store_of(m@) == st.store && m.count() == st.count
}

/// Whether every id of `ids` is filed in `m` and can be written.
pub open spec fn writable(m: QueryMap, ids: Seq<QueryId>) -> bool {
    forall|i: int|
        0 <= i < ids.len() ==> (#[trigger] m.lookup(ids[i])) is Some && render(
            Seq::empty(),
            m.lookup(ids[i])->0,
            m,
            4,
            MAX_DEPTH as nat,
        ) is Some
}

/// The lines of the statements `ids`, each written by a fresh unparser.
pub open spec fn main_lines(m: QueryMap, ids: Seq<QueryId>) -> Seq<Seq<char>>
    decreases ids.len(),
{
    if ids.len() == 0 {
        Seq::empty()
    } else {
        main_lines(m, ids.drop_last()) + render(
            Seq::empty(),
            m.lookup(ids.last())->0,
            m,
            4,
            MAX_DEPTH as nat,
        )->0
    }
}

/// Whether the code objects can be decompiled: each is well formed, parsing
/// comes back, and where it succeeds there is a `<main>` object whose
/// statements can be written from any map that holds the parsed state.
pub open spec fn decompiles(code_map: CodeObjects) -> bool {
    &&& code_map.wf()
    &&& forall|i: int| 0 <= i < objects_of(code_map).len() ==> sane(#[trigger] objects_of(code_map)[i])
    &&& parse_all(start_state(), marks_of(code_map), objects_of(code_map), 0, None) matches Some(r)
    &&& r matches Ok((st, main)) ==> {
        &&& main is Some
        &&& forall|m: QueryMap| m.wf() && holds_state(m, st) ==> #[trigger] writable(m, main->0)
    }
}

/// Decompiles the code objects: parses each into one map, then writes the
/// statements of the last object named `<main>`, one line per line of
/// Python, joined by `newline` (the platform's line break).
pub fn code_gen(code_map: CodeObjects, newline: &str) -> (r: Result<String, ParseError>)
    requires
        decompiles(code_map),
    ensures
        match parse_all(start_state(), marks_of(code_map), objects_of(code_map), 0, None).unwrap() {
            Err(e) => r matches Err(x) && perr(x) == e,
            Ok((st, main)) => r matches Ok(s) && exists|m: QueryMap|
                m.wf() && holds_state(m, st) && s@ == join_seq(main_lines(m, main->0), newline@),
        },
{
    let ghost marks = marks_of(code_map);
    let ghost objs = objects_of(code_map);
    let ghost goal = parse_all(start_state(), marks, objs, 0, None);
    let mut query_map = QueryMap::new();
    let mut main: Option<Vec<QueryId>> = None;
    let entries = code_map.iter();
    proof {
        assert(store_of(query_map@) == store_of(Map::<QueryId, ExpressionEnum>::empty()));
        assert(abs(query_map, Seq::empty()) == start_state());
    }
    let ghost st0 = start_state();
    let ghost mut cur: PState = start_state();
    let mut k: usize = 0;
    while k < entries.len()
        invariant
            k <= entries@.len(),
            entries@.len() == code_map.spec_keys().len(),
            code_map.wf(),
            marks == marks_of(code_map),
            objs == objects_of(code_map),
            forall|i: int|
                0 <= i < entries@.len() ==> *(#[trigger] entries@[i]).0 == code_map.spec_keys()[i]
                    && *entries@[i].1 == code_map.spec_values()[i],
            forall|i: int| 0 <= i < objs.len() ==> sane(#[trigger] objs[i]),
            query_map.wf(),
            abs(query_map, Seq::empty()) == fresh_state(cur),
            goal == parse_all(start_state(), marks, objs, 0, None),
            goal is Some,
            goal == parse_all(cur, marks, objs, k as nat, match main {
                Some(v) => Some(v@),
                None => None,
            }),
        decreases entries@.len() - k,
    {
        let (mark, instrs) = entries[k];
        assert(objs[k as int] == instrs@);
        assert(marks[k as int] == mark@);
        assert(sane(objs[k as int]));
        let ids = match parse(&mut query_map, instrs.as_slice()) {
            Ok(ids) => ids,
            Err(e) => { return Err(e); },
        };
        proof {
            cur = PState { store: store_of(query_map@), count: query_map.count(), stack: ids@ };
        }
        if str_eq(mark.as_str(), "<main>") {
            main = Some(ids);
        }
        k = k + 1;
    }
    let ghost mview = match &main {
        Some(v) => Some(v@),
        None => None,
    };
    proof {
        assert(objs.len() == entries@.len());
        assert(marks.len() == entries@.len());
        assert(goal == Some(Ok::<(PState, Option<Seq<QueryId>>), PErr>((cur, mview))));
        assert(holds_state(query_map, cur));
    }
    let main = match main {
        Some(v) => v,
        None => {
            proof {
                assert(false);
            }
            Vec::new()
        },
    };
    proof {
        assert(mview == Some(main@));
        assert(decompiles(code_map));
        assert(parse_all(start_state(), marks_of(code_map), objects_of(code_map), 0, None) == goal);
        assert(forall|m: QueryMap| m.wf() && holds_state(m, cur) ==> #[trigger] writable(m, mview->0));
        assert(writable(query_map, mview->0));
    }
    let mut res: Vec<String> = Vec::new();
    let mut i: usize = 0;
    proof {
        assert(main@.take(0) =~= Seq::<QueryId>::empty());
        assert(strings_view(res@) =~= Seq::<Seq<char>>::empty());
    }
    while i < main.len()
        invariant
            i <= main@.len(),
            query_map.wf(),
            writable(query_map, main@),
            strings_view(res@) == main_lines(query_map, main@.take(i as int)),
        decreases main@.len() - i,
    {
        let id = main[i];
        assert(query_map.lookup(main@[i as int]) is Some);
        let code = match query_map.get_single(id) {
            Some(c) => c,
            None => {
                proof {
                    assert(false);
                }
                return Ok(String::new());
            },
        };
        let mut unparser = Unparser::new();
        let lines = unparser.visit(code, &query_map);
        let ghost before = strings_view(res@);
        let mut more = lines;
        let ghost mv = strings_view(more@);
        res.append(&mut more);
        proof {
            assert(strings_view(res@) =~= before + mv);
            assert(main@.take(i + 1).drop_last() =~= main@.take(i as int));
            assert(main@.take(i + 1).last() == main@[i as int]);
        }
        i = i + 1;
    }
    proof {
        assert(main@.take(main@.len() as int) =~= main@);
    }
    Ok(join(&res, newline))
}

/// Decompiled source: lines of Python, each with the number it was given.
pub struct DecompiledCode {
    code: Vec<(usize, String)>,
}

impl View for DecompiledCode {
    type V = Seq<(usize, Seq<char>)>;

    closed spec fn view(&self) -> Seq<(usize, Seq<char>)> {
        self.code@.map_values(|e: (usize, String)| (e.0, e.1@))
    }
}

impl DecompiledCode {
    /// No lines.
    pub fn new() -> (r: Self)
        ensures
            r@ == Seq::<(usize, Seq<char>)>::empty(),
    {
        let r = DecompiledCode { code: Vec::new() };
        assert(r@ =~= Seq::<(usize, Seq<char>)>::empty());
        r
    }

    /// Adds the line `s`, numbered `l`, after the others.
    pub fn insert(&mut self, l: usize, s: &str)
        ensures
            final(self)@ == old(self)@.push((l, s@)),
    {
        self.code.push((l, String::from_str(s)));
        assert(self@ =~= old(self)@.push((l, s@)));
    }

    /// The lines in order, each with its number.
    pub fn iter(&self) -> (r: Vec<(usize, &String)>)
        ensures
            r@.len() == self@.len(),
            forall|i: int| 0 <= i < r@.len() ==> r@[i].0 == self@[i].0 && r@[i].1@ == self@[i].1,
    {
        let mut r: Vec<(usize, &String)> = Vec::new();
        let mut i: usize = 0;
        while i < self.code.len()
            invariant
                i <= self.code@.len(),
                r@.len() == i,
                forall|j: int| 0 <= j < i ==> r@[j].0 == self@[j].0 && r@[j].1@ == self@[j].1,
            decreases self.code@.len() - i,
        {
            let e = &self.code[i];
            r.push((e.0, &e.1));
            i = i + 1;
        }
        r
    }
}

} // verus!
