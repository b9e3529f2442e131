//! The record kept while reading a code object: its local variables, its
//! jumps and whether it is a coroutine.

use vstd::prelude::*;
use super::order_map::{OrderMap, first_index, inserted};

verus! {

/// A local variable slot.
#[derive(Debug, Clone)]
pub struct Local {
    pub name: String,
    pub is_store: bool,
    pub is_arg: bool,
}

impl Default for Local {
    fn default() -> (r: Local)
        ensures
            r.name@ == Seq::<char>::empty(),
            !r.is_store,
            !r.is_arg,
    {
        Local { name: String::new(), is_store: false, is_arg: false }
    }
}

/// The locals by argument index, the jumps by start offset, and the
/// coroutine mark.
#[derive(Debug, Clone)]
pub struct TraceBack {
    locals: OrderMap<usize, Local>,
    jumps: OrderMap<usize, usize>,
    is_async: bool,
}

impl Default for TraceBack {
    fn default() -> (r: TraceBack)
        ensures
            r.wf(),
            r.spec_locals().spec_keys() == Seq::<usize>::empty(),
            r.spec_jumps().spec_keys() == Seq::<usize>::empty(),
            !r.spec_is_async(),
    {
        TraceBack { locals: OrderMap::new(), jumps: OrderMap::new(), is_async: false }
    }
}

impl TraceBack {
    /// The locals map.
    pub closed spec fn spec_locals(&self) -> OrderMap<usize, Local> {
        self.locals
    }

    /// The jumps map.
    pub closed spec fn spec_jumps(&self) -> OrderMap<usize, usize> {
        self.jumps
    }

    /// Whether the code object was marked as a coroutine.
    pub closed spec fn spec_is_async(&self) -> bool {
        self.is_async
    }

    /// Both maps are well formed.
    pub open spec fn wf(&self) -> bool {
        self.spec_locals().wf() && self.spec_jumps().wf()
    }

    /// Records the local at argument index `arg`, replacing one recorded there.
    pub fn insert_local(&mut self, arg: usize, local: Local)
        requires
            old(self).wf(),
        ensures
            final(self).wf(),
            (final(self).spec_locals().spec_keys(), final(self).spec_locals().spec_values()) == inserted(
                old(self).spec_locals().spec_keys(),
                old(self).spec_locals().spec_values(),
                arg,
                local,
            ),
            final(self).spec_jumps() == old(self).spec_jumps(),
            final(self).spec_is_async() == old(self).spec_is_async(),
    {
        self.locals.insert(arg, local);
    }

    /// The first local recorded at index `arg`.
    pub fn get_local(&self, arg: &usize) -> (r: Option<&Local>)
        requires
            self.wf(),
        ensures
            self.spec_locals().lookup(*arg) is None ==> r is None,
            self.spec_locals().lookup(*arg) matches Some(v) ==> r is Some && *r.unwrap() == v,
    {
        self.locals.get(arg)
    }

    /// The first local recorded at index `arg`, to change in place.
    pub fn get_mut_local(&mut self, arg: &usize) -> (r: Option<&mut Local>)
        requires
            old(self).wf(),
        ensures
            final(self).wf(),
            final(self).spec_locals().spec_keys() == old(self).spec_locals().spec_keys(),
            final(self).spec_jumps() == old(self).spec_jumps(),
            final(self).spec_is_async() == old(self).spec_is_async(),
            match first_index(old(self).spec_locals().spec_keys(), *arg) {
                Some(i) => r is Some && *r.unwrap() == old(self).spec_locals().spec_values()[i]
                    && final(self).spec_locals().spec_values() == old(
                    self,
                ).spec_locals().spec_values().update(i, *final(r.unwrap())),
                None => r is None && final(self).spec_locals().spec_values() == old(
                    self,
                ).spec_locals().spec_values(),
            },
    {
        self.locals.get_mut(arg)
    }

    /// All locals.
    pub fn get_locals(&self) -> (r: &OrderMap<usize, Local>)
        ensures
            *r == self.spec_locals(),
    {
        &self.locals
    }

    /// All locals, to change in place.
    pub fn get_mut_locals(&mut self) -> (r: &mut OrderMap<usize, Local>)
        ensures
            *r == old(self).spec_locals(),
            final(self).spec_locals() == *final(r),
            final(self).spec_jumps() == old(self).spec_jumps(),
            final(self).spec_is_async() == old(self).spec_is_async(),
    {
        &mut self.locals
    }

    /// Records a jump from offset `start` to `jump_target`, replacing one
    /// recorded from there.
    pub fn insert_jump(&mut self, start: usize, jump_target: usize)
        requires
            old(self).wf(),
        ensures
            final(self).wf(),
            (final(self).spec_jumps().spec_keys(), final(self).spec_jumps().spec_values()) == inserted(
                old(self).spec_jumps().spec_keys(),
                old(self).spec_jumps().spec_values(),
                start,
                jump_target,
            ),
            final(self).spec_locals() == old(self).spec_locals(),
            final(self).spec_is_async() == old(self).spec_is_async(),
    {
        self.jumps.insert(start, jump_target);
    }

    /// The target of the first jump recorded from `start`.
    pub fn get_jump(&self, start: &usize) -> (r: Option<&usize>)
        requires
            self.wf(),
        ensures
            self.spec_jumps().lookup(*start) is None ==> r is None,
            self.spec_jumps().lookup(*start) matches Some(v) ==> r is Some && *r.unwrap() == v,
    {
        self.jumps.get(start)
    }

    /// The target of the first jump recorded from `start`, to change in place.
    pub fn get_mut_jump(&mut self, start: &usize) -> (r: Option<&mut usize>)
        requires
            old(self).wf(),
        ensures
            final(self).wf(),
            final(self).spec_jumps().spec_keys() == old(self).spec_jumps().spec_keys(),
            final(self).spec_locals() == old(self).spec_locals(),
            final(self).spec_is_async() == old(self).spec_is_async(),
            match first_index(old(self).spec_jumps().spec_keys(), *start) {
                Some(i) => r is Some && *r.unwrap() == old(self).spec_jumps().spec_values()[i]
                    && final(self).spec_jumps().spec_values() == old(
                    self,
                ).spec_jumps().spec_values().update(i, *final(r.unwrap())),
                None => r is None && final(self).spec_jumps().spec_values() == old(
                    self,
                ).spec_jumps().spec_values(),
            },
    {
        self.jumps.get_mut(start)
    }

    /// All jumps.
    pub fn get_jumps(&self) -> (r: &OrderMap<usize, usize>)
        ensures
            *r == self.spec_jumps(),
    {
        &self.jumps
    }

    /// All jumps, to change in place.
    pub fn get_mut_jumps(&mut self) -> (r: &mut OrderMap<usize, usize>)
        ensures
            *r == old(self).spec_jumps(),
            final(self).spec_jumps() == *final(r),
            final(self).spec_locals() == old(self).spec_locals(),
            final(self).spec_is_async() == old(self).spec_is_async(),
    {
        &mut self.jumps
    }

    /// Adds the locals and jumps of `tb` whose keys are not recorded yet.
    pub fn extend(&mut self, tb: Self)
        requires
            old(self).wf(),
            tb.wf(),
        ensures
            final(self).wf(),
            (final(self).spec_locals().spec_keys(), final(self).spec_locals().spec_values())
                == super::order_map::extended(
                old(self).spec_locals().spec_keys(),
                old(self).spec_locals().spec_values(),
                tb.spec_locals().spec_keys(),
                tb.spec_locals().spec_values(),
            ),
            (final(self).spec_jumps().spec_keys(), final(self).spec_jumps().spec_values())
                == super::order_map::extended(
                old(self).spec_jumps().spec_keys(),
                old(self).spec_jumps().spec_values(),
                tb.spec_jumps().spec_keys(),
                tb.spec_jumps().spec_values(),
            ),
            final(self).spec_is_async() == old(self).spec_is_async(),
    {
        self.locals.extend(tb.locals);
        self.jumps.extend(tb.jumps);
    }

    /// Whether the code object is a coroutine.
    pub fn asyncable(&self) -> (r: bool)
        ensures
            r == self.spec_is_async(),
    {
        self.is_async
    }

    /// Marks the code object as a coroutine.
    pub fn mark_async(&mut self)
        ensures
            final(self).spec_is_async(),
            final(self).spec_locals() == old(self).spec_locals(),
            final(self).spec_jumps() == old(self).spec_jumps(),
    {
        self.is_async = true;
    }
}

} // verus!
