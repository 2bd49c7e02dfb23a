use crate::info::lua::{
    ErrCode, FINE, LUA_EXTRASPACE, LUA_MAX_STACK, MEMORY_ALLOC_FAIL, MEMORY_REALLOC_FAIL,
    MEMORY_UNREACHABLE,
};
use crate::method::mem::{vec_alloc, vec_push};
use crate::obj::objdef::{LuaTObject, TObj};
use vstd::prelude::*;

verus! {

pub type StkElem<N> = TObj<N>;

/// The operand stack: a growable array of values, addressed from zero.
/// Which slots are in use is the business of the state that owns it.
#[derive(Debug)]
pub struct Stack<N> {
    elems: Vec<StkElem<N>>,
}

impl<N> View for Stack<N> {
    type V = Seq<LuaTObject<N>>;

    closed spec fn view(&self) -> Seq<LuaTObject<N>> {
        self.elems@
    }
}

/// `count` slots that nothing was written to.
pub open spec fn blank_slots<N>(count: nat) -> Seq<LuaTObject<N>> {
    Seq::new(count, |i: int| LuaTObject::<N>::blank())
}

/// By how many slots a stack of `len` slots grows when `need` more are
/// asked for, or `None` where it cannot grow.
///
/// The least growth is `need` and the fixed extra space. The stack prefers
/// to double where that is more; it settles for the least growth where
/// doubling would pass the ceiling, and refuses where even that would.
pub open spec fn stack_growth(len: int, need: int) -> Option<int> {
    let least = need + LUA_EXTRASPACE;
    let wanted = if len < least { least } else { len };
    if len + least > LUA_MAX_STACK {
        None
    } else if len + wanted > LUA_MAX_STACK {
        Some(least)
    } else {
        Some(wanted)
    }
}

/// Growth never takes a stack past the ceiling, always adds what was asked
/// for, and is refused for every stack that is at the ceiling or beyond it.
pub proof fn lemma_stack_growth_bounded(len: int, need: int)
    requires
        0 <= len,
        0 <= need,
    ensures
        match stack_growth(len, need) {
            Some(added) => need + LUA_EXTRASPACE <= added && len + added <= LUA_MAX_STACK,
            None => len + need + LUA_EXTRASPACE > LUA_MAX_STACK,
        },
        len >= LUA_MAX_STACK ==> stack_growth(len, need).is_none(),
{
}

impl<N: Copy> Stack<N> {
    /// A stack of `length` blank slots with room set aside for `capacity`.
    /// Fails with `MEMORY_ALLOC_FAIL` where `length` is over `capacity`.
    #[inline]
    pub fn new(capacity: usize, length: usize) -> (r: Result<Stack<N>, ErrCode>)
        ensures
            match r {
                Ok(stk) => length <= capacity && stk@ == blank_slots::<N>(length as nat),
                Err(e) => length > capacity && e == ErrCode(MEMORY_ALLOC_FAIL),
            },
    {
        if length > capacity {
            return Err(ErrCode(MEMORY_ALLOC_FAIL));
        }
        let mut stk = Stack { elems: vec_alloc(capacity) };
        vec_push(&mut stk.elems, LuaTObject::default(), length);
        assert(stk.elems@ =~= blank_slots::<N>(length as nat));
        Ok(stk)
    }

    /// The number of slots.
    pub fn len(&self) -> (n: usize)
        ensures
            n == self@.len(),
    {
        self.elems.len()
    }

    /// Every slot has an index that is a `usize`.
    pub proof fn lemma_len_fits(&self)
        ensures
            self@.len() <= usize::MAX,
    {
        assert(self.elems.len() == self.elems@.len());
    }

    /// The slot at `index`, to write through, or `MEMORY_UNREACHABLE` where
    /// the stack has no such slot.
    #[inline(always)]
    pub fn get_mut_elem(&mut self, index: usize) -> (r: Result<&mut StkElem<N>, ErrCode>)
        ensures
            match r {
                Ok(elem) => {
                    &&& index < old(self)@.len()
                    &&& *elem == old(self)@[index as int]
                    &&& final(self)@ == old(self)@.update(index as int, *final(elem))
                },
                Err(e) => {
                    &&& index >= old(self)@.len()
                    &&& e == ErrCode(MEMORY_UNREACHABLE)
                    &&& final(self)@ == old(self)@
                },
            },
    {
        if index < self.elems.len() {
            Ok(&mut self.elems[index])
        } else {
            Err(ErrCode(MEMORY_UNREACHABLE))
        }
    }

    /// The slot at `index`, to read, or `MEMORY_UNREACHABLE`.
    #[inline(always)]
    pub fn get_ref_elem(&self, index: usize) -> (r: Result<&StkElem<N>, ErrCode>)
        ensures
            match r {
                Ok(elem) => index < self@.len() && *elem == self@[index as int],
                Err(e) => index >= self@.len() && e == ErrCode(MEMORY_UNREACHABLE),
            },
    {
        if index < self.elems.len() {
            Ok(&self.elems[index])
        } else {
            Err(ErrCode(MEMORY_UNREACHABLE))
        }
    }

    /// A copy of the value at `index`, or `MEMORY_UNREACHABLE`.
    #[inline(always)]
    pub fn get_elem(&self, index: usize) -> (r: Result<StkElem<N>, ErrCode>)
        ensures
            match r {
                Ok(elem) => index < self@.len() && elem == self@[index as int],
                Err(e) => index >= self@.len() && e == ErrCode(MEMORY_UNREACHABLE),
            },
    {
        if index < self.elems.len() {
            Ok(self.elems[index])
        } else {
            Err(ErrCode(MEMORY_UNREACHABLE))
        }
    }

    /// Exchanges the value at `index` with `new_stkelem`. Where the stack
    /// has no such slot, both stay as they are and the result is
    /// `MEMORY_UNREACHABLE`.
    #[inline(always)]
    pub fn swap_elem(&mut self, index: usize, new_stkelem: &mut StkElem<N>) -> (r: Result<
        ErrCode,
        ErrCode,
    >)
        ensures
            match r {
                Ok(c) => {
                    &&& index < old(self)@.len()
                    &&& c == ErrCode(FINE)
                    &&& *final(new_stkelem) == old(self)@[index as int]
                    &&& final(self)@ == old(self)@.update(index as int, *old(new_stkelem))
                },
                Err(e) => {
                    &&& index >= old(self)@.len()
                    &&& e == ErrCode(MEMORY_UNREACHABLE)
                    &&& *final(new_stkelem) == *old(new_stkelem)
                    &&& final(self)@ == old(self)@
                },
            },
    {
        if index < self.elems.len() {
            core::mem::swap(&mut self.elems[index], new_stkelem);
            Ok(ErrCode(FINE))
        } else {
            Err(ErrCode(MEMORY_UNREACHABLE))
        }
    }

    /// Grows the stack so that `need` more slots fit, and returns by how
    /// many slots it grew. The new slots are blank and the old ones keep
    /// their values. Fails with `MEMORY_REALLOC_FAIL`, leaving the stack as
    /// it was, where `stack_growth` allows no growth.
    pub fn increase(&mut self, need: usize) -> (r: Result<usize, ErrCode>)
        ensures
            match r {
                Ok(added) => {
                    &&& stack_growth(old(self)@.len() as int, need as int) == Some(added as int)
                    &&& final(self)@ == old(self)@ + blank_slots::<N>(added as nat)
                    &&& final(self)@.len() <= LUA_MAX_STACK
                },
                Err(e) => {
                    &&& stack_growth(old(self)@.len() as int, need as int).is_none()
                    &&& e == ErrCode(MEMORY_REALLOC_FAIL)
                    &&& final(self)@ == old(self)@
                },
            },
            old(self)@.len() >= LUA_MAX_STACK ==> r.is_err(),
    {
        let old_alloc: usize = self.elems.len();
        if old_alloc > LUA_MAX_STACK || need > LUA_MAX_STACK {
            return Err(ErrCode(MEMORY_REALLOC_FAIL));
        }
        let mut to_add: usize = old_alloc;
        let to_add2: usize = need + LUA_EXTRASPACE;
        if to_add < to_add2 {
            to_add = to_add2;
        }
        if old_alloc + to_add > LUA_MAX_STACK {
            if old_alloc + to_add2 > LUA_MAX_STACK {
                return Err(ErrCode(MEMORY_REALLOC_FAIL));
            } else {
                to_add = to_add2;
            }
        }
        vec_push(&mut self.elems, LuaTObject::default(), to_add);
        assert(self.elems@ =~= old(self)@ + blank_slots::<N>(to_add as nat));
        Ok(to_add)
    }

    /// Shrinking is not done yet: the stack keeps every slot, so no caller
    /// may count on space coming back.
    pub fn decrease(&mut self, _starting_pos: usize)
        ensures
            final(self)@ == old(self)@,
    {
    }
}

} // verus!
