use crate::info::lua::{
    ErrCode, FINE, LUA_CI_LEN, LUA_MAX_CALLS, MEMORY_ALLOC_FAIL, MEMORY_REALLOC_FAIL,
    MEMORY_UNREACHABLE,
};
use crate::method::mem::{vec_alloc, vec_pop, vec_push};
use vstd::prelude::*;

verus! {

/// The record of one call: where its function sits on the operand stack,
/// the first slot it may not write, and how it went.
#[derive(Debug, Clone, Copy, PartialEq, Eq, Structural)]
pub struct Frame {
    pub stack_func_index: usize,
    pub stack_upper_bound: usize,
    pub callstatus: ErrCode,
}

impl Default for Frame {
    fn default() -> (frame: Frame)
        ensures
            frame == Frame::blank(),
    {
        Frame { stack_func_index: 0, stack_upper_bound: 0, callstatus: ErrCode(FINE) }
    }
}

impl Frame {
    /// The record in a frame slot that no call is using.
    pub open spec fn blank() -> Frame {
        Frame { stack_func_index: 0, stack_upper_bound: 0, callstatus: ErrCode(FINE) }
    }

    /// A frame in use has its function below its upper bound.
    pub open spec fn bounded(self) -> bool {
        self.stack_func_index < self.stack_upper_bound
    }

    /// Whether `size` values counted from the function's slot stay below the
    /// frame's upper bound.
    pub open spec fn holds(self, size: int) -> bool {
        self.stack_func_index + size < self.stack_upper_bound
    }

    pub fn new(stack_func_index: usize, stack_top_index: usize, status: ErrCode) -> (frame: Frame)
        ensures
            frame == (Frame {
                stack_func_index,
                stack_upper_bound: stack_top_index,
                callstatus: status,
            }),
    {
        Frame { stack_func_index, stack_upper_bound: stack_top_index, callstatus: status }
    }

    /// Whether `size` values counted from the function's slot stay below the
    /// frame's upper bound.
    pub fn fm_check_stkedge(&self, size: usize) -> (inside: bool)
        ensures
            inside == self.holds(size as int),
    {
        if self.stack_func_index >= self.stack_upper_bound {
            false
        } else {
            size < self.stack_upper_bound - self.stack_func_index
        }
    }
}

/// The frame stack: a growable array of frames, addressed by call depth.
#[derive(Debug)]
pub struct FrameVec {
    frames: Vec<Frame>,
}

impl View for FrameVec {
    type V = Seq<Frame>;

    closed spec fn view(&self) -> Seq<Frame> {
        self.frames@
    }
}

/// `count` frame slots that no call is using.
pub open spec fn blank_frames(count: nat) -> Seq<Frame> {
    Seq::new(count, |i: int| Frame::blank())
}

/// The length a frame stack of `len` slots has after it was asked to make
/// room for `need` frames above depth `depth`, or `None` where it cannot.
///
/// It grows only when more than half of it is in use or the frames asked
/// for do not fit. It then grows by its own length, or by `need` where that
/// is more, but not past the ceiling. It never gets shorter. It refuses only
/// where the frames asked for do not fit and would not fit in a frame stack
/// as long as the ceiling.
pub open spec fn frames_growth(len: int, depth: int, need: int) -> Option<int> {
    let wanted = len + if len < need { need } else { len };
    let clamped = if wanted > LUA_MAX_CALLS { LUA_MAX_CALLS as int } else { wanted };
    if depth + need > len && depth + need > LUA_MAX_CALLS {
        None
    } else if depth * 2 > len || depth + need > len {
        Some(if clamped < len { len } else { clamped })
    } else {
        Some(len)
    }
}

/// The length a frame stack of `len` slots has after a shrink check at
/// depth `depth`, or `None` where the check fails.
///
/// A stack at or under its first length is left alone. A longer one is
/// halved when at most a third of it is in use.
pub open spec fn frames_shrink(len: int, depth: int) -> Option<int> {
    if len > LUA_MAX_CALLS {
        None
    } else if len <= LUA_CI_LEN {
        Some(len)
    } else if depth * 3 <= len {
        Some(len / 2)
    } else {
        Some(len)
    }
}

/// Growth never makes the frame stack shorter and never takes it past the
/// ceiling. It is granted whenever the frames asked for fit under the
/// ceiling, and then they fit in the new length, as long as the depth lies
/// inside the frame stack.
pub proof fn lemma_frames_growth_bounded(len: int, depth: int, need: int)
    requires
        0 <= len,
        0 <= depth,
        0 <= need,
    ensures
        depth + need <= LUA_MAX_CALLS ==> frames_growth(len, depth, need).is_some(),
        depth + need <= len ==> frames_growth(len, depth, need).is_some(),
        match frames_growth(len, depth, need) {
            Some(new_len) => {
                &&& len <= new_len
                &&& len <= LUA_MAX_CALLS ==> new_len <= LUA_MAX_CALLS
                &&& new_len != len ==> new_len == len + len || new_len == len + need || new_len
                    == LUA_MAX_CALLS
                &&& depth <= len ==> depth + need <= new_len
            },
            None => depth + need > len && depth + need > LUA_MAX_CALLS,
        },
{
}

/// A shrink check changes the length only when at most a third of the
/// frame stack is in use, and then halves it. The new length is never
/// under the depth in use.
pub proof fn lemma_frames_shrink_halves(len: int, depth: int)
    requires
        0 <= len,
        0 <= depth,
    ensures
        match frames_shrink(len, depth) {
            Some(new_len) => {
                &&& new_len == len || new_len == len / 2
                &&& new_len != len ==> depth * 3 <= len && len > LUA_CI_LEN
                &&& depth <= len ==> depth <= new_len
            },
            None => len > LUA_MAX_CALLS,
        },
{
}

/// A frame stack that is at least twice its first length, or no longer than
/// it, never drops under that first length in a shrink check.
pub proof fn lemma_frames_shrink_floor(len: int, depth: int)
    requires
        0 <= depth,
        LUA_CI_LEN <= len,
        len <= LUA_CI_LEN || 2 * LUA_CI_LEN <= len,
    ensures
        match frames_shrink(len, depth) {
            Some(new_len) => LUA_CI_LEN <= new_len,
            None => len > LUA_MAX_CALLS,
        },
{
}

impl FrameVec {
    /// A frame stack of `length` unused slots with room set aside for
    /// `capacity`. Fails with `MEMORY_ALLOC_FAIL` where `length` is over
    /// `capacity`.
    pub fn new(capacity: usize, length: usize) -> (r: Result<FrameVec, ErrCode>)
        ensures
            match r {
                Ok(civ) => length <= capacity && civ@ == blank_frames(length as nat),
                Err(e) => length > capacity && e == ErrCode(MEMORY_ALLOC_FAIL),
            },
    {
        if length > capacity {
            return Err(ErrCode(MEMORY_ALLOC_FAIL));
        }
        let mut civ = FrameVec { frames: vec_alloc(capacity) };
        vec_push(&mut civ.frames, Frame::default(), length);
        assert(civ.frames@ =~= blank_frames(length as nat));
        Ok(civ)
    }

    /// The number of frame slots.
    pub fn len(&self) -> (n: usize)
        ensures
            n == self@.len(),
    {
        self.frames.len()
    }

    /// Every frame slot has an index that is a `usize`.
    pub proof fn lemma_len_fits(&self)
        ensures
            self@.len() <= usize::MAX,
    {
        assert(self.frames.len() == self.frames@.len());
    }

    /// Exchanges the frame at `index` with `new_ci`. Where there is no such
    /// slot, both stay as they are and the result is `MEMORY_UNREACHABLE`.
    pub fn swap_elem(&mut self, index: usize, new_ci: &mut Frame) -> (r: Result<ErrCode, ErrCode>)
        ensures
            match r {
                Ok(c) => {
                    &&& index < old(self)@.len()
                    &&& c == ErrCode(FINE)
                    &&& *final(new_ci) == old(self)@[index as int]
                    &&& final(self)@ == old(self)@.update(index as int, *old(new_ci))
                },
                Err(e) => {
                    &&& index >= old(self)@.len()
                    &&& e == ErrCode(MEMORY_UNREACHABLE)
                    &&& *final(new_ci) == *old(new_ci)
                    &&& final(self)@ == old(self)@
                },
            },
    {
        if index < self.frames.len() {
            core::mem::swap(&mut self.frames[index], new_ci);
            Ok(ErrCode(FINE))
        } else {
            Err(ErrCode(MEMORY_UNREACHABLE))
        }
    }

    /// Makes room for `need` frames above depth `civ_top_index` and returns
    /// the new length. New slots are unused and come after the old ones,
    /// which keep their frames. Fails with `MEMORY_REALLOC_FAIL`, leaving
    /// the frame stack as it was, where `frames_growth` refuses.
    pub fn increase(&mut self, civ_top_index: usize, need: usize) -> (r: Result<usize, ErrCode>)
        ensures
            match r {
                Ok(new_len) => {
                    &&& frames_growth(old(self)@.len() as int, civ_top_index as int, need as int)
                        == Some(new_len as int)
                    &&& old(self)@.len() <= new_len
                    &&& old(self)@.len() <= LUA_MAX_CALLS ==> new_len <= LUA_MAX_CALLS
                    &&& final(self)@ == old(self)@ + blank_frames(
                        (new_len - old(self)@.len()) as nat,
                    )
                },
                Err(e) => {
                    &&& frames_growth(
                        old(self)@.len() as int,
                        civ_top_index as int,
                        need as int,
                    ).is_none()
                    &&& e == ErrCode(MEMORY_REALLOC_FAIL)
                    &&& final(self)@ == old(self)@
                },
            },
    {
        let old_alloc: usize = self.frames.len();
        let crowded: bool = civ_top_index > old_alloc / 2;
        let short: bool = civ_top_index > old_alloc || need > old_alloc - civ_top_index;
        if short && (civ_top_index > LUA_MAX_CALLS || need > LUA_MAX_CALLS - civ_top_index) {
            return Err(ErrCode(MEMORY_REALLOC_FAIL));
        }
        if (crowded || short) && old_alloc < LUA_MAX_CALLS {
            let mut to_add: usize = old_alloc;
            if to_add < need {
                to_add = need;
            }
            if old_alloc + to_add > LUA_MAX_CALLS {
                to_add = LUA_MAX_CALLS - old_alloc;
            }
            vec_push(&mut self.frames, Frame::default(), to_add);
            assert(self.frames@ =~= old(self)@ + blank_frames(to_add as nat));
            Ok(to_add + old_alloc)
        } else {
            assert(self.frames@ =~= old(self)@ + blank_frames(0));
            Ok(old_alloc)
        }
    }

    /// Runs a shrink check at depth `ncalls` and returns the new length: the
    /// frame stack keeps its first `frames_shrink` slots. Fails with
    /// `MEMORY_REALLOC_FAIL`, leaving the frame stack as it was, where it is
    /// longer than the ceiling on the call depth.
    pub fn decrease(&mut self, ncalls: usize) -> (r: Result<usize, ErrCode>)
        ensures
            match r {
                Ok(new_len) => {
                    &&& frames_shrink(old(self)@.len() as int, ncalls as int) == Some(
                        new_len as int,
                    )
                    &&& new_len <= old(self)@.len()
                    &&& final(self)@ == old(self)@.take(new_len as int)
                },
                Err(e) => {
                    &&& frames_shrink(old(self)@.len() as int, ncalls as int).is_none()
                    &&& e == ErrCode(MEMORY_REALLOC_FAIL)
                    &&& final(self)@ == old(self)@
                },
            },
    {
        let old_alloc: usize = self.frames.len();
        if old_alloc > LUA_MAX_CALLS {
            return Err(ErrCode(MEMORY_REALLOC_FAIL));
        }
        if old_alloc <= LUA_CI_LEN {
            assert(self.frames@ =~= old(self)@.take(old_alloc as int));
            return Ok(old_alloc);
        }
        if ncalls <= old_alloc / 3 {
            let new_alloc: usize = old_alloc / 2;
            vec_pop(&mut self.frames, old_alloc - new_alloc);
            Ok(new_alloc)
        } else {
            assert(self.frames@ =~= old(self)@.take(old_alloc as int));
            Ok(old_alloc)
        }
    }

    /// The frame at `index`, to read, or `MEMORY_UNREACHABLE`.
    #[inline(always)]
    pub fn get_ref_elem(&self, index: usize) -> (r: Result<&Frame, ErrCode>)
        ensures
            match r {
                Ok(ci) => index < self@.len() && *ci == self@[index as int],
                Err(e) => index >= self@.len() && e == ErrCode(MEMORY_UNREACHABLE),
            },
    {
        if index < self.frames.len() {
            Ok(&self.frames[index])
        } else {
            Err(ErrCode(MEMORY_UNREACHABLE))
        }
    }

    /// The frame at `index`, to write through, or `MEMORY_UNREACHABLE`.
    #[inline(always)]
    pub fn get_mut_elem(&mut self, index: usize) -> (r: Result<&mut Frame, ErrCode>)
        ensures
            match r {
                Ok(ci) => {
                    &&& index < old(self)@.len()
                    &&& *ci == old(self)@[index as int]
                    &&& final(self)@ == old(self)@.update(index as int, *final(ci))
                },
                Err(e) => {
                    &&& index >= old(self)@.len()
                    &&& e == ErrCode(MEMORY_UNREACHABLE)
                    &&& final(self)@ == old(self)@
                },
            },
    {
        if index < self.frames.len() {
            Ok(&mut self.frames[index])
        } else {
            Err(ErrCode(MEMORY_UNREACHABLE))
        }
    }
}

} // verus!
