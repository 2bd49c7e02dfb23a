use crate::info::lua::{
    ErrCode, FINE, LUA_CI_LEN, LUA_EXTRA_STACK, LUA_MAX_CALLS,
    LUA_MAX_STACK, LUA_MIN_STACK, LUA_STACK_SIZE, MEMORY_REALLOC_FAIL, MEMORY_TYPE_MISMATCH,
    MEMORY_UNREACHABLE,
};
use crate::obj::framedef::{blank_frames, frames_growth, frames_shrink, Frame, FrameVec};
use crate::obj::objdef::{LuaTObject, ObjectTrait, UserData, FLT, INT};
use crate::obj::stackdef::{blank_slots, stack_growth, Stack, StkElem};
use vstd::prelude::*;

verus! {

/// The index that no slot has. A frame whose bounds are both this index has
/// given up its window of the operand stack.
pub const ILLEGAL_INDEX: usize = usize::MAX;

/// A function of the host that the machine can call.
///
/// The function gets the state of the calling machine. It takes its
/// arguments off the operand stack, leaves its results there and returns how
/// many results it left. Nothing is assumed about what it does to the state:
/// the call engine checks the state again when the function has returned.
pub trait NativeFunction: Sized + Copy {
    fn invoke(&self, state: &mut LuaState<Self>) -> usize;
}

/// The state of one machine: its operand stack, its frame stack, and the
/// indices that say how much of each is in use.
#[derive(Debug)]
pub struct LuaState<N> {
    /// The operand stack, once it is set up.
    pub stack: Option<Stack<N>>,
    /// The last slot a push may use without a check for room.
    pub stack_last_index: usize,
    /// The first slot not in use.
    pub stack_top_index: usize,
    /// The length the operand stack was last known to have.
    pub stack_size: usize,
    /// The frame stack, once it is set up.
    pub frames: Option<FrameVec>,
    /// The call depth: the frame of the running call is at `ncalls - 1`.
    pub ncalls: usize,
    /// How the last operation that records its outcome went.
    pub status: ErrCode,
}

/// What a state is to a contract: the contents of both stacks and the plain
/// fields beside them.
pub struct StateView<N> {
    pub stack: Option<Seq<LuaTObject<N>>>,
    pub stack_last_index: usize,
    pub stack_top_index: usize,
    pub stack_size: usize,
    pub frames: Option<Seq<Frame>>,
    pub ncalls: usize,
    pub status: ErrCode,
}

impl<N> View for LuaState<N> {
    type V = StateView<N>;

    open spec fn view(&self) -> StateView<N> {
        StateView {
            stack: match self.stack {
                Some(stk) => Some(stk@),
                None => None,
            },
            stack_last_index: self.stack_last_index,
            stack_top_index: self.stack_top_index,
            stack_size: self.stack_size,
            frames: match self.frames {
                Some(civ) => Some(civ@),
                None => None,
            },
            ncalls: self.ncalls,
            status: self.status,
        }
    }
}

impl<N> StateView<N> {
    /// A state with neither stack set up.
    pub open spec fn unset() -> StateView<N> {
        StateView {
            stack: None,
            stack_last_index: 0,
            stack_top_index: 0,
            stack_size: 0,
            frames: None,
            ncalls: 0,
            status: ErrCode(FINE),
        }
    }

    /// Whether both stacks are short enough for a machine to hold: every slot
    /// has an index that is a `usize`. The view of every state is.
    pub open spec fn representable(self) -> bool {
        &&& self.stack.is_some() ==> self.stack.unwrap().len() <= usize::MAX
        &&& self.frames.is_some() ==> self.frames.unwrap().len() <= usize::MAX
    }

    /// Whether the state's fields fit together: both stacks are set up and
    /// within their ceilings, the size and the last usable index follow the
    /// operand stack's length, and the top and the call depth lie inside
    /// their stacks.
    pub open spec fn consistent(self) -> bool {
        &&& self.stack.is_some()
        &&& self.frames.is_some()
        &&& self.stack.unwrap().len() == self.stack_size
        &&& LUA_EXTRA_STACK <= self.stack_size <= LUA_MAX_STACK
        &&& self.stack_last_index == self.stack_size - LUA_EXTRA_STACK
        &&& self.stack_top_index <= self.stack_size
        &&& self.frames.unwrap().len() <= LUA_MAX_CALLS
        &&& self.ncalls <= self.frames.unwrap().len()
    }

    /// Whether the operand stack is set up and has a slot `index`.
    pub open spec fn has_slot(self, index: int) -> bool {
        self.stack.is_some() && 0 <= index < self.stack.unwrap().len()
    }

    /// Whether the frame stack is set up and has a slot `index`.
    pub open spec fn has_frame(self, index: int) -> bool {
        self.frames.is_some() && 0 <= index < self.frames.unwrap().len()
    }

    /// The value in slot `index`.
    pub open spec fn slot(self, index: int) -> LuaTObject<N> {
        self.stack.unwrap()[index]
    }

    /// The frame in frame slot `index`.
    pub open spec fn frame(self, index: int) -> Frame {
        self.frames.unwrap()[index]
    }

    /// This state with `obj` in slot `index`.
    pub open spec fn with_slot(self, index: int, obj: LuaTObject<N>) -> StateView<N> {
        StateView { stack: Some(self.stack.unwrap().update(index, obj)), ..self }
    }

    /// This state with `frame` in frame slot `index`.
    pub open spec fn with_frame(self, index: int, frame: Frame) -> StateView<N> {
        StateView { frames: Some(self.frames.unwrap().update(index, frame)), ..self }
    }

    /// This state with its top at `top`.
    pub open spec fn with_top(self, top: usize) -> StateView<N> {
        StateView { stack_top_index: top, ..self }
    }

    /// This state with call depth `ncalls`.
    pub open spec fn with_ncalls(self, ncalls: usize) -> StateView<N> {
        StateView { ncalls, ..self }
    }

    /// This state with status `status`.
    pub open spec fn with_status(self, status: ErrCode) -> StateView<N> {
        StateView { status, ..self }
    }

    /// What a push returns: it succeeds exactly when the slot at the top
    /// exists.
    pub open spec fn push_result(self) -> Result<ErrCode, ErrCode> {
        if self.has_slot(self.stack_top_index as int) {
            Ok(ErrCode(FINE))
        } else {
            Err(ErrCode(MEMORY_UNREACHABLE))
        }
    }

    /// The state after a push of `obj`: `obj` stands in the slot that was
    /// the top, and the top is one higher. A push that fails changes
    /// nothing.
    pub open spec fn after_push(self, obj: LuaTObject<N>) -> StateView<N> {
        if self.has_slot(self.stack_top_index as int) {
            self.with_slot(self.stack_top_index as int, obj).with_top(
                (self.stack_top_index + 1) as usize,
            )
        } else {
            self
        }
    }

    /// The index of the slot `offset` slots under the highest slot in use.
    pub open spec fn index_from_top(self, offset: usize) -> int {
        self.stack_top_index - 1 - offset
    }

    /// What a read `offset` slots under the highest slot in use returns.
    pub open spec fn peek(self, offset: usize) -> Result<LuaTObject<N>, ErrCode> {
        if self.has_slot(self.index_from_top(offset)) {
            Ok(self.slot(self.index_from_top(offset)))
        } else {
            Err(ErrCode(MEMORY_UNREACHABLE))
        }
    }

    /// What a read of type `T`, `offset` slots under the highest slot in
    /// use, returns: the payload where the slot holds one of that type, and
    /// `MEMORY_TYPE_MISMATCH` where it holds anything else.
    pub open spec fn peek_typed<T>(self, offset: usize) -> Result<T, ErrCode> where
        Option<T>: ObjectTrait<N>,
     {
        match self.peek(offset) {
            Ok(obj) => match <Option<T> as ObjectTrait<N>>::stored(obj) {
                Some(val) => Ok(val),
                None => Err(ErrCode(MEMORY_TYPE_MISMATCH)),
            },
            Err(e) => Err(e),
        }
    }

    /// What a read of a result code, `offset` slots under the highest slot
    /// in use, returns: the code where the slot carries one, and
    /// `MEMORY_TYPE_MISMATCH` where it holds anything else.
    pub open spec fn peek_errcode(self, offset: usize) -> Result<ErrCode, ErrCode> {
        match self.peek(offset) {
            Ok(obj) => if obj.carries_code() {
                Ok(ErrCode(obj.val_idx.0))
            } else {
                Err(ErrCode(MEMORY_TYPE_MISMATCH))
            },
            Err(e) => Err(e),
        }
    }

    /// How many of `count` pops in a row find a value to take: none where
    /// the top lies beyond the operand stack, and otherwise as many as there
    /// are values in use.
    pub open spec fn pops_done(self, count: usize) -> nat {
        if !self.has_slot(self.stack_top_index - 1) {
            0
        } else if count <= self.stack_top_index {
            count as nat
        } else {
            self.stack_top_index as nat
        }
    }

    /// The state after the highest slot in use was taken off: the slot is
    /// blank again and the top is one lower.
    pub open spec fn popped(self) -> StateView<N> {
        self.with_slot(self.stack_top_index - 1, LuaTObject::blank()).with_top(
            (self.stack_top_index - 1) as usize,
        )
    }

    /// The state after a check for `need` free slots above the top.
    ///
    /// Nothing changes where they are there already, nor where the stack
    /// cannot grow. Otherwise the stack has grown by `stack_growth` blank
    /// slots, and the size and the last usable index follow its new length.
    pub open spec fn after_stack_check(self, need: usize) -> StateView<N> {
        if self.stack_check_result(need).is_ok() && self.stack_top_index + need
            > self.stack_last_index {
            let added = stack_growth(self.stack.unwrap().len() as int, need as int).unwrap();
            let size = self.stack.unwrap().len() + added;
            StateView {
                stack: Some(self.stack.unwrap() + blank_slots::<N>(added as nat)),
                stack_size: size as usize,
                stack_last_index: (size - LUA_EXTRA_STACK) as usize,
                ..self
            }
        } else {
            self
        }
    }

    /// What a check for `need` free slots above the top returns.
    pub open spec fn stack_check_result(self, need: usize) -> Result<ErrCode, ErrCode> {
        if self.stack_top_index + need <= self.stack_last_index {
            Ok(ErrCode(FINE))
        } else if self.stack.is_none() {
            Err(ErrCode(MEMORY_UNREACHABLE))
        } else if stack_growth(self.stack.unwrap().len() as int, need as int).is_none() {
            Err(ErrCode(MEMORY_REALLOC_FAIL))
        } else {
            Ok(ErrCode(FINE))
        }
    }

    /// The frame that a call opens for a function in slot `func_index`: its
    /// upper bound is the least headroom above the current top.
    pub open spec fn opened_frame(self, func_index: usize) -> Frame {
        Frame {
            stack_func_index: func_index,
            stack_upper_bound: (self.stack_top_index + LUA_MIN_STACK) as usize,
            callstatus: ErrCode(FINE),
        }
    }

    /// This state with its frame stack grown to make room for one more
    /// frame.
    pub open spec fn with_frame_room(self) -> StateView<N> {
        let len = self.frames.unwrap().len();
        let new_len = frames_growth(len as int, self.ncalls as int, 1).unwrap();
        StateView {
            frames: Some(self.frames.unwrap() + blank_frames((new_len - len) as nat)),
            ..self
        }
    }

    /// Whether a frame can be opened at all: the frame's upper bound is an
    /// index, the frame stack is set up, and `frames_growth` does not refuse.
    pub open spec fn can_make_frame_room(self) -> bool {
        &&& self.stack_top_index + LUA_MIN_STACK <= usize::MAX
        &&& self.frames.is_some()
        &&& frames_growth(self.frames.unwrap().len() as int, self.ncalls as int, 1).is_some()
    }

    /// What opening a frame returns: the depth the frame stands at.
    ///
    /// It fails with `MEMORY_UNREACHABLE` where the frame's upper bound is
    /// no index, where the frame stack is not set up, and where it has no
    /// slot at the current depth; and with `MEMORY_REALLOC_FAIL` where the
    /// frame would stand at or over the ceiling of the call depth, beyond
    /// the frame stack.
    pub open spec fn push_frame_result(self) -> Result<usize, ErrCode> {
        if self.stack_top_index + LUA_MIN_STACK > usize::MAX || self.frames.is_none() {
            Err(ErrCode(MEMORY_UNREACHABLE))
        } else if !self.can_make_frame_room() {
            Err(ErrCode(MEMORY_REALLOC_FAIL))
        } else if !self.with_frame_room().has_frame(self.ncalls as int) {
            Err(ErrCode(MEMORY_UNREACHABLE))
        } else {
            Ok(self.ncalls)
        }
    }

    /// The state after opening a frame for the function in `func_index`.
    ///
    /// On success the frame stack has room, the new frame stands at the
    /// old depth, and the depth is one higher. Where the frame stack made
    /// room and still has no slot at the current depth, it keeps the room.
    /// Every other failure changes nothing.
    pub open spec fn after_push_frame(self, func_index: usize) -> StateView<N> {
        if !self.can_make_frame_room() {
            self
        } else if !self.with_frame_room().has_frame(self.ncalls as int) {
            self.with_frame_room()
        } else {
            self.with_frame_room().with_frame(
                self.ncalls as int,
                self.opened_frame(func_index),
            ).with_ncalls((self.ncalls + 1) as usize)
        }
    }

    /// Whether there is a frame to close: the frame stack is set up and has
    /// a slot for the running call.
    pub open spec fn has_running_frame(self) -> bool {
        self.ncalls > 0 && self.has_frame(self.ncalls - 1)
    }

    /// What closing the running call's frame returns: the frame, as it was.
    ///
    /// It fails with `MEMORY_UNREACHABLE` where there is no such frame, and
    /// with `MEMORY_REALLOC_FAIL` where the shrink check that follows fails.
    pub open spec fn pop_frame_result(self) -> Result<Frame, ErrCode> {
        if !self.has_running_frame() {
            Err(ErrCode(MEMORY_UNREACHABLE))
        } else if frames_shrink(self.frames.unwrap().len() as int, self.ncalls - 1).is_none() {
            Err(ErrCode(MEMORY_REALLOC_FAIL))
        } else {
            Ok(self.frame(self.ncalls - 1))
        }
    }

    /// The state after closing the running call's frame: its slot is unused
    /// again, the depth is one lower, and the frame stack is as long as the
    /// shrink check leaves it. Where the shrink check fails, the frame is
    /// closed all the same and the length stays.
    pub open spec fn after_pop_frame(self) -> StateView<N> {
        if !self.has_running_frame() {
            self
        } else {
            let closed = self.with_frame(self.ncalls - 1, Frame::blank()).with_ncalls(
                (self.ncalls - 1) as usize,
            );
            match frames_shrink(self.frames.unwrap().len() as int, self.ncalls - 1) {
                Some(new_len) => StateView {
                    frames: Some(closed.frames.unwrap().take(new_len)),
                    ..closed
                },
                None => closed,
            }
        }
    }

    /// Whether the window of the frame at `ci_index` can be given up: there
    /// is such a frame, and the operand stack is set up.
    pub open spec fn can_shrink(self, ci_index: int) -> bool {
        self.has_frame(ci_index) && self.stack.is_some()
    }

    /// The state after the frame at `ci_index` gave up its window: both its
    /// bounds are `ILLEGAL_INDEX`, and its status stays.
    pub open spec fn after_stack_shrink(self, ci_index: int) -> StateView<N> {
        if self.can_shrink(ci_index) {
            self.with_frame(
                ci_index,
                Frame {
                    stack_func_index: ILLEGAL_INDEX,
                    stack_upper_bound: ILLEGAL_INDEX,
                    callstatus: self.frame(ci_index).callstatus,
                },
            )
        } else {
            self
        }
    }

    /// The state as `stack_init` leaves it.
    pub open spec fn with_fresh_stack(self) -> StateView<N> {
        StateView {
            stack: Some(blank_slots::<N>(LUA_STACK_SIZE as nat)),
            stack_size: LUA_STACK_SIZE,
            stack_last_index: (LUA_STACK_SIZE - LUA_EXTRA_STACK) as usize,
            stack_top_index: 0,
            ..self
        }
    }

    /// The state as `frames_init` leaves it.
    pub open spec fn with_fresh_frames(self) -> StateView<N> {
        StateView { frames: Some(blank_frames(LUA_CI_LEN as nat)), ncalls: 0, ..self }
    }

    /// A state right after it was made: both stacks at their first length,
    /// nothing on them, no call running.
    pub open spec fn fresh() -> StateView<N> {
        Self::unset().with_fresh_stack().with_fresh_frames()
    }
}

/// What a process shares between its machines: the main state, once it is
/// made, and the user data of the host.
#[derive(Debug)]
pub struct GlobalState<N> {
    pub mainthread: Option<LuaState<N>>,
    pub userdata: Option<UserData>,
}

impl<N> Default for GlobalState<N> {
    /// A context in which no main state was made yet.
    fn default() -> (global: GlobalState<N>)
        ensures
            global.mainthread.is_none(),
            global.userdata.is_none(),
    {
        GlobalState { mainthread: None, userdata: None }
    }
}

impl<N> Default for LuaState<N> {
    /// A state with neither stack set up.
    fn default() -> (state: LuaState<N>)
        ensures
            state@ == StateView::<N>::unset(),
    {
        LuaState {
            stack: None,
            stack_last_index: 0,
            stack_top_index: 0,
            stack_size: 0,
            frames: None,
            ncalls: 0,
            status: ErrCode(FINE),
        }
    }
}

impl<N: NativeFunction> LuaState<N> {
    /// The view of a state is representable.
    pub proof fn lemma_view_representable(&self)
        ensures
            self@.representable(),
    {
        if let Some(stk) = &self.stack {
            stk.lemma_len_fits();
        }
        if let Some(civ) = &self.frames {
            civ.lemma_len_fits();
        }
    }

    pub fn set_status(&mut self, status: ErrCode)
        ensures
            final(self)@ == old(self)@.with_status(status),
    {
        self.status = status;
    }

    pub fn get_status(&self) -> (status: ErrCode)
        ensures
            status == self@.status,
    {
        self.status
    }

    pub fn get_stack_top(&self) -> (top: usize)
        ensures
            top == self@.stack_top_index,
    {
        self.stack_top_index
    }

    /// Moves the call depth by `step`, up where `direction` is set and down
    /// where it is not. The new depth has to be a `usize`.
    pub fn change_ncalls(&mut self, step: usize, direction: bool)
        requires
            direction ==> old(self).ncalls + step <= usize::MAX,
            !direction ==> step <= old(self).ncalls,
        ensures
            direction ==> final(self)@ == old(self)@.with_ncalls(
                (old(self).ncalls + step) as usize,
            ),
            !direction ==> final(self)@ == old(self)@.with_ncalls(
                (old(self).ncalls - step) as usize,
            ),
    {
        self.ncalls = if direction {
            self.ncalls + step
        } else {
            self.ncalls - step
        }
    }

    /// Exchanges the value in slot `index` with `elem`, or fails with
    /// `MEMORY_UNREACHABLE` and changes nothing where there is no such slot.
    fn swap_slot(&mut self, index: usize, elem: &mut StkElem<N>) -> (r: Result<ErrCode, ErrCode>)
        ensures
            old(self)@.has_slot(index as int) ==> {
                &&& r == Ok::<ErrCode, ErrCode>(ErrCode(FINE))
                &&& *final(elem) == old(self)@.slot(index as int)
                &&& final(self)@ == old(self)@.with_slot(index as int, *old(elem))
            },
            !old(self)@.has_slot(index as int) ==> {
                &&& r == Err::<ErrCode, ErrCode>(ErrCode(MEMORY_UNREACHABLE))
                &&& *final(elem) == *old(elem)
                &&& final(self)@ == old(self)@
            },
            r.is_ok() ==> index < usize::MAX,
    {
        proof {
            if let Some(stk) = &self.stack {
                stk.lemma_len_fits();
            }
        }
        match &mut self.stack {
            Some(stk) => stk.swap_elem(index, elem),
            None => Err(ErrCode(MEMORY_UNREACHABLE)),
        }
    }

    /// Exchanges the frame in frame slot `index` with `ci`, or fails with
    /// `MEMORY_UNREACHABLE` and changes nothing where there is no such slot.
    fn swap_frame(&mut self, index: usize, ci: &mut Frame) -> (r: Result<ErrCode, ErrCode>)
        ensures
            old(self)@.has_frame(index as int) ==> {
                &&& r == Ok::<ErrCode, ErrCode>(ErrCode(FINE))
                &&& *final(ci) == old(self)@.frame(index as int)
                &&& final(self)@ == old(self)@.with_frame(index as int, *old(ci))
            },
            !old(self)@.has_frame(index as int) ==> {
                &&& r == Err::<ErrCode, ErrCode>(ErrCode(MEMORY_UNREACHABLE))
                &&& *final(ci) == *old(ci)
                &&& final(self)@ == old(self)@
            },
    {
        match &mut self.frames {
            Some(civ) => civ.swap_elem(index, ci),
            None => Err(ErrCode(MEMORY_UNREACHABLE)),
        }
    }

    /// Records `status` in the frame at `ci_index`, or fails with
    /// `MEMORY_UNREACHABLE` and changes nothing where there is no such frame.
    pub fn write_frame_status(&mut self, ci_index: usize, status: ErrCode) -> (r: Result<
        ErrCode,
        ErrCode,
    >)
        ensures
            old(self)@.has_frame(ci_index as int) ==> {
                &&& r == Ok::<ErrCode, ErrCode>(ErrCode(FINE))
                &&& final(self)@ == old(self)@.with_frame(
                    ci_index as int,
                    (Frame { callstatus: status, ..old(self)@.frame(ci_index as int) }),
                )
            },
            !old(self)@.has_frame(ci_index as int) ==> {
                &&& r == Err::<ErrCode, ErrCode>(ErrCode(MEMORY_UNREACHABLE))
                &&& final(self)@ == old(self)@
            },
    {
        match &mut self.frames {
            Some(civ) => match civ.get_mut_elem(ci_index) {
                Ok(cci) => {
                    cci.callstatus = status;
                    Ok(ErrCode(FINE))
                },
                Err(e) => Err(e),
            },
            None => Err(ErrCode(MEMORY_UNREACHABLE)),
        }
    }

    /// The status of the frame at `ci_index`, or `MEMORY_UNREACHABLE` where
    /// there is no such frame.
    pub fn get_frame_status(&self, ci_index: usize) -> (r: Result<ErrCode, ErrCode>)
        ensures
            self@.has_frame(ci_index as int) ==> r == Ok::<ErrCode, ErrCode>(
                self@.frame(ci_index as int).callstatus,
            ),
            !self@.has_frame(ci_index as int) ==> r == Err::<ErrCode, ErrCode>(
                ErrCode(MEMORY_UNREACHABLE),
            ),
    {
        match &self.frames {
            Some(civ) => match civ.get_ref_elem(ci_index) {
                Ok(cci) => Ok(cci.callstatus),
                Err(e) => Err(e),
            },
            None => Err(ErrCode(MEMORY_UNREACHABLE)),
        }
    }

    /// The operand stack, to work on directly, or `MEMORY_UNREACHABLE` where
    /// it is not set up. Whatever the caller does to the stack is what the
    /// state holds afterwards; the other fields stay.
    pub fn get_stack_mut_ref(&mut self) -> (r: Result<&mut Stack<N>, ErrCode>)
        ensures
            match r {
                Ok(stk) => {
                    &&& old(self)@.stack == Some(stk@)
                    &&& final(self)@ == (StateView { stack: Some(final(stk)@), ..old(self)@ })
                },
                Err(e) => {
                    &&& old(self)@.stack.is_none()
                    &&& e == ErrCode(MEMORY_UNREACHABLE)
                    &&& final(self)@ == old(self)@
                },
            },
    {
        match &mut self.stack {
            Some(stk) => Ok(stk),
            None => Err(ErrCode(MEMORY_UNREACHABLE)),
        }
    }

    /// The frame stack, to work on directly, or `MEMORY_UNREACHABLE` where
    /// it is not set up. Whatever the caller does to it is what the state
    /// holds afterwards; the other fields stay.
    pub fn get_civ_mut_ref(&mut self) -> (r: Result<&mut FrameVec, ErrCode>)
        ensures
            match r {
                Ok(civ) => {
                    &&& old(self)@.frames == Some(civ@)
                    &&& final(self)@ == (StateView { frames: Some(final(civ)@), ..old(self)@ })
                },
                Err(e) => {
                    &&& old(self)@.frames.is_none()
                    &&& e == ErrCode(MEMORY_UNREACHABLE)
                    &&& final(self)@ == old(self)@
                },
            },
    {
        match &mut self.frames {
            Some(civ) => Ok(civ),
            None => Err(ErrCode(MEMORY_UNREACHABLE)),
        }
    }

    /// Sets up the operand stack at its first length, with nothing on it.
    /// A stack that was there before is dropped.
    pub fn stack_init(&mut self) -> (r: Result<ErrCode, ErrCode>)
        ensures
            r == Ok::<ErrCode, ErrCode>(ErrCode(FINE)),
            final(self)@ == old(self)@.with_fresh_stack(),
    {
        let stk = Stack::new(LUA_MAX_STACK, LUA_STACK_SIZE)?;
        self.stack = Some(stk);
        self.stack_size = LUA_STACK_SIZE;
        self.stack_last_index = LUA_STACK_SIZE - LUA_EXTRA_STACK;
        self.stack_top_index = 0;
        Ok(ErrCode(FINE))
    }

    /// Grows the operand stack so that `size` more slots fit, and brings the
    /// size and the last usable index in line with its new length.
    fn stack_increase(&mut self, size: usize) -> (r: Result<ErrCode, ErrCode>)
        ensures
            old(self)@.stack.is_none() ==> {
                &&& r == Err::<ErrCode, ErrCode>(ErrCode(MEMORY_UNREACHABLE))
                &&& final(self)@ == old(self)@
            },
            old(self)@.stack.is_some() ==> match stack_growth(
                old(self)@.stack.unwrap().len() as int,
                size as int,
            ) {
                Some(added) => {
                    &&& r == Ok::<ErrCode, ErrCode>(ErrCode(FINE))
                    &&& final(self)@ == (StateView {
                        stack: Some(old(self)@.stack.unwrap() + blank_slots::<N>(added as nat)),
                        stack_size: (old(self)@.stack.unwrap().len() + added) as usize,
                        stack_last_index: (old(self)@.stack.unwrap().len() + added
                            - LUA_EXTRA_STACK) as usize,
                        ..old(self)@
                    })
                },
                None => {
                    &&& r == Err::<ErrCode, ErrCode>(ErrCode(MEMORY_REALLOC_FAIL))
                    &&& final(self)@ == old(self)@
                },
            },
    {
        let grown = match &mut self.stack {
            Some(stk) => match stk.increase(size) {
                Ok(_) => Ok(stk.len()),
                Err(e) => Err(e),
            },
            None => Err(ErrCode(MEMORY_UNREACHABLE)),
        };
        match grown {
            Ok(len) => {
                self.stack_size = len;
                self.stack_last_index = len - LUA_EXTRA_STACK;
                Ok(ErrCode(FINE))
            },
            Err(e) => Err(e),
        }
    }

    /// Makes sure that `need` slots above the top are usable, growing the
    /// operand stack where they are not.
    pub fn stack_check(&mut self, need: usize) -> (r: Result<ErrCode, ErrCode>)
        ensures
            r == old(self)@.stack_check_result(need),
            final(self)@ == old(self)@.after_stack_check(need),
    {
        if need > self.stack_last_index || self.stack_top_index > self.stack_last_index - need {
            self.stack_increase(need)?;
        }
        Ok(ErrCode(FINE))
    }

    /// Whether one more call may start: the depth is under its ceiling.
    pub fn calls_check(&self) -> (legal: bool)
        ensures
            legal == (self@.ncalls < LUA_MAX_CALLS),
    {
        !(self.ncalls >= LUA_MAX_CALLS)
    }

    /// Gives up the stack window of the frame at `ci_index`: both its bounds
    /// become `ILLEGAL_INDEX`. The operand stack itself keeps its length.
    /// Fails with `MEMORY_UNREACHABLE` and changes nothing where there is no
    /// such frame or the operand stack is not set up.
    pub fn stack_shrink(&mut self, ci_index: usize) -> (r: Result<ErrCode, ErrCode>)
        ensures
            r == (if old(self)@.can_shrink(ci_index as int) {
                Ok::<ErrCode, ErrCode>(ErrCode(FINE))
            } else {
                Err::<ErrCode, ErrCode>(ErrCode(MEMORY_UNREACHABLE))
            }),
            final(self)@ == old(self)@.after_stack_shrink(ci_index as int),
    {
        let func_index: usize = match &self.frames {
            Some(civ) => civ.get_ref_elem(ci_index)?.stack_func_index,
            None => {
                return Err(ErrCode(MEMORY_UNREACHABLE));
            },
        };
        match &mut self.stack {
            Some(stk) => stk.decrease(func_index),
            None => {
                return Err(ErrCode(MEMORY_UNREACHABLE));
            },
        }
        match &mut self.frames {
            Some(civ) => match civ.get_mut_elem(ci_index) {
                Ok(cci) => {
                    cci.stack_upper_bound = ILLEGAL_INDEX;
                    cci.stack_func_index = ILLEGAL_INDEX;
                    Ok(ErrCode(FINE))
                },
                Err(e) => Err(e),
            },
            None => Err(ErrCode(MEMORY_UNREACHABLE)),
        }
    }

    /// Lets go of the operand stack. The indices into it become
    /// `ILLEGAL_INDEX`.
    pub fn stack_clear(&mut self)
        ensures
            final(self)@ == (StateView {
                stack: None,
                stack_size: 0,
                stack_top_index: ILLEGAL_INDEX,
                stack_last_index: ILLEGAL_INDEX,
                ..old(self)@
            }),
    {
        self.stack = None;
        self.stack_size = 0;
        self.stack_top_index = ILLEGAL_INDEX;
        self.stack_last_index = ILLEGAL_INDEX;
    }

    /// Sets up the frame stack at its first length, with no call running.
    /// A frame stack that was there before is dropped.
    pub fn frames_init(&mut self) -> (r: Result<ErrCode, ErrCode>)
        ensures
            r == Ok::<ErrCode, ErrCode>(ErrCode(FINE)),
            final(self)@ == old(self)@.with_fresh_frames(),
    {
        let civ = FrameVec::new(LUA_MAX_CALLS, LUA_CI_LEN)?;
        self.frames = Some(civ);
        self.ncalls = 0;
        Ok(ErrCode(FINE))
    }

    /// Opens a frame for the function in slot `func_index` and returns the
    /// depth it stands at.
    pub fn push_frame(&mut self, func_index: usize) -> (r: Result<usize, ErrCode>)
        ensures
            r == old(self)@.push_frame_result(),
            final(self)@ == old(self)@.after_push_frame(func_index),
    {
        let top: usize = self.stack_top_index;
        let depth: usize = self.ncalls;
        if top > usize::MAX - LUA_MIN_STACK {
            return Err(ErrCode(MEMORY_UNREACHABLE));
        }
        let mut ci = Frame::new(func_index, top + LUA_MIN_STACK, ErrCode(FINE));
        let placed = match &mut self.frames {
            Some(civ) => match civ.increase(depth, 1) {
                Ok(_) => civ.swap_elem(depth, &mut ci),
                Err(e) => Err(e),
            },
            None => Err(ErrCode(MEMORY_UNREACHABLE)),
        };
        match placed {
            Ok(_) => {
                self.ncalls = depth + 1;
                Ok(depth)
            },
            Err(e) => Err(e),
        }
    }

    /// Closes the frame of the running call and returns it.
    pub fn pop_frame(&mut self) -> (r: Result<Frame, ErrCode>)
        ensures
            r == old(self)@.pop_frame_result(),
            final(self)@ == old(self)@.after_pop_frame(),
    {
        let depth: usize = self.ncalls;
        if depth == 0 {
            return Err(ErrCode(MEMORY_UNREACHABLE));
        }
        let mut empty_frame = Frame::default();
        self.swap_frame(depth - 1, &mut empty_frame)?;
        self.ncalls = depth - 1;
        let shrunk = match &mut self.frames {
            Some(civ) => civ.decrease(depth - 1),
            None => Err(ErrCode(MEMORY_UNREACHABLE)),
        };
        match shrunk {
            Ok(_) => Ok(empty_frame),
            Err(e) => Err(e),
        }
    }

    /// Whether `size` values counted from its function's slot stay inside
    /// the frame at `index`, or `MEMORY_UNREACHABLE` where there is no such
    /// frame.
    pub fn cframe_check_stkedge(&self, index: usize, size: usize) -> (r: Result<bool, ErrCode>)
        ensures
            self@.has_frame(index as int) ==> r == Ok::<bool, ErrCode>(
                self@.frame(index as int).holds(size as int),
            ),
            !self@.has_frame(index as int) ==> r == Err::<bool, ErrCode>(
                ErrCode(MEMORY_UNREACHABLE),
            ),
    {
        match &self.frames {
            Some(civ) => match civ.get_ref_elem(index) {
                Ok(ci) => Ok(ci.fm_check_stkedge(size)),
                Err(e) => Err(e),
            },
            None => Err(ErrCode(MEMORY_UNREACHABLE)),
        }
    }

    /// Lets go of the frame stack. No call is running afterwards.
    pub fn frames_clear(&mut self)
        ensures
            final(self)@ == (StateView { frames: None, ncalls: 0, ..old(self)@ }),
    {
        self.frames = None;
        self.ncalls = 0;
    }

    /// Lets go of both stacks, whichever of them are set up.
    pub fn release(&mut self)
        ensures
            final(self)@ == (StateView {
                stack: None,
                stack_size: 0,
                stack_top_index: ILLEGAL_INDEX,
                stack_last_index: ILLEGAL_INDEX,
                frames: None,
                ncalls: 0,
                ..old(self)@
            }),
    {
        self.stack_clear();
        self.frames_clear();
    }

    /// Makes the main state of `global`, with both stacks set up, and notes
    /// the host's user data beside it. A main state that was there before is
    /// dropped.
    pub fn mainthread_new(global: &mut GlobalState<N>, ud: Option<UserData>) -> (r: Result<
        &mut LuaState<N>,
        ErrCode,
    >)
        ensures
            r.is_ok(),
            match r {
                Ok(state) => {
                    &&& state@ == StateView::<N>::fresh()
                    &&& final(global).mainthread == Some(*final(state))
                    &&& final(global).userdata == ud
                },
                Err(_) => true,
            },
    {
        let mut state = LuaState::default();
        let _ = state.stack_init()?;
        let _ = state.frames_init()?;
        global.userdata = ud;
        global.mainthread = Some(state);
        match &mut global.mainthread {
            Some(main) => Ok(main),
            None => Err(ErrCode(MEMORY_UNREACHABLE)),
        }
    }

    #[inline(always)]
    pub fn move_top_to(&mut self, index: usize)
        ensures
            final(self)@ == old(self)@.with_top(index),
    {
        self.stack_top_index = index;
    }

    /// Moves the top by `step`, up where `direction` is set and down where
    /// it is not. The top has to be at or under the last usable index, and
    /// the new top has to be a `usize`.
    #[inline(always)]
    pub fn move_top(&mut self, step: usize, direction: bool)
        requires
            old(self).stack_last_index >= old(self).stack_top_index,
            direction ==> old(self).stack_top_index + step <= usize::MAX,
            !direction ==> step <= old(self).stack_top_index,
        ensures
            direction ==> final(self)@ == old(self)@.with_top(
                (old(self).stack_top_index + step) as usize,
            ),
            !direction ==> final(self)@ == old(self)@.with_top(
                (old(self).stack_top_index - step) as usize,
            ),
    {
        if direction {
            self.stack_top_index += step;
        } else {
            self.stack_top_index -= step;
        }
    }

    pub fn push_errcode(&mut self, code: ErrCode) -> (r: Result<ErrCode, ErrCode>)
        ensures
            r == old(self)@.push_result(),
            final(self)@ == old(self)@.after_push(<ErrCode as ObjectTrait<N>>::tagged(code)),
    {
        self.push_obj(code.new())
    }

    pub fn push_integer(&mut self, integer: INT) -> (r: Result<ErrCode, ErrCode>)
        ensures
            r == old(self)@.push_result(),
            final(self)@ == old(self)@.after_push(
                <Option<INT> as ObjectTrait<N>>::tagged(Some(integer)),
            ),
    {
        self.push_obj(Some(integer).new())
    }

    pub fn push_float(&mut self, number: FLT) -> (r: Result<ErrCode, ErrCode>)
        ensures
            r == old(self)@.push_result(),
            final(self)@ == old(self)@.after_push(
                <Option<FLT> as ObjectTrait<N>>::tagged(Some(number)),
            ),
    {
        self.push_obj(Some(number).new())
    }

    pub fn push_bool(&mut self, boolean: bool) -> (r: Result<ErrCode, ErrCode>)
        ensures
            r == old(self)@.push_result(),
            final(self)@ == old(self)@.after_push(
                <Option<bool> as ObjectTrait<N>>::tagged(Some(boolean)),
            ),
    {
        self.push_obj(Some(boolean).new())
    }

    pub fn push_nil(&mut self) -> (r: Result<ErrCode, ErrCode>)
        ensures
            r == old(self)@.push_result(),
            final(self)@ == old(self)@.after_push(<Option<()> as ObjectTrait<N>>::tagged(Some(()))),
    {
        self.push_obj(Some(()).new())
    }

    /// Pushes light user data. `None` is pushed as the address zero.
    pub fn push_ud(&mut self, ud: Option<UserData>) -> (r: Result<ErrCode, ErrCode>)
        ensures
            r == old(self)@.push_result(),
            final(self)@ == old(self)@.after_push(
                <Option<UserData> as ObjectTrait<N>>::tagged(
                    Some(
                        match ud {
                            Some(ud_) => ud_,
                            None => UserData { addr: 0 },
                        },
                    ),
                ),
            ),
    {
        match ud {
            Some(ud_) => self.push_obj(Some(ud_).new()),
            None => self.push_obj(Some(UserData { addr: 0 }).new()),
        }
    }

    pub fn push_rfunc(&mut self, rfunc: N) -> (r: Result<ErrCode, ErrCode>)
        ensures
            r == old(self)@.push_result(),
            final(self)@ == old(self)@.after_push(
                <Option<N> as ObjectTrait<N>>::tagged(Some(rfunc)),
            ),
    {
        self.push_obj(Some(rfunc).new())
    }

    /// Writes `obj` to the slot at the top and moves the top up by one.
    pub fn push_obj(&mut self, obj: StkElem<N>) -> (r: Result<ErrCode, ErrCode>)
        ensures
            r == old(self)@.push_result(),
            final(self)@ == old(self)@.after_push(obj),
    {
        let mut elem = obj;
        self.swap_slot(self.stack_top_index, &mut elem)?;
        self.stack_top_index += 1;
        Ok(ErrCode(FINE))
    }

    /// A copy of the value `offset` slots under the highest slot in use.
    pub fn get_stkelem_fromtop(&self, offset: usize) -> (r: Result<StkElem<N>, ErrCode>)
        ensures
            r == self@.peek(offset),
    {
        if self.stack_top_index == 0 || offset > self.stack_top_index - 1 {
            return Err(ErrCode(MEMORY_UNREACHABLE));
        }
        match &self.stack {
            Some(stk) => stk.get_elem(self.stack_top_index - 1 - offset),
            None => Err(ErrCode(MEMORY_UNREACHABLE)),
        }
    }

    /// Reads the value `offset` slots under the highest slot in use as a
    /// `T`.
    fn peek_value<T>(&self, offset: usize) -> (r: Result<T, ErrCode>) where
        Option<T>: ObjectTrait<N>,

        ensures
            r == self@.peek_typed::<T>(offset),
    {
        let elem = self.get_stkelem_fromtop(offset)?;
        match <Option<T> as ObjectTrait<N>>::into_inner(&elem) {
            Some(val) => Ok(val),
            None => Err(ErrCode(MEMORY_TYPE_MISMATCH)),
        }
    }

    pub fn get_integer_fromtop(&self, offset: usize) -> (r: Result<INT, ErrCode>)
        ensures
            r == self@.peek_typed::<INT>(offset),
    {
        self.peek_value::<INT>(offset)
    }

    pub fn get_float_fromtop(&self, offset: usize) -> (r: Result<FLT, ErrCode>)
        ensures
            r == self@.peek_typed::<FLT>(offset),
    {
        self.peek_value::<FLT>(offset)
    }

    pub fn get_bool_fromtop(&self, offset: usize) -> (r: Result<bool, ErrCode>)
        ensures
            r == self@.peek_typed::<bool>(offset),
    {
        self.peek_value::<bool>(offset)
    }

    pub fn get_nil_fromtop(&self, offset: usize) -> (r: Result<(), ErrCode>)
        ensures
            r == self@.peek_typed::<()>(offset),
    {
        self.peek_value::<()>(offset)
    }

    pub fn get_ud_fromtop(&self, offset: usize) -> (r: Result<UserData, ErrCode>)
        ensures
            r == self@.peek_typed::<UserData>(offset),
    {
        self.peek_value::<UserData>(offset)
    }

    pub fn get_rfunc_fromtop(&self, offset: usize) -> (r: Result<N, ErrCode>)
        ensures
            r == self@.peek_typed::<N>(offset),
    {
        self.peek_value::<N>(offset)
    }

    /// Takes the highest value in use off the stack and returns it. Its
    /// slot is blank afterwards. Fails with `MEMORY_UNREACHABLE` and changes
    /// nothing where there is no such slot.
    pub fn pop_stack(&mut self) -> (r: Result<StkElem<N>, ErrCode>)
        ensures
            r == old(self)@.peek(0),
            final(self)@ == (if r.is_ok() {
                old(self)@.popped()
            } else {
                old(self)@
            }),
    {
        if self.stack_top_index == 0 {
            return Err(ErrCode(MEMORY_UNREACHABLE));
        }
        let mut elem = StkElem::default();
        self.swap_slot(self.stack_top_index - 1, &mut elem)?;
        self.stack_top_index -= 1;
        Ok(elem)
    }

    /// Makes slot `index` blank, or fails with `MEMORY_UNREACHABLE` and
    /// changes nothing where there is no such slot.
    pub fn cstack_clear(&mut self, index: usize) -> (r: Result<ErrCode, ErrCode>)
        ensures
            old(self)@.has_slot(index as int) ==> {
                &&& r == Ok::<ErrCode, ErrCode>(ErrCode(FINE))
                &&& final(self)@ == old(self)@.with_slot(index as int, LuaTObject::blank())
            },
            !old(self)@.has_slot(index as int) ==> {
                &&& r == Err::<ErrCode, ErrCode>(ErrCode(MEMORY_UNREACHABLE))
                &&& final(self)@ == old(self)@
            },
    {
        let mut empty_elem = StkElem::default();
        self.swap_slot(index, &mut empty_elem)?;
        Ok(ErrCode(FINE))
    }

    /// Makes frame slot `index` unused, or fails with `MEMORY_UNREACHABLE`
    /// and changes nothing where there is no such slot.
    pub fn cframe_clear(&mut self, index: usize) -> (r: Result<ErrCode, ErrCode>)
        ensures
            old(self)@.has_frame(index as int) ==> {
                &&& r == Ok::<ErrCode, ErrCode>(ErrCode(FINE))
                &&& final(self)@ == old(self)@.with_frame(index as int, Frame::blank())
            },
            !old(self)@.has_frame(index as int) ==> {
                &&& r == Err::<ErrCode, ErrCode>(ErrCode(MEMORY_UNREACHABLE))
                &&& final(self)@ == old(self)@
            },
    {
        let mut empty_frame = Frame::default();
        self.swap_frame(index, &mut empty_frame)?;
        Ok(ErrCode(FINE))
    }

    /// Takes the highest value in use off the stack where it carries a
    /// result code, and leaves the stack as it is where it does not.
    pub fn pop_errcode(&mut self) -> (r: Result<ErrCode, ErrCode>)
        ensures
            r == old(self)@.peek_errcode(0),
            final(self)@ == (if r.is_ok() {
                old(self)@.popped()
            } else {
                old(self)@
            }),
    {
        let elem = self.get_stkelem_fromtop(0)?;
        if !elem.is_errcode() {
            return Err(ErrCode(MEMORY_TYPE_MISMATCH));
        }
        let _ = self.pop_stack();
        Ok(<ErrCode as ObjectTrait<N>>::into_inner(&elem))
    }

    /// Reads the value `offset` slots under the highest slot in use as a
    /// result code.
    pub fn get_errcode_fromtop(&self, offset: usize) -> (r: Result<ErrCode, ErrCode>)
        ensures
            r == self@.peek_errcode(offset),
    {
        let elem = self.get_stkelem_fromtop(offset)?;
        if !elem.is_errcode() {
            return Err(ErrCode(MEMORY_TYPE_MISMATCH));
        }
        Ok(<ErrCode as ObjectTrait<N>>::into_inner(&elem))
    }

    /// Takes the `count` highest values in use off the stack, one after the
    /// other. Where there are fewer, it takes those that there are and fails
    /// with `MEMORY_UNREACHABLE`.
    pub fn clear_frame_stk(&mut self, count: usize) -> (r: Result<ErrCode, ErrCode>)
        ensures
            r == (if old(self)@.pops_done(count) == count {
                Ok::<ErrCode, ErrCode>(ErrCode(FINE))
            } else {
                Err::<ErrCode, ErrCode>(ErrCode(MEMORY_UNREACHABLE))
            }),
            final(self)@ == after_pops(old(self)@, old(self)@.pops_done(count)),
            final(self)@.stack_top_index == old(self)@.stack_top_index - old(self)@.pops_done(
                count,
            ),
    {
        proof {
            self.lemma_view_representable();
        }
        let mut done: usize = 0;
        while done < count
            invariant
                done <= count,
                old(self)@.representable(),
                old(self)@.pops_done(done) == done,
                self@ == after_pops(old(self)@, done as nat),
                self@.stack_top_index == old(self)@.stack_top_index - done,
                self@.stack.is_some() == old(self)@.stack.is_some(),
                self@.stack.is_some() ==> self@.stack.unwrap().len() == old(
                    self,
                )@.stack.unwrap().len(),
            decreases count - done,
        {
            match self.pop_stack() {
                Ok(_) => {
                    proof {
                        reveal_with_fuel(after_pops, 2);
                    }
                    done += 1;
                },
                Err(e) => {
                    return Err(e);
                },
            }
        }
        Ok(ErrCode(FINE))
    }

    /// Takes the highest value in use off the stack where it is a `T`, and
    /// leaves the stack as it is where it is not.
    fn pop_value<T>(&mut self) -> (r: Result<T, ErrCode>) where Option<T>: ObjectTrait<N>
        ensures
            r == old(self)@.peek_typed::<T>(0),
            final(self)@ == (if r.is_ok() {
                old(self)@.popped()
            } else {
                old(self)@
            }),
    {
        let val = self.peek_value::<T>(0)?;
        let _ = self.pop_stack();
        Ok(val)
    }

    pub fn pop_integer(&mut self) -> (r: Result<INT, ErrCode>)
        ensures
            r == old(self)@.peek_typed::<INT>(0),
            final(self)@ == (if r.is_ok() {
                old(self)@.popped()
            } else {
                old(self)@
            }),
    {
        self.pop_value::<INT>()
    }

    pub fn pop_float(&mut self) -> (r: Result<FLT, ErrCode>)
        ensures
            r == old(self)@.peek_typed::<FLT>(0),
            final(self)@ == (if r.is_ok() {
                old(self)@.popped()
            } else {
                old(self)@
            }),
    {
        self.pop_value::<FLT>()
    }

    pub fn pop_bool(&mut self) -> (r: Result<bool, ErrCode>)
        ensures
            r == old(self)@.peek_typed::<bool>(0),
            final(self)@ == (if r.is_ok() {
                old(self)@.popped()
            } else {
                old(self)@
            }),
    {
        self.pop_value::<bool>()
    }

    pub fn pop_nil(&mut self) -> (r: Result<(), ErrCode>)
        ensures
            r == old(self)@.peek_typed::<()>(0),
            final(self)@ == (if r.is_ok() {
                old(self)@.popped()
            } else {
                old(self)@
            }),
    {
        self.pop_value::<()>()
    }

    pub fn pop_ud(&mut self) -> (r: Result<UserData, ErrCode>)
        ensures
            r == old(self)@.peek_typed::<UserData>(0),
            final(self)@ == (if r.is_ok() {
                old(self)@.popped()
            } else {
                old(self)@
            }),
    {
        self.pop_value::<UserData>()
    }
}

/// Whether a `T` that is pushed on `s` comes back from a read of its own
/// type, and whether taking it off again leaves `s` as it was but for the
/// slot it stood in, which is blank.
pub open spec fn round_trips<N, T>(s: StateView<N>, val: T) -> bool where
    Option<T>: ObjectTrait<N>,
 {
    let pushed = s.after_push(<Option<T> as ObjectTrait<N>>::tagged(Some(val)));
    &&& pushed.peek_typed::<T>(0) == Ok::<T, ErrCode>(val)
    &&& pushed.popped() == s.with_slot(s.stack_top_index as int, LuaTObject::blank())
}

/// Whether a `T` that is pushed on `s` is refused by a read of type `U`.
pub open spec fn refused_as<N, T, U>(s: StateView<N>, val: T) -> bool where
    Option<T>: ObjectTrait<N>,
    Option<U>: ObjectTrait<N>,
 {
    s.after_push(<Option<T> as ObjectTrait<N>>::tagged(Some(val))).peek_typed::<U>(0) == Err::<
        U,
        ErrCode,
    >(ErrCode(MEMORY_TYPE_MISMATCH))
}

/// Whether a result code that is pushed on `s` comes back from the read of
/// a result code, and whether taking it off again leaves `s` as it was but
/// for the slot it stood in, which is blank.
pub open spec fn code_round_trips<N>(s: StateView<N>, code: ErrCode) -> bool {
    let pushed = s.after_push(<ErrCode as ObjectTrait<N>>::tagged(code));
    &&& pushed.peek_errcode(0) == Ok::<ErrCode, ErrCode>(code)
    &&& pushed.popped() == s.with_slot(s.stack_top_index as int, LuaTObject::blank())
}

/// Whether a result code that is pushed on `s` is refused by a read of type
/// `U`.
pub open spec fn code_refused_as<N, U>(s: StateView<N>, code: ErrCode) -> bool where
    Option<U>: ObjectTrait<N>,
 {
    s.after_push(<ErrCode as ObjectTrait<N>>::tagged(code)).peek_typed::<U>(0) == Err::<
        U,
        ErrCode,
    >(ErrCode(MEMORY_TYPE_MISMATCH))
}

/// Whether a `T` that is pushed on `s` is refused by the read of a result
/// code.
pub open spec fn refused_as_code<N, T>(s: StateView<N>, val: T) -> bool where
    Option<T>: ObjectTrait<N>,
 {
    s.after_push(<Option<T> as ObjectTrait<N>>::tagged(Some(val))).peek_errcode(0) == Err::<
        ErrCode,
        ErrCode,
    >(ErrCode(MEMORY_TYPE_MISMATCH))
}

/// A value pushed on a stack with room comes back from the pop of its own
/// type exactly as it went in, and the state is then what it was before the
/// push, but for the blank slot. This holds of every type that can be
/// popped.
pub proof fn lemma_push_then_pop_returns_value<N: NativeFunction>(
    s: StateView<N>,
    integer: INT,
    number: FLT,
    boolean: bool,
    ud: UserData,
    code: ErrCode,
)
    requires
        s.representable(),
        s.push_result().is_ok(),
    ensures
        round_trips::<N, INT>(s, integer),
        round_trips::<N, FLT>(s, number),
        round_trips::<N, bool>(s, boolean),
        round_trips::<N, ()>(s, ()),
        round_trips::<N, UserData>(s, ud),
        code_round_trips(s, code),
{
    let top = s.stack_top_index as int;
    let blank = LuaTObject::<N>::blank();
    assert forall|obj: LuaTObject<N>| #[trigger] s.after_push(obj).popped() == s.with_slot(top, blank) by {
        assert(s.after_push(obj).popped().stack.unwrap() =~= s.with_slot(top, blank).stack.unwrap());
    }
}

/// A value pushed on a stack with room is refused with
/// `MEMORY_TYPE_MISMATCH` by the pop of every other type: no pop ever hands
/// out a value of a type that was not pushed.
pub proof fn lemma_mismatched_pop_is_refused<N: NativeFunction>(
    s: StateView<N>,
    integer: INT,
    number: FLT,
    boolean: bool,
    ud: UserData,
    rfunc: N,
    code: ErrCode,
)
    requires
        s.representable(),
        s.push_result().is_ok(),
    ensures
        code_refused_as::<N, INT>(s, code),
        code_refused_as::<N, FLT>(s, code),
        code_refused_as::<N, bool>(s, code),
        code_refused_as::<N, ()>(s, code),
        code_refused_as::<N, UserData>(s, code),
        refused_as_code::<N, INT>(s, integer),
        refused_as_code::<N, FLT>(s, number),
        refused_as_code::<N, bool>(s, boolean),
        refused_as_code::<N, ()>(s, ()),
        refused_as_code::<N, UserData>(s, ud),
        refused_as_code::<N, N>(s, rfunc),
        refused_as::<N, INT, FLT>(s, integer),
        refused_as::<N, INT, bool>(s, integer),
        refused_as::<N, INT, ()>(s, integer),
        refused_as::<N, INT, UserData>(s, integer),
        refused_as::<N, FLT, INT>(s, number),
        refused_as::<N, FLT, bool>(s, number),
        refused_as::<N, FLT, ()>(s, number),
        refused_as::<N, FLT, UserData>(s, number),
        refused_as::<N, bool, INT>(s, boolean),
        refused_as::<N, bool, FLT>(s, boolean),
        refused_as::<N, bool, ()>(s, boolean),
        refused_as::<N, bool, UserData>(s, boolean),
        refused_as::<N, (), INT>(s, ()),
        refused_as::<N, (), FLT>(s, ()),
        refused_as::<N, (), bool>(s, ()),
        refused_as::<N, (), UserData>(s, ()),
        refused_as::<N, UserData, INT>(s, ud),
        refused_as::<N, UserData, FLT>(s, ud),
        refused_as::<N, UserData, bool>(s, ud),
        refused_as::<N, UserData, ()>(s, ud),
        refused_as::<N, N, INT>(s, rfunc),
        refused_as::<N, N, FLT>(s, rfunc),
        refused_as::<N, N, bool>(s, rfunc),
        refused_as::<N, N, ()>(s, rfunc),
        refused_as::<N, N, UserData>(s, rfunc),
{
}

/// The state after the values of `objs` were pushed on `s`, the first one
/// first.
pub open spec fn after_pushes<N>(s: StateView<N>, objs: Seq<LuaTObject<N>>) -> StateView<N>
    decreases objs.len(),
{
    if objs.len() == 0 {
        s
    } else {
        after_pushes(s, objs.drop_last()).after_push(objs.last())
    }
}

/// However many values are pushed on a stack that has room for all of them,
/// they stand in the order in which they were pushed: the value `offset`
/// slots under the highest is the one pushed `offset` pushes before the
/// last. The top has moved up by their number, and no other slot has
/// changed.
pub proof fn lemma_pushes_stack_up<N>(s: StateView<N>, objs: Seq<LuaTObject<N>>)
    requires
        s.stack.is_some(),
        s.stack_top_index + objs.len() <= s.stack.unwrap().len(),
        s.stack_top_index + objs.len() <= usize::MAX,
    ensures
        after_pushes(s, objs).stack_top_index == s.stack_top_index + objs.len(),
        after_pushes(s, objs).stack.is_some(),
        after_pushes(s, objs).stack.unwrap().len() == s.stack.unwrap().len(),
        forall|offset: usize|
            offset < objs.len() ==> #[trigger] after_pushes(s, objs).peek(offset) == Ok::<
                LuaTObject<N>,
                ErrCode,
            >(objs[objs.len() - 1 - offset]),
        forall|index: int|
            0 <= index < s.stack.unwrap().len() && !(s.stack_top_index <= index
                < s.stack_top_index + objs.len()) ==> #[trigger] after_pushes(s, objs).slot(index)
                == s.slot(index),
    decreases objs.len(),
{
    if objs.len() > 0 {
        let before = after_pushes(s, objs.drop_last());
        lemma_pushes_stack_up(s, objs.drop_last());
        let after = after_pushes(s, objs);
        assert(after == before.after_push(objs.last()));
        assert forall|index: int|
            0 <= index < s.stack.unwrap().len() && !(s.stack_top_index <= index
                < s.stack_top_index + objs.len()) implies #[trigger] after.slot(index) == s.slot(
            index,
        ) by {
            assert(before.slot(index) == s.slot(index));
        }
        assert forall|offset: usize| offset < objs.len() implies #[trigger] after.peek(offset)
            == Ok::<LuaTObject<N>, ErrCode>(objs[objs.len() - 1 - offset]) by {
            if offset > 0 {
                let under = (offset - 1) as usize;
                assert(before.peek(under) == Ok::<LuaTObject<N>, ErrCode>(
                    objs.drop_last()[objs.drop_last().len() - 1 - under],
                ));
            }
        }
    }
}

/// The state after the `count` highest values in use were taken off `s`,
/// one after the other.
pub open spec fn after_pops<N>(s: StateView<N>, count: nat) -> StateView<N>
    decreases count,
{
    if count == 0 {
        s
    } else {
        after_pops(s, (count - 1) as nat).popped()
    }
}

/// Values that were pushed come off in the reverse order: after `count` of
/// them were taken off again, the next one to come is the one pushed
/// `count` pushes before the last. The slots of the values taken off are
/// blank, and every other slot is as the pushes left it.
pub proof fn lemma_pops_return_pushes_in_reverse<N>(
    s: StateView<N>,
    objs: Seq<LuaTObject<N>>,
    count: nat,
)
    requires
        s.stack.is_some(),
        s.stack_top_index + objs.len() <= s.stack.unwrap().len(),
        s.stack_top_index + objs.len() <= usize::MAX,
        count <= objs.len(),
    ensures
        ({
            let pushed = after_pushes(s, objs);
            let taken = after_pops(pushed, count);
            &&& taken.stack_top_index == s.stack_top_index + objs.len() - count
            &&& taken.stack.is_some()
            &&& taken.stack.unwrap().len() == s.stack.unwrap().len()
            &&& count < objs.len() ==> taken.peek(0) == Ok::<LuaTObject<N>, ErrCode>(
                objs[objs.len() - 1 - count],
            )
            &&& forall|index: int|
                taken.stack_top_index <= index < pushed.stack_top_index ==> #[trigger] taken.slot(
                    index,
                ) == LuaTObject::<N>::blank()
            &&& forall|index: int|
                0 <= index < s.stack.unwrap().len() && !(taken.stack_top_index <= index
                    < pushed.stack_top_index) ==> #[trigger] taken.slot(index) == pushed.slot(
                    index,
                )
            &&& taken.frames == s.frames
            &&& taken.ncalls == s.ncalls
            &&& taken.status == s.status
        }),
    decreases count,
{
    let pushed = after_pushes(s, objs);
    lemma_pushes_stack_up(s, objs);
    lemma_pushes_keep_the_rest(s, objs);
    if count > 0 {
        let before = after_pops(pushed, (count - 1) as nat);
        lemma_pops_return_pushes_in_reverse(s, objs, (count - 1) as nat);
        let taken = after_pops(pushed, count);
        assert(taken == before.popped());
        assert forall|index: int|
            0 <= index < s.stack.unwrap().len() && !(taken.stack_top_index <= index
                < pushed.stack_top_index) implies #[trigger] taken.slot(index) == pushed.slot(
            index,
        ) by {
            assert(before.slot(index) == pushed.slot(index));
        }
        assert forall|index: int|
            taken.stack_top_index <= index < pushed.stack_top_index implies #[trigger] taken.slot(
            index,
        ) == LuaTObject::<N>::blank() by {
            if index > taken.stack_top_index {
                assert(before.slot(index) == LuaTObject::<N>::blank());
            }
        }
        if count < objs.len() {
            let offset = count as usize;
            assert(pushed.peek(offset) == Ok::<LuaTObject<N>, ErrCode>(
                objs[objs.len() - 1 - offset],
            ));
            assert(taken.slot(taken.stack_top_index - 1) == pushed.slot(
                taken.stack_top_index - 1,
            ));
        }
    } else {
        if count < objs.len() {
            assert(pushed.peek(0usize) == Ok::<LuaTObject<N>, ErrCode>(objs[objs.len() - 1 - 0]));
        }
    }
}

/// Pushes touch nothing but the operand stack and the top.
pub proof fn lemma_pushes_keep_the_rest<N>(s: StateView<N>, objs: Seq<LuaTObject<N>>)
    ensures
        after_pushes(s, objs).frames == s.frames,
        after_pushes(s, objs).ncalls == s.ncalls,
        after_pushes(s, objs).status == s.status,
        after_pushes(s, objs).stack_size == s.stack_size,
        after_pushes(s, objs).stack_last_index == s.stack_last_index,
    decreases objs.len(),
{
    if objs.len() > 0 {
        lemma_pushes_keep_the_rest(s, objs.drop_last());
    }
}

/// In a consistent state under the ceiling of the call depth a frame can
/// always be opened, as long as its upper bound is an index. It stands at
/// the old depth with the function's slot and the least headroom above the
/// top as its bounds; the depth is one higher; and the frames under it, the
/// operand stack and the top are as they were.
pub proof fn lemma_frame_opens_under_ceiling<N>(s: StateView<N>, func_index: usize)
    requires
        s.consistent(),
        s.ncalls < LUA_MAX_CALLS,
        s.stack_top_index + LUA_MIN_STACK <= usize::MAX,
    ensures
        s.push_frame_result() == Ok::<usize, ErrCode>(s.ncalls),
        ({
            let opened = s.after_push_frame(func_index);
            &&& opened.ncalls == s.ncalls + 1
            &&& opened.has_frame(s.ncalls as int)
            &&& opened.frame(s.ncalls as int) == (Frame {
                stack_func_index: func_index,
                stack_upper_bound: (s.stack_top_index + LUA_MIN_STACK) as usize,
                callstatus: ErrCode(FINE),
            })
            &&& forall|depth: int|
                0 <= depth < s.ncalls ==> #[trigger] opened.frame(depth) == s.frame(depth)
            &&& opened.stack == s.stack
            &&& opened.stack_top_index == s.stack_top_index
            &&& opened.stack_last_index == s.stack_last_index
            &&& opened.stack_size == s.stack_size
            &&& opened.status == s.status
            &&& opened.consistent()
        }),
{
}

/// A frame that is opened and closed right away comes back as it was
/// opened, and the call depth is what it was before. The frame's slot is
/// unused again. This holds of every frame stack that is no longer than the
/// ceiling of the call depth.
pub proof fn lemma_push_frame_then_pop_frame<N>(s: StateView<N>, func_index: usize)
    requires
        s.representable(),
        s.push_frame_result().is_ok(),
        s.frames.unwrap().len() <= LUA_MAX_CALLS,
    ensures
        s.after_push_frame(func_index).ncalls == s.ncalls + 1,
        s.after_push_frame(func_index).pop_frame_result() == Ok::<Frame, ErrCode>(
            s.opened_frame(func_index),
        ),
        s.after_push_frame(func_index).after_pop_frame().ncalls == s.ncalls,
        s.after_push_frame(func_index).after_pop_frame().has_frame(s.ncalls as int) ==> s.after_push_frame(
            func_index,
        ).after_pop_frame().frame(s.ncalls as int) == Frame::blank(),
        s.after_push_frame(func_index).after_pop_frame().stack == s.stack,
        s.after_push_frame(func_index).after_pop_frame().stack_top_index == s.stack_top_index,
{
}

/// A frame that is opened, gives up its window and is closed comes back
/// with both its bounds at `ILLEGAL_INDEX`, and the call depth is what it
/// was before the frame was opened. This holds of every frame stack that is
/// no longer than the ceiling of the call depth.
pub proof fn lemma_retired_frame_is_out_of_bounds<N>(s: StateView<N>, func_index: usize)
    requires
        s.representable(),
        s.push_frame_result().is_ok(),
        s.frames.unwrap().len() <= LUA_MAX_CALLS,
        s.stack.is_some(),
    ensures
        s.after_push_frame(func_index).can_shrink(s.ncalls as int),
        s.after_push_frame(func_index).after_stack_shrink(s.ncalls as int).pop_frame_result()
            == Ok::<Frame, ErrCode>(
            Frame {
                stack_func_index: ILLEGAL_INDEX,
                stack_upper_bound: ILLEGAL_INDEX,
                callstatus: ErrCode(FINE),
            },
        ),
        s.after_push_frame(func_index).after_stack_shrink(s.ncalls as int).after_pop_frame().ncalls
            == s.ncalls,
{
}

/// A state is consistent when it is made, and stays so under pushes, pops,
/// checks for room, and the opening, closing and giving up of frames,
/// whether they succeed or fail.
pub proof fn lemma_consistency_is_kept<N>(
    s: StateView<N>,
    obj: LuaTObject<N>,
    need: usize,
    func_index: usize,
    ci_index: int,
)
    requires
        s.consistent(),
    ensures
        StateView::<N>::fresh().consistent(),
        s.representable(),
        s.after_push(obj).consistent(),
        s.peek(0).is_ok() ==> s.popped().consistent(),
        s.after_stack_check(need).consistent(),
        s.after_push_frame(func_index).consistent(),
        s.after_pop_frame().consistent(),
        s.after_stack_shrink(ci_index).consistent(),
{
}

/// In a consistent state a successful check for `need` slots leaves that
/// many slots between the top and the last usable index, so the next `need`
/// pushes all find their slot.
pub proof fn lemma_stack_check_makes_room<N>(s: StateView<N>, need: usize)
    requires
        s.consistent(),
        s.stack_check_result(need).is_ok(),
    ensures
        s.after_stack_check(need).stack_top_index == s.stack_top_index,
        s.after_stack_check(need).stack_top_index + need <= s.after_stack_check(
            need,
        ).stack_last_index,
        forall|index: int|
            s.stack_top_index <= index < s.stack_top_index + need ==> s.after_stack_check(
                need,
            ).has_slot(index),
        forall|index: int|
            0 <= index < s.stack_size ==> #[trigger] s.after_stack_check(need).slot(index)
                == s.slot(index),
{
}

} // verus!
