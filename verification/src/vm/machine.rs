use crate::info::lua::{
    ErrCode, FINE, INVOKE_FRAME_OVERFLOW, INVOKE_RET_MISMATCH, INVOKE_STACK_OVERFLOW,
    LUA_MAX_CALLS, LUA_MIN_STACK, MEMORY_TYPE_MISMATCH, MEMORY_UNREACHABLE,
};
use crate::obj::framedef::Frame;
use crate::obj::objdef::{DataType, ObjectTrait, T_FUNCTION, T_LRF};
use crate::obj::statedef::{GlobalState, LuaState, NativeFunction, StateView};
use vstd::prelude::*;

verus! {

/// What a call knows once its frame is open: the function to run, the depth
/// of its frame, and the slot the function stands in.
#[derive(Debug, Clone, Copy)]
pub struct CallEntry<N> {
    pub function: N,
    pub frame_index: usize,
    pub func_index: usize,
}

impl<N: NativeFunction> StateView<N> {
    /// The slot of the function of a call with `nargs` arguments: the
    /// arguments are the `nargs` highest slots in use, and the function is
    /// right under them.
    pub open spec fn callee_index(self, nargs: usize) -> int {
        self.stack_top_index - (nargs + 1)
    }

    /// The function that a call with `nargs` arguments would run.
    ///
    /// The call is refused with `INVOKE_FRAME_OVERFLOW` at the ceiling of
    /// the call depth, with `MEMORY_UNREACHABLE` where the function's slot
    /// does not exist, with `MEMORY_TYPE_MISMATCH` where the slot holds
    /// anything but a native function, and with `MEMORY_UNREACHABLE` where
    /// it is a native function with nothing in it.
    pub open spec fn callee(self, nargs: usize) -> Result<N, ErrCode> {
        if self.ncalls >= LUA_MAX_CALLS {
            Err(ErrCode(INVOKE_FRAME_OVERFLOW))
        } else if !self.has_slot(self.callee_index(nargs)) {
            Err(ErrCode(MEMORY_UNREACHABLE))
        } else if self.slot(self.callee_index(nargs)).val_idx.0 != T_LRF {
            Err(ErrCode(MEMORY_TYPE_MISMATCH))
        } else {
            match self.slot(self.callee_index(nargs)).val {
                DataType::Function(Some(function)) => Ok(function),
                _ => Err(ErrCode(MEMORY_UNREACHABLE)),
            }
        }
    }

    /// What the first half of a call returns: after the function is found,
    /// the stack is checked for the least headroom and the frame is opened,
    /// and the first failure ends the call.
    pub open spec fn enter_call_result(self, nargs: usize) -> Result<CallEntry<N>, ErrCode> {
        match self.callee(nargs) {
            Err(e) => Err(e),
            Ok(function) => match self.stack_check_result(LUA_MIN_STACK) {
                Err(e) => Err(e),
                Ok(_) => match self.after_stack_check(LUA_MIN_STACK).push_frame_result() {
                    Err(e) => Err(e),
                    Ok(frame_index) => Ok(
                        CallEntry {
                            function,
                            frame_index,
                            func_index: self.callee_index(nargs) as usize,
                        },
                    ),
                },
            },
        }
    }

    /// The state after the first half of a call.
    ///
    /// A call refused at the ceiling of the call depth records
    /// `INVOKE_FRAME_OVERFLOW` as the state's status and touches nothing
    /// else. A call refused for its function changes nothing. After that the
    /// state is what the check for headroom and the opening of the frame
    /// leave.
    pub open spec fn after_enter_call(self, nargs: usize) -> StateView<N> {
        match self.callee(nargs) {
            Err(e) => if self.ncalls >= LUA_MAX_CALLS {
                self.with_status(e)
            } else {
                self
            },
            Ok(_) => if self.stack_check_result(LUA_MIN_STACK).is_err() {
                self
            } else {
                self.after_stack_check(LUA_MIN_STACK).after_push_frame(
                    self.callee_index(nargs) as usize,
                )
            },
        }
    }

    /// What settling the results of a call returns: zero and one declared
    /// results are served, every other count is `INVOKE_RET_MISMATCH`.
    pub open spec fn post_call_result(sresults: isize) -> Result<ErrCode, ErrCode> {
        if sresults == 0 || sresults == 1 {
            Ok(ErrCode(FINE))
        } else {
            Err(ErrCode(INVOKE_RET_MISMATCH))
        }
    }

    /// The state after settling the results of a call whose function stood
    /// in `func_index`: with no result declared the top is the function's
    /// slot, with one it is the slot above. However many results the
    /// function left, none is moved.
    pub open spec fn after_post_call(self, func_index: usize, sresults: isize) -> StateView<N> {
        if sresults == 0 {
            self.with_top(func_index)
        } else if sresults == 1 {
            self.with_top((func_index + 1) as usize)
        } else {
            self
        }
    }

    /// What the second half of a call returns, for a function that came
    /// back with `rresults` results.
    ///
    /// `MEMORY_UNREACHABLE` where the frame is gone, `INVOKE_STACK_OVERFLOW`
    /// where the results do not fit under the frame's upper bound,
    /// `INVOKE_RET_MISMATCH` for a declared count that is not served, and
    /// then whatever closing the frame gives.
    pub open spec fn leave_call_result(
        self,
        frame_index: usize,
        rresults: usize,
        sresults: isize,
    ) -> Result<ErrCode, ErrCode> {
        if !self.has_frame(frame_index as int) {
            Err(ErrCode(MEMORY_UNREACHABLE))
        } else if !self.frame(frame_index as int).holds(rresults as int) {
            Err(ErrCode(INVOKE_STACK_OVERFLOW))
        } else if Self::post_call_result(sresults).is_err() {
            Self::post_call_result(sresults)
        } else {
            match self.pop_frame_result() {
                Ok(_) => Ok(ErrCode(FINE)),
                Err(e) => Err(e),
            }
        }
    }

    /// The state after the second half of a call.
    ///
    /// Results that do not fit are recorded as `INVOKE_STACK_OVERFLOW` in
    /// the frame and in the state, and nothing else changes: no slot is
    /// written and the frame stays open. A declared count that is not served
    /// changes nothing. Otherwise the top is where the declared count puts
    /// it, and the running frame is closed.
    pub open spec fn after_leave_call(
        self,
        frame_index: usize,
        func_index: usize,
        rresults: usize,
        sresults: isize,
    ) -> StateView<N> {
        if !self.has_frame(frame_index as int) {
            self
        } else if !self.frame(frame_index as int).holds(rresults as int) {
            self.with_frame(
                frame_index as int,
                Frame {
                    callstatus: ErrCode(INVOKE_STACK_OVERFLOW),
                    ..self.frame(frame_index as int)
                },
            ).with_status(ErrCode(INVOKE_STACK_OVERFLOW))
        } else if Self::post_call_result(sresults).is_err() {
            self
        } else {
            self.after_post_call(func_index, sresults).after_pop_frame()
        }
    }
}

impl<N: NativeFunction> LuaState<N> {
    /// Calls the function that stands under the `nargs` highest values in
    /// use, asking for `sresults` results.
    ///
    /// Nothing is returned. A call that fails leaves its trace in the status
    /// of the state and of its frame, as `pre_call` says.
    pub fn call(&mut self, nargs: usize, sresults: isize)
        ensures
            match old(self)@.enter_call_result(nargs) {
                Err(_) => final(self)@ == old(self)@.after_enter_call(nargs),
                Ok(entry) => exists|back: StateView<N>, rresults: usize|
                    final(self)@ == #[trigger] back.after_leave_call(
                        entry.frame_index,
                        entry.func_index,
                        rresults,
                        sresults,
                    ),
            },
    {
        self.call_unprotected(nargs, sresults);
    }

    /// The call without any recovery: what `run` returns is dropped here.
    fn call_unprotected(&mut self, nargs: usize, sresults: isize)
        ensures
            match old(self)@.enter_call_result(nargs) {
                Err(_) => final(self)@ == old(self)@.after_enter_call(nargs),
                Ok(entry) => exists|back: StateView<N>, rresults: usize|
                    final(self)@ == #[trigger] back.after_leave_call(
                        entry.frame_index,
                        entry.func_index,
                        rresults,
                        sresults,
                    ),
            },
    {
        let _ = self.run(nargs, sresults);
    }

    /// Runs one call from its entry to its end. It does what `pre_call`
    /// does, after a first look at the call depth.
    pub fn run(&mut self, nargs: usize, sresults: isize) -> (r: Result<ErrCode, ErrCode>)
        ensures
            match old(self)@.enter_call_result(nargs) {
                Err(e) => {
                    &&& r == Err::<ErrCode, ErrCode>(e)
                    &&& final(self)@ == old(self)@.after_enter_call(nargs)
                },
                Ok(entry) => exists|back: StateView<N>, rresults: usize|
                    {
                        &&& r == #[trigger] back.leave_call_result(
                            entry.frame_index,
                            rresults,
                            sresults,
                        )
                        &&& final(self)@ == #[trigger] back.after_leave_call(
                            entry.frame_index,
                            entry.func_index,
                            rresults,
                            sresults,
                        )
                    },
            },
            r.is_ok() ==> {
                &&& r == Ok::<ErrCode, ErrCode>(ErrCode(FINE))
                &&& sresults == 0 || sresults == 1
                &&& final(self)@.stack_top_index == old(self)@.callee_index(nargs) + sresults
            },
    {
        if !self.calls_check() {
            self.set_status(ErrCode(INVOKE_FRAME_OVERFLOW));
            return Err(ErrCode(INVOKE_FRAME_OVERFLOW));
        }
        self.pre_call(nargs, sresults)?;
        Ok(ErrCode(FINE))
    }

    /// Finds the function of a call with `nargs` arguments, makes sure of
    /// the least headroom above the top, and opens the call's frame.
    pub fn enter_call(&mut self, nargs: usize) -> (r: Result<CallEntry<N>, ErrCode>)
        ensures
            r == old(self)@.enter_call_result(nargs),
            final(self)@ == old(self)@.after_enter_call(nargs),
            match r {
                Ok(entry) => entry.func_index < usize::MAX,
                Err(_) => true,
            },
    {
        if !self.calls_check() {
            self.set_status(ErrCode(INVOKE_FRAME_OVERFLOW));
            return Err(ErrCode(INVOKE_FRAME_OVERFLOW));
        }
        let obj = self.get_stkelem_fromtop(nargs)?;
        let func_index: usize = self.get_stack_top() - 1 - nargs;
        if !obj.val_idx.is_function() {
            proof {
                assert(0x17u32 & 7u32 == 7u32) by (bit_vector);
            }
            return Err(ErrCode(MEMORY_TYPE_MISMATCH));
        }
        if obj.val_idx.into_inner() != T_LRF {
            return Err(ErrCode(MEMORY_TYPE_MISMATCH));
        }
        match <Option<N> as ObjectTrait<N>>::into_inner(&obj) {
            Some(function) => {
                self.stack_check(LUA_MIN_STACK)?;
                let frame_index = self.push_frame(func_index)?;
                Ok(CallEntry { function, frame_index, func_index })
            },
            None => Err(ErrCode(MEMORY_UNREACHABLE)),
        }
    }

    /// Settles a call whose function came back with `rresults` results:
    /// checks that they fit in the frame at `frame_index`, puts the top
    /// where `sresults` asks for it, counted from `func_index`, and closes
    /// the running frame.
    pub fn leave_call(
        &mut self,
        frame_index: usize,
        func_index: usize,
        rresults: usize,
        sresults: isize,
    ) -> (r: Result<ErrCode, ErrCode>)
        requires
            sresults == 1 ==> func_index < usize::MAX,
        ensures
            r == old(self)@.leave_call_result(frame_index, rresults, sresults),
            final(self)@ == old(self)@.after_leave_call(frame_index, func_index, rresults, sresults),
    {
        if !self.cframe_check_stkedge(frame_index, rresults)? {
            self.write_frame_status(frame_index, ErrCode(INVOKE_STACK_OVERFLOW))?;
            self.set_status(ErrCode(INVOKE_STACK_OVERFLOW));
            return Err(ErrCode(INVOKE_STACK_OVERFLOW));
        }
        self.post_call(func_index, rresults, sresults)?;
        let _old_frame = self.pop_frame()?;
        Ok(ErrCode(FINE))
    }

    /// One call, from the search for its function to the closing of its
    /// frame.
    ///
    /// Up to the function's start the outcome is that of `enter_call`.
    /// The function then runs on this state, and whatever state it leaves
    /// and whatever count it returns, the outcome is that of `leave_call` on
    /// them.
    pub fn pre_call(&mut self, nargs: usize, sresults: isize) -> (r: Result<ErrCode, ErrCode>)
        ensures
            match old(self)@.enter_call_result(nargs) {
                Err(e) => {
                    &&& r == Err::<ErrCode, ErrCode>(e)
                    &&& final(self)@ == old(self)@.after_enter_call(nargs)
                },
                Ok(entry) => exists|back: StateView<N>, rresults: usize|
                    {
                        &&& r == #[trigger] back.leave_call_result(
                            entry.frame_index,
                            rresults,
                            sresults,
                        )
                        &&& final(self)@ == #[trigger] back.after_leave_call(
                            entry.frame_index,
                            entry.func_index,
                            rresults,
                            sresults,
                        )
                    },
            },
            r.is_ok() ==> {
                &&& r == Ok::<ErrCode, ErrCode>(ErrCode(FINE))
                &&& sresults == 0 || sresults == 1
                &&& final(self)@.stack_top_index == old(self)@.callee_index(nargs) + sresults
            },
    {
        let entry = self.enter_call(nargs)?;
        let rresults = entry.function.invoke(self);
        let ghost back = self@;
        let r = self.leave_call(entry.frame_index, entry.func_index, rresults, sresults);
        proof {
            assert(r == back.leave_call_result(entry.frame_index, rresults, sresults));
            assert(self@ == back.after_leave_call(
                entry.frame_index,
                entry.func_index,
                rresults,
                sresults,
            ));
        }
        r
    }

    /// Puts the top where the declared result count asks for it.
    pub fn post_call(&mut self, func_index: usize, rresults: usize, sresults: isize) -> (r: Result<
        ErrCode,
        ErrCode,
    >)
        requires
            sresults == 1 ==> func_index < usize::MAX,
        ensures
            r == StateView::<N>::post_call_result(sresults),
            final(self)@ == old(self)@.after_post_call(func_index, sresults),
    {
        if sresults == 0 {
            self.move_top_to(func_index);
        } else if sresults == 1 {
            self.move_top_to(func_index + 1);
        } else {
            return Err(ErrCode(INVOKE_RET_MISMATCH));
        }
        Ok(ErrCode(FINE))
    }
}

/// Makes the main state of `global`, without user data.
fn start<N: NativeFunction>(global: &mut GlobalState<N>) -> (r: Result<&mut LuaState<N>, ErrCode>)
    ensures
        r.is_ok(),
        match r {
            Ok(state) => {
                &&& state@ == StateView::<N>::fresh()
                &&& final(global).mainthread == Some(*final(state))
                &&& final(global).userdata.is_none()
            },
            Err(_) => true,
        },
{
    LuaState::mainthread_new(global, None)
}

/// The main state of `global`. The first call makes it; every later call
/// finds the same state, as the calls in between left it.
pub fn get_mainthread<N: NativeFunction>(global: &mut GlobalState<N>) -> (r: Result<
    &mut LuaState<N>,
    ErrCode,
>)
    ensures
        r.is_ok(),
        match r {
            Ok(state) => {
                &&& old(global).mainthread.is_some() ==> *state == old(global).mainthread.unwrap()
                    && final(global).userdata == old(global).userdata
                &&& old(global).mainthread.is_none() ==> state@ == StateView::<N>::fresh()
                    && final(global).userdata.is_none()
                &&& final(global).mainthread == Some(*final(state))
            },
            Err(_) => true,
        },
{
    if global.mainthread.is_none() {
        return start(global);
    }
    match &mut global.mainthread {
        Some(state) => Ok(state),
        None => Err(ErrCode(MEMORY_UNREACHABLE)),
    }
}

/// At the ceiling of the call depth every call is refused with
/// `INVOKE_FRAME_OVERFLOW`. The refusal is recorded as the state's status;
/// no frame, no slot and no index changes.
pub proof fn lemma_call_refused_at_ceiling<N: NativeFunction>(s: StateView<N>, nargs: usize)
    requires
        s.ncalls >= LUA_MAX_CALLS,
    ensures
        s.enter_call_result(nargs) == Err::<CallEntry<N>, ErrCode>(ErrCode(INVOKE_FRAME_OVERFLOW)),
        s.after_enter_call(nargs) == s.with_status(ErrCode(INVOKE_FRAME_OVERFLOW)),
        s.after_enter_call(nargs).frames == s.frames,
        s.after_enter_call(nargs).stack == s.stack,
        s.after_enter_call(nargs).ncalls == s.ncalls,
{
}

/// A call that is entered opens a frame whose function lies under its upper
/// bound: the frame stands at the depth the call started from, the depth is
/// one higher, and the frame's window reaches the least headroom above the
/// top. The top and the values in use are as they were.
pub proof fn lemma_entered_call_has_frame<N: NativeFunction>(s: StateView<N>, nargs: usize)
    requires
        s.representable(),
        s.enter_call_result(nargs).is_ok(),
    ensures
        ({
            let entry = s.enter_call_result(nargs).unwrap();
            let entered = s.after_enter_call(nargs);
            &&& entry.frame_index == s.ncalls
            &&& entry.func_index == s.callee_index(nargs)
            &&& <Option<N> as ObjectTrait<N>>::stored(s.slot(entry.func_index as int)) == Some(
                entry.function,
            )
            &&& entered.ncalls == s.ncalls + 1
            &&& entered.has_frame(entry.frame_index as int)
            &&& entered.frame(entry.frame_index as int) == s.opened_frame(entry.func_index)
            &&& entered.frame(entry.frame_index as int).bounded()
            &&& entered.stack_top_index == s.stack_top_index
            &&& entered.status == s.status
            &&& forall|index: int|
                0 <= index < s.stack.unwrap().len() ==> #[trigger] entered.slot(index) == s.slot(
                    index,
                )
            &&& forall|depth: int|
                0 <= depth < s.frames.unwrap().len() && depth != s.ncalls
                    ==> #[trigger] entered.frame(depth) == s.frame(depth)
        }),
{
}

/// Results that do not fit under the frame's upper bound fail the call with
/// `INVOKE_STACK_OVERFLOW`, which is recorded in the frame and in the state.
/// The operand stack, the top, the call depth and every other frame are
/// left as the function left them.
pub proof fn lemma_overflow_is_recorded<N: NativeFunction>(
    s: StateView<N>,
    frame_index: usize,
    func_index: usize,
    rresults: usize,
    sresults: isize,
)
    requires
        s.has_frame(frame_index as int),
        !s.frame(frame_index as int).holds(rresults as int),
    ensures
        s.leave_call_result(frame_index, rresults, sresults) == Err::<ErrCode, ErrCode>(
            ErrCode(INVOKE_STACK_OVERFLOW),
        ),
        ({
            let left = s.after_leave_call(frame_index, func_index, rresults, sresults);
            &&& left.status == ErrCode(INVOKE_STACK_OVERFLOW)
            &&& left.frame(frame_index as int).callstatus == ErrCode(INVOKE_STACK_OVERFLOW)
            &&& left.frame(frame_index as int).stack_func_index == s.frame(
                frame_index as int,
            ).stack_func_index
            &&& left.frame(frame_index as int).stack_upper_bound == s.frame(
                frame_index as int,
            ).stack_upper_bound
            &&& left.stack == s.stack
            &&& left.stack_top_index == s.stack_top_index
            &&& left.ncalls == s.ncalls
            &&& left.frames.unwrap().len() == s.frames.unwrap().len()
            &&& forall|depth: int|
                0 <= depth < s.frames.unwrap().len() && depth != frame_index
                    ==> #[trigger] left.frame(depth) == s.frame(depth)
        }),
{
}

/// A call that ends well leaves the top at the function's slot where no
/// result was declared, and one above it where one was; the call depth is
/// one lower than the function left it, and no slot of the operand stack
/// was written.
pub proof fn lemma_left_call_settles_top<N: NativeFunction>(
    s: StateView<N>,
    frame_index: usize,
    func_index: usize,
    rresults: usize,
    sresults: isize,
)
    requires
        s.representable(),
        sresults == 1 ==> func_index < usize::MAX,
        s.leave_call_result(frame_index, rresults, sresults).is_ok(),
    ensures
        sresults == 0 || sresults == 1,
        ({
            let left = s.after_leave_call(frame_index, func_index, rresults, sresults);
            &&& left.stack_top_index == func_index + sresults
            &&& left.ncalls == s.ncalls - 1
            &&& left.stack == s.stack
            &&& left.status == s.status
        }),
{
}

/// A consistent state stays consistent through both halves of a call, and
/// the frame that a call opens in it keeps its window under the last usable
/// index of the operand stack.
pub proof fn lemma_call_keeps_consistency<N: NativeFunction>(
    s: StateView<N>,
    nargs: usize,
    frame_index: usize,
    func_index: usize,
    rresults: usize,
    sresults: isize,
)
    requires
        s.consistent(),
    ensures
        s.after_enter_call(nargs).consistent(),
        s.enter_call_result(nargs).is_ok() ==> s.after_enter_call(nargs).frame(
            s.ncalls as int,
        ).stack_upper_bound <= s.after_enter_call(nargs).stack_last_index,
        func_index < s.stack_size ==> s.after_leave_call(
            frame_index,
            func_index,
            rresults,
            sresults,
        ).consistent(),
{
}

} // verus!
