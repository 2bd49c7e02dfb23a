use luavm::info::lua::{
    ErrCode, FINE, LUA_CI_LEN, LUA_EXTRASPACE, LUA_MAX_CALLS, LUA_MAX_STACK, MEMORY_ALLOC_FAIL,
    MEMORY_REALLOC_FAIL, MEMORY_UNREACHABLE,
};
use luavm::method::mem::{vec_alloc, vec_pop, vec_push};
use luavm::obj::framedef::{Frame, FrameVec};
use luavm::obj::objdef::{DataType, LuaTObject, ObjectTrait, ObjectType, INT, T_NUM_INT};
use luavm::obj::stackdef::Stack;
use luavm::obj::statedef::{LuaState, NativeFunction};

#[derive(Clone, Copy, Debug)]
struct Plain(fn(&mut LuaState<Plain>) -> usize);

impl NativeFunction for Plain {
    fn invoke(&self, state: &mut LuaState<Plain>) -> usize {
        (self.0)(state)
    }
}

fn int_obj(v: INT) -> LuaTObject<Plain> {
    Some(v).new()
}

fn is_blank(obj: &LuaTObject<Plain>) -> bool {
    obj.val_idx == ObjectType(0) && matches!(obj.val, DataType::Nil(Some(())))
}

fn is_int(obj: &LuaTObject<Plain>, v: INT) -> bool {
    obj.val_idx == ObjectType(T_NUM_INT) && matches!(obj.val, DataType::Integer(Some(x)) if x == v)
}

#[test]
fn vec_helpers_fill_and_drain() {
    let mut v: Vec<u8> = vec_alloc(4);
    assert!(v.is_empty());
    assert!(v.capacity() >= 4);
    vec_push(&mut v, 7, 3);
    assert_eq!(v, vec![7, 7, 7]);
    vec_push(&mut v, 9, 0);
    assert_eq!(v, vec![7, 7, 7]);
    vec_push(&mut v, 1, 2);
    vec_pop(&mut v, 1);
    assert_eq!(v, vec![7, 7, 7, 1]);
    vec_pop(&mut v, 9);
    assert!(v.is_empty());
}

#[test]
fn stack_new_has_blank_slots() {
    let stk = Stack::<Plain>::new(10, 4).unwrap();
    assert_eq!(stk.len(), 4);
    for i in 0..4 {
        assert!(is_blank(&stk.get_elem(i).unwrap()));
    }
    assert!(Stack::<Plain>::new(0, 0).is_ok());
    assert_eq!(Stack::<Plain>::new(3, 3).unwrap().len(), 3);
}

#[test]
fn stack_new_refuses_length_over_capacity() {
    assert_eq!(Stack::<Plain>::new(3, 4).err(), Some(ErrCode(MEMORY_ALLOC_FAIL)));
}

#[test]
fn stack_reads_fail_at_the_length() {
    let mut stk = Stack::<Plain>::new(10, 4).unwrap();
    assert!(stk.get_elem(3).is_ok());
    assert_eq!(stk.get_elem(4).err(), Some(ErrCode(MEMORY_UNREACHABLE)));
    assert_eq!(stk.get_ref_elem(4).err(), Some(ErrCode(MEMORY_UNREACHABLE)));
    assert_eq!(stk.get_mut_elem(4).err(), Some(ErrCode(MEMORY_UNREACHABLE)));
    assert_eq!(stk.get_elem(usize::MAX).err(), Some(ErrCode(MEMORY_UNREACHABLE)));
    assert!(stk.get_ref_elem(0).is_ok());
}

#[test]
fn stack_swap_exchanges_values() {
    let mut stk = Stack::<Plain>::new(10, 4).unwrap();
    let mut elem = int_obj(11);
    assert_eq!(stk.swap_elem(2, &mut elem), Ok(ErrCode(FINE)));
    assert!(is_blank(&elem));
    assert!(is_int(&stk.get_elem(2).unwrap(), 11));
    let mut second = int_obj(12);
    assert_eq!(stk.swap_elem(2, &mut second), Ok(ErrCode(FINE)));
    assert!(is_int(&second, 11));
    assert!(is_int(stk.get_ref_elem(2).unwrap(), 12));
    assert!(is_blank(&stk.get_elem(1).unwrap()));
    assert!(is_blank(&stk.get_elem(3).unwrap()));
}

#[test]
fn stack_swap_out_of_range_changes_nothing() {
    let mut stk = Stack::<Plain>::new(10, 4).unwrap();
    let mut elem = int_obj(11);
    assert_eq!(stk.swap_elem(4, &mut elem), Err(ErrCode(MEMORY_UNREACHABLE)));
    assert!(is_int(&elem, 11));
    assert_eq!(stk.len(), 4);
}

#[test]
fn stack_get_mut_elem_writes_through() {
    let mut stk = Stack::<Plain>::new(10, 4).unwrap();
    *stk.get_mut_elem(1).unwrap() = int_obj(5);
    assert!(is_int(&stk.get_elem(1).unwrap(), 5));
    assert!(is_blank(&stk.get_elem(0).unwrap()));
}

#[test]
fn stack_increase_doubles_where_that_is_more() {
    let mut stk = Stack::<Plain>::new(100, 40).unwrap();
    *stk.get_mut_elem(39).unwrap() = int_obj(1);
    assert_eq!(stk.increase(20), Ok(40));
    assert_eq!(stk.len(), 80);
    assert!(is_int(&stk.get_elem(39).unwrap(), 1));
    assert!(is_blank(&stk.get_elem(40).unwrap()));
    assert!(is_blank(&stk.get_elem(79).unwrap()));
}

#[test]
fn stack_increase_takes_need_and_extra_where_that_is_more() {
    let mut stk = Stack::<Plain>::new(100, 10).unwrap();
    assert_eq!(stk.increase(20), Ok(20 + LUA_EXTRASPACE));
    assert_eq!(stk.len(), 38);
    let mut empty = Stack::<Plain>::new(0, 0).unwrap();
    assert_eq!(empty.increase(0), Ok(LUA_EXTRASPACE));
    assert_eq!(empty.len(), 8);
}

#[test]
fn stack_increase_settles_for_the_least_near_the_ceiling() {
    let mut stk = Stack::<Plain>::new(LUA_MAX_STACK, 8000).unwrap();
    assert_eq!(stk.increase(100), Ok(108));
    assert_eq!(stk.len(), 8108);
    let mut stk = Stack::<Plain>::new(LUA_MAX_STACK, 7500).unwrap();
    assert_eq!(stk.increase(1), Ok(7500));
    assert_eq!(stk.len(), LUA_MAX_STACK);
}

#[test]
fn stack_increase_fails_at_the_ceiling() {
    let mut stk = Stack::<Plain>::new(LUA_MAX_STACK, LUA_MAX_STACK).unwrap();
    assert_eq!(stk.increase(0), Err(ErrCode(MEMORY_REALLOC_FAIL)));
    assert_eq!(stk.increase(1), Err(ErrCode(MEMORY_REALLOC_FAIL)));
    assert_eq!(stk.len(), LUA_MAX_STACK);
    let mut over = Stack::<Plain>::new(LUA_MAX_STACK + 1, LUA_MAX_STACK + 1).unwrap();
    assert_eq!(over.increase(0), Err(ErrCode(MEMORY_REALLOC_FAIL)));
    assert_eq!(over.len(), LUA_MAX_STACK + 1);
}

#[test]
fn stack_increase_fails_where_the_least_growth_passes_the_ceiling() {
    let mut stk = Stack::<Plain>::new(LUA_MAX_STACK, 14990).unwrap();
    assert_eq!(stk.increase(3), Err(ErrCode(MEMORY_REALLOC_FAIL)));
    assert_eq!(stk.len(), 14990);
    assert_eq!(stk.increase(2), Ok(10));
    assert_eq!(stk.len(), LUA_MAX_STACK);
    let mut small = Stack::<Plain>::new(10, 10).unwrap();
    assert_eq!(small.increase(usize::MAX), Err(ErrCode(MEMORY_REALLOC_FAIL)));
    assert_eq!(small.increase(LUA_MAX_STACK), Err(ErrCode(MEMORY_REALLOC_FAIL)));
    assert_eq!(small.len(), 10);
}

#[test]
fn stack_decrease_keeps_every_slot() {
    let mut stk = Stack::<Plain>::new(10, 4).unwrap();
    *stk.get_mut_elem(3).unwrap() = int_obj(5);
    stk.decrease(0);
    assert_eq!(stk.len(), 4);
    assert!(is_int(&stk.get_elem(3).unwrap(), 5));
}

#[test]
fn frame_new_and_default() {
    let frame = Frame::new(3, 23, ErrCode(FINE));
    assert_eq!(frame.stack_func_index, 3);
    assert_eq!(frame.stack_upper_bound, 23);
    assert_eq!(frame.callstatus, ErrCode(FINE));
    let blank = Frame::default();
    assert_eq!(blank, Frame { stack_func_index: 0, stack_upper_bound: 0, callstatus: ErrCode(FINE) });
}

#[test]
fn frame_check_stkedge_is_strict() {
    let frame = Frame::new(3, 23, ErrCode(FINE));
    assert!(frame.fm_check_stkedge(0));
    assert!(frame.fm_check_stkedge(19));
    assert!(!frame.fm_check_stkedge(20));
    assert!(!frame.fm_check_stkedge(21));
    assert!(!frame.fm_check_stkedge(usize::MAX));
    assert!(!Frame::default().fm_check_stkedge(0));
    assert!(!Frame::new(usize::MAX, usize::MAX, ErrCode(FINE)).fm_check_stkedge(0));
    assert!(!Frame::new(9, 4, ErrCode(FINE)).fm_check_stkedge(0));
}

#[test]
fn framevec_new_has_unused_slots() {
    let civ = FrameVec::new(LUA_MAX_CALLS, LUA_CI_LEN).unwrap();
    assert_eq!(civ.len(), 20);
    assert_eq!(*civ.get_ref_elem(0).unwrap(), Frame::default());
    assert_eq!(*civ.get_ref_elem(19).unwrap(), Frame::default());
    assert_eq!(civ.get_ref_elem(20).err(), Some(ErrCode(MEMORY_UNREACHABLE)));
    assert_eq!(FrameVec::new(2, 3).err(), Some(ErrCode(MEMORY_ALLOC_FAIL)));
}

#[test]
fn framevec_swap_and_get_mut() {
    let mut civ = FrameVec::new(10, 4).unwrap();
    let mut frame = Frame::new(1, 21, ErrCode(FINE));
    assert_eq!(civ.swap_elem(2, &mut frame), Ok(ErrCode(FINE)));
    assert_eq!(frame, Frame::default());
    assert_eq!(*civ.get_ref_elem(2).unwrap(), Frame::new(1, 21, ErrCode(FINE)));
    civ.get_mut_elem(2).unwrap().callstatus = ErrCode(MEMORY_UNREACHABLE);
    assert_eq!(civ.get_ref_elem(2).unwrap().callstatus, ErrCode(MEMORY_UNREACHABLE));
    let mut other = Frame::new(5, 6, ErrCode(FINE));
    assert_eq!(civ.swap_elem(4, &mut other), Err(ErrCode(MEMORY_UNREACHABLE)));
    assert_eq!(other, Frame::new(5, 6, ErrCode(FINE)));
    assert_eq!(civ.get_mut_elem(4).err(), Some(ErrCode(MEMORY_UNREACHABLE)));
}

#[test]
fn framevec_increase_is_lazy() {
    let mut civ = FrameVec::new(LUA_MAX_CALLS, 20).unwrap();
    assert_eq!(civ.increase(0, 1), Ok(20));
    assert_eq!(civ.increase(10, 1), Ok(20));
    assert_eq!(civ.increase(10, 10), Ok(20));
    assert_eq!(civ.len(), 20);
}

#[test]
fn framevec_increase_doubles_when_crowded() {
    let mut civ = FrameVec::new(LUA_MAX_CALLS, 20).unwrap();
    *civ.get_mut_elem(19).unwrap() = Frame::new(1, 2, ErrCode(FINE));
    assert_eq!(civ.increase(11, 1), Ok(40));
    assert_eq!(civ.len(), 40);
    assert_eq!(*civ.get_ref_elem(19).unwrap(), Frame::new(1, 2, ErrCode(FINE)));
    assert_eq!(*civ.get_ref_elem(20).unwrap(), Frame::default());
    assert_eq!(*civ.get_ref_elem(39).unwrap(), Frame::default());
}

#[test]
fn framevec_increase_takes_need_where_that_is_more() {
    let mut civ = FrameVec::new(LUA_MAX_CALLS, 20).unwrap();
    assert_eq!(civ.increase(0, 30), Ok(50));
    let mut civ = FrameVec::new(LUA_MAX_CALLS, 20).unwrap();
    assert_eq!(civ.increase(10, 11), Ok(40));
}

#[test]
fn framevec_increase_is_clamped_to_the_ceiling() {
    let mut civ = FrameVec::new(LUA_MAX_CALLS, 160).unwrap();
    *civ.get_mut_elem(159).unwrap() = Frame::new(1, 2, ErrCode(FINE));
    assert_eq!(civ.increase(81, 1), Ok(200));
    assert_eq!(civ.len(), LUA_MAX_CALLS);
    assert_eq!(*civ.get_ref_elem(159).unwrap(), Frame::new(1, 2, ErrCode(FINE)));
    assert_eq!(*civ.get_ref_elem(199).unwrap(), Frame::default());
    let mut civ = FrameVec::new(LUA_MAX_CALLS, 100).unwrap();
    assert_eq!(civ.increase(51, 1), Ok(200));
    let mut civ = FrameVec::new(LUA_MAX_CALLS, 20).unwrap();
    assert_eq!(civ.increase(0, 180), Ok(200));
    let mut civ = FrameVec::new(LUA_MAX_CALLS, 20).unwrap();
    assert_eq!(civ.increase(15, 185), Ok(200));
}

#[test]
fn framevec_increase_at_the_ceiling_keeps_serving() {
    let mut civ = FrameVec::new(LUA_MAX_CALLS, 200).unwrap();
    assert_eq!(civ.increase(100, 1), Ok(200));
    assert_eq!(civ.increase(101, 1), Ok(200));
    assert_eq!(civ.increase(150, 1), Ok(200));
    assert_eq!(civ.increase(199, 1), Ok(200));
    assert_eq!(civ.increase(150, 50), Ok(200));
    assert_eq!(civ.increase(200, 0), Ok(200));
    assert_eq!(civ.len(), 200);
}

#[test]
fn framevec_increase_fails_where_the_frames_fit_under_no_ceiling() {
    let mut civ = FrameVec::new(LUA_MAX_CALLS, 200).unwrap();
    assert_eq!(civ.increase(200, 1), Err(ErrCode(MEMORY_REALLOC_FAIL)));
    assert_eq!(civ.increase(150, 51), Err(ErrCode(MEMORY_REALLOC_FAIL)));
    assert_eq!(civ.len(), 200);
    let mut civ = FrameVec::new(LUA_MAX_CALLS, 20).unwrap();
    assert_eq!(civ.increase(0, 201), Err(ErrCode(MEMORY_REALLOC_FAIL)));
    assert_eq!(civ.increase(20, 181), Err(ErrCode(MEMORY_REALLOC_FAIL)));
    assert_eq!(civ.increase(usize::MAX, usize::MAX), Err(ErrCode(MEMORY_REALLOC_FAIL)));
    assert_eq!(civ.increase(usize::MAX, 0), Err(ErrCode(MEMORY_REALLOC_FAIL)));
    assert_eq!(civ.increase(0, usize::MAX), Err(ErrCode(MEMORY_REALLOC_FAIL)));
    assert_eq!(civ.len(), 20);
}

#[test]
fn framevec_increase_over_the_ceiling_adds_nothing() {
    let mut civ = FrameVec::new(300, 201).unwrap();
    assert_eq!(civ.increase(0, 0), Ok(201));
    assert_eq!(civ.increase(150, 1), Ok(201));
    assert_eq!(civ.increase(201, 1), Err(ErrCode(MEMORY_REALLOC_FAIL)));
    assert_eq!(civ.len(), 201);
}

#[test]
fn framevec_decrease_leaves_the_floor_alone() {
    let mut civ = FrameVec::new(LUA_MAX_CALLS, 20).unwrap();
    assert_eq!(civ.decrease(0), Ok(20));
    assert_eq!(civ.len(), 20);
    let mut civ = FrameVec::new(LUA_MAX_CALLS, 7).unwrap();
    assert_eq!(civ.decrease(0), Ok(7));
    assert_eq!(civ.len(), 7);
}

#[test]
fn framevec_decrease_halves_under_a_third() {
    let mut civ = FrameVec::new(LUA_MAX_CALLS, 40).unwrap();
    *civ.get_mut_elem(12).unwrap() = Frame::new(1, 2, ErrCode(FINE));
    assert_eq!(civ.decrease(14), Ok(40));
    assert_eq!(civ.len(), 40);
    assert_eq!(civ.decrease(13), Ok(20));
    assert_eq!(civ.len(), 20);
    assert_eq!(*civ.get_ref_elem(12).unwrap(), Frame::new(1, 2, ErrCode(FINE)));
    let mut civ = FrameVec::new(LUA_MAX_CALLS, 160).unwrap();
    assert_eq!(civ.decrease(53), Ok(80));
    assert_eq!(civ.decrease(27), Ok(80));
    assert_eq!(civ.decrease(26), Ok(40));
    assert_eq!(civ.decrease(0), Ok(20));
    assert_eq!(civ.decrease(0), Ok(20));
}

#[test]
fn framevec_decrease_of_an_odd_length() {
    let mut civ = FrameVec::new(LUA_MAX_CALLS, 21).unwrap();
    assert_eq!(civ.decrease(7), Ok(10));
    assert_eq!(civ.len(), 10);
    let mut civ = FrameVec::new(LUA_MAX_CALLS, 21).unwrap();
    assert_eq!(civ.decrease(8), Ok(21));
}

#[test]
fn framevec_decrease_fails_over_the_ceiling() {
    let mut civ = FrameVec::new(300, 201).unwrap();
    assert_eq!(civ.decrease(0), Err(ErrCode(MEMORY_REALLOC_FAIL)));
    assert_eq!(civ.len(), 201);
    assert_eq!(civ.decrease(usize::MAX), Err(ErrCode(MEMORY_REALLOC_FAIL)));
}
