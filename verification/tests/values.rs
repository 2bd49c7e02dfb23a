use luavm::info::lua::{
    ErrCode, ERR_INVOKE, ERR_MEMORY, FINE, INVOKE_FRAME_OVERFLOW, INVOKE_RET_MISMATCH,
    INVOKE_STACK_OVERFLOW, MEMORY_ALLOC_FAIL, MEMORY_DROP_FAIL, MEMORY_MODIFY_FAIL,
    MEMORY_REALLOC_FAIL, MEMORY_TYPE_MISMATCH, MEMORY_UNREACHABLE, NONE_OBJECT,
};
use luavm::obj::objdef::{
    DataType, LuaTObject, ObjectTrait, ObjectType, UserData, FLT, INT, T_BOOLEAN, T_CCL,
    T_LCL, T_LIGHT_USER_DATA, T_LRF, T_NIL, T_NUM_FLT, T_NUM_INT, T_STRING, T_TABLE,
};
use luavm::obj::statedef::{LuaState, NativeFunction};

#[derive(Clone, Copy, Debug)]
struct Native(fn(&mut LuaState<Native>) -> usize);

impl NativeFunction for Native {
    fn invoke(&self, state: &mut LuaState<Native>) -> usize {
        (self.0)(state)
    }
}

fn three(_state: &mut LuaState<Native>) -> usize {
    3
}

type Obj = LuaTObject<Native>;

fn integer_obj(v: INT) -> Obj {
    Some(v).new()
}

#[test]
fn error_codes_have_their_values() {
    assert_eq!(FINE, 0);
    assert_eq!(INVOKE_RET_MISMATCH, (1 << 4) | 1);
    assert_eq!(INVOKE_STACK_OVERFLOW, (2 << 4) | 1);
    assert_eq!(INVOKE_FRAME_OVERFLOW, (3 << 4) | 1);
    assert_eq!(MEMORY_ALLOC_FAIL, (1 << 4) | 2);
    assert_eq!(MEMORY_REALLOC_FAIL, (2 << 4) | 2);
    assert_eq!(MEMORY_UNREACHABLE, (3 << 4) | 2);
    assert_eq!(MEMORY_MODIFY_FAIL, (6 << 4) | 2);
    assert_eq!(MEMORY_TYPE_MISMATCH, (7 << 4) | 2);
    assert_eq!(MEMORY_DROP_FAIL, (8 << 4) | 2);
}

#[test]
fn error_code_splits_into_category_and_subcode() {
    let code = ErrCode(MEMORY_TYPE_MISMATCH);
    assert_eq!(code.category(), ERR_MEMORY);
    assert_eq!(code.subcode(), 7);
    let code = ErrCode(INVOKE_FRAME_OVERFLOW);
    assert_eq!(code.category(), ERR_INVOKE);
    assert_eq!(code.subcode(), 3);
    assert_eq!(ErrCode(FINE).category(), 0);
    assert_eq!(ErrCode(FINE).subcode(), 0);
    assert_eq!(ErrCode(0xffff_ffff).category(), 15);
    assert_eq!(ErrCode(0xffff_ffff).subcode(), 0x0fff_ffff);
}

#[test]
fn error_code_default_is_fine() {
    assert_eq!(ErrCode::default(), ErrCode(FINE));
    assert!(ErrCode::default().is_fine());
    assert!(!ErrCode(MEMORY_UNREACHABLE).is_fine());
}

#[test]
fn type_codes_have_their_values() {
    assert_eq!(T_NUM_INT, 1);
    assert_eq!(T_NUM_FLT, 1 | (1 << 4));
    assert_eq!(T_LCL, 7);
    assert_eq!(T_LRF, 7 | (1 << 4));
    assert_eq!(T_CCL, 7 | (2 << 4));
    assert_eq!(T_LIGHT_USER_DATA, 2);
    assert_eq!(T_BOOLEAN, 3);
    assert_eq!(T_NIL, 5);
}

#[test]
fn is_function_tests_the_family_bits() {
    assert!(ObjectType(T_LRF).is_function());
    assert!(ObjectType(T_LCL).is_function());
    assert!(ObjectType(T_CCL).is_function());
    assert!(ObjectType(0xf).is_function());
    assert!(!ObjectType(T_NUM_INT).is_function());
    assert!(!ObjectType(T_NUM_FLT).is_function());
    assert!(!ObjectType(T_BOOLEAN).is_function());
    assert!(!ObjectType(T_STRING).is_function());
    assert!(!ObjectType(T_NIL).is_function());
    assert!(!ObjectType(T_TABLE).is_function());
    assert!(!ObjectType(0).is_function());
}

#[test]
fn object_type_into_inner_returns_the_code() {
    assert_eq!(ObjectType(T_LRF).into_inner(), 0x17);
    assert_eq!(ObjectType::default().into_inner(), 0);
}

#[test]
fn default_object_is_blank() {
    let obj = Obj::default();
    assert_eq!(obj.val_idx, ObjectType(0));
    assert!(matches!(obj.val, DataType::Nil(Some(()))));
    assert!(matches!(DataType::<Native>::default(), DataType::Nil(Some(()))));
}

#[test]
fn blank_object_is_read_by_no_type() {
    let obj = Obj::default();
    assert_eq!(<Option<INT> as ObjectTrait<Native>>::into_inner(&obj), None);
    assert_eq!(<Option<FLT> as ObjectTrait<Native>>::into_inner(&obj), None);
    assert_eq!(<Option<bool> as ObjectTrait<Native>>::into_inner(&obj), None);
    assert_eq!(<Option<()> as ObjectTrait<Native>>::into_inner(&obj), None);
    assert_eq!(<Option<UserData> as ObjectTrait<Native>>::into_inner(&obj), None);
    assert!(<Option<Native> as ObjectTrait<Native>>::into_inner(&obj).is_none());
}

#[test]
fn integer_object_reads_back() {
    let obj = integer_obj(-17);
    assert_eq!(obj.val_idx, ObjectType(T_NUM_INT));
    assert!(matches!(obj.val, DataType::Integer(Some(-17))));
    assert_eq!(<Option<INT> as ObjectTrait<Native>>::into_inner(&obj), Some(-17));
    assert_eq!(<Option<bool> as ObjectTrait<Native>>::into_inner(&obj), None);
    assert_eq!(<Option<FLT> as ObjectTrait<Native>>::into_inner(&obj), None);
}

#[test]
fn float_object_reads_back() {
    let number = FLT { bits: 1.5f32.to_bits() };
    let obj: Obj = Some(number).new();
    assert_eq!(obj.val_idx, ObjectType(T_NUM_FLT));
    let back = <Option<FLT> as ObjectTrait<Native>>::into_inner(&obj);
    assert_eq!(back, Some(number));
    assert_eq!(f32::from_bits(back.unwrap().bits), 1.5f32);
    assert_eq!(<Option<INT> as ObjectTrait<Native>>::into_inner(&obj), None);
}

#[test]
fn bool_object_reads_back() {
    let obj: Obj = Some(true).new();
    assert_eq!(obj.val_idx, ObjectType(T_BOOLEAN));
    assert_eq!(<Option<bool> as ObjectTrait<Native>>::into_inner(&obj), Some(true));
    assert_eq!(<Option<INT> as ObjectTrait<Native>>::into_inner(&obj), None);
}

#[test]
fn nil_object_reads_back() {
    let obj: Obj = Some(()).new();
    assert_eq!(obj.val_idx, ObjectType(T_NIL));
    assert_eq!(<Option<()> as ObjectTrait<Native>>::into_inner(&obj), Some(()));
    assert_eq!(<Option<bool> as ObjectTrait<Native>>::into_inner(&obj), None);
}

#[test]
fn user_data_object_reads_back() {
    let obj: Obj = Some(UserData { addr: 0xdead }).new();
    assert_eq!(obj.val_idx, ObjectType(T_LIGHT_USER_DATA));
    assert_eq!(
        <Option<UserData> as ObjectTrait<Native>>::into_inner(&obj),
        Some(UserData { addr: 0xdead })
    );
    assert_eq!(<Option<INT> as ObjectTrait<Native>>::into_inner(&obj), None);
}

#[test]
fn function_object_reads_back() {
    let obj: Obj = Some(Native(three)).new();
    assert_eq!(obj.val_idx, ObjectType(T_LRF));
    assert!(obj.val_idx.is_function());
    let back = <Option<Native> as ObjectTrait<Native>>::into_inner(&obj).unwrap();
    let mut state = LuaState::<Native>::default();
    assert_eq!(back.invoke(&mut state), 3);
    assert_eq!(<Option<INT> as ObjectTrait<Native>>::into_inner(&obj), None);
}

#[test]
fn empty_payload_reads_as_nothing() {
    let obj: Obj = Option::<INT>::None.new();
    assert_eq!(obj.val_idx, ObjectType(T_NUM_INT));
    assert!(obj.val.is_none());
    assert_eq!(<Option<INT> as ObjectTrait<Native>>::into_inner(&obj), None);
}

#[test]
fn mismatched_pair_is_read_by_no_type() {
    let obj = Obj { val: DataType::Bool(Some(true)), val_idx: ObjectType(T_NUM_INT) };
    assert_eq!(<Option<INT> as ObjectTrait<Native>>::into_inner(&obj), None);
    assert_eq!(<Option<bool> as ObjectTrait<Native>>::into_inner(&obj), None);
}

#[test]
fn set_value_overwrites_payload_and_discriminant() {
    let mut obj = integer_obj(4);
    Some(false).set_value(&mut obj);
    assert_eq!(obj.val_idx, ObjectType(T_BOOLEAN));
    assert!(matches!(obj.val, DataType::Bool(Some(false))));
    Some(9 as INT).set_value(&mut obj);
    assert_eq!(<Option<INT> as ObjectTrait<Native>>::into_inner(&obj), Some(9));
    Some(UserData { addr: 7 }).set_value(&mut obj);
    assert_eq!(obj.val_idx, ObjectType(T_LIGHT_USER_DATA));
    Some(FLT { bits: 3 }).set_value(&mut obj);
    assert_eq!(obj.val_idx, ObjectType(T_NUM_FLT));
    Some(()).set_value(&mut obj);
    assert_eq!(obj.val_idx, ObjectType(T_NIL));
    Some(Native(three)).set_value(&mut obj);
    assert_eq!(obj.val_idx, ObjectType(T_LRF));
    ErrCode(MEMORY_UNREACHABLE).set_value(&mut obj);
    assert_eq!(obj.val_idx, ObjectType(MEMORY_UNREACHABLE));
    assert!(matches!(obj.val, DataType::Nil(None)));
}

#[test]
fn error_code_object_reads_back() {
    let obj: Obj = ErrCode(MEMORY_ALLOC_FAIL).new();
    assert_eq!(obj.val_idx, ObjectType(MEMORY_ALLOC_FAIL));
    assert!(matches!(obj.val, DataType::Nil(None)));
    assert!(obj.is_errcode());
    assert_eq!(<ErrCode as ObjectTrait<Native>>::into_inner(&obj), ErrCode(MEMORY_ALLOC_FAIL));
    assert_eq!(<Option<INT> as ObjectTrait<Native>>::into_inner(&obj), None);
    assert_eq!(<Option<()> as ObjectTrait<Native>>::into_inner(&obj), None);
    let fine: Obj = ErrCode(FINE).new();
    assert_eq!(<ErrCode as ObjectTrait<Native>>::into_inner(&fine), ErrCode(FINE));
}

#[test]
fn other_objects_carry_no_error_code() {
    let obj = integer_obj(5);
    assert!(!obj.is_errcode());
    assert_eq!(<ErrCode as ObjectTrait<Native>>::into_inner(&obj), ErrCode(NONE_OBJECT));
    let nil: Obj = Some(()).new();
    assert!(!nil.is_errcode());
    assert_eq!(<ErrCode as ObjectTrait<Native>>::into_inner(&nil), ErrCode(NONE_OBJECT));
    assert!(!Obj::default().is_errcode());
    assert_eq!(<ErrCode as ObjectTrait<Native>>::into_inner(&Obj::default()), ErrCode(NONE_OBJECT));
}

#[test]
fn payload_presence() {
    assert!(DataType::<Native>::Integer(Some(1)).is_some());
    assert!(!DataType::<Native>::Integer(Some(1)).is_none());
    assert!(DataType::<Native>::Integer(None).is_none());
    assert!(DataType::<Native>::Bool(None).is_none());
    assert!(DataType::<Native>::Bool(Some(false)).is_some());
    assert!(DataType::<Native>::Number(Some(FLT { bits: 0 })).is_some());
    assert!(DataType::<Native>::UserData(None).is_none());
    assert!(DataType::<Native>::Function(Some(Native(three))).is_some());
    assert!(DataType::<Native>::Function(None).is_none());
    assert!(DataType::<Native>::Nil(Some(())).is_none());
    assert!(!DataType::<Native>::Nil(Some(())).is_some());
    assert!(DataType::<Native>::Nil(None).is_none());
}
