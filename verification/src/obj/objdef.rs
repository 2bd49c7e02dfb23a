use crate::info::lua::{ErrCode, NONE_OBJECT};
use crate::obj::statedef::NativeFunction;
use vstd::prelude::*;

verus! {

/// The machine's integer.
pub type INT = i32;

/// The machine's float, carried as the bit pattern of a 32-bit IEEE-754
/// number. The machine stores and returns floats and never computes with
/// them, so the bits are all it needs.
#[derive(Debug, Clone, Copy, PartialEq, Eq, Structural)]
pub struct FLT {
    pub bits: u32,
}

/// Light user data: the address of something the host owns. The machine
/// hands it back as it got it and never looks behind it. Address zero
/// stands for "nothing".
#[derive(Debug, Clone, Copy, PartialEq, Eq, Structural)]
pub struct UserData {
    pub addr: usize,
}

/// Width of the basic type field of a discriminant.
pub const BASIC_TYPE_BIT: usize = 4;

pub const T_NUMBER: u32 = 1;
pub const T_LIGHT_USER_DATA: u32 = 2;
pub const T_BOOLEAN: u32 = 3;
pub const T_STRING: u32 = 4;
pub const T_NIL: u32 = 5;
pub const T_TABLE: u32 = 6;
pub const T_FUNCTION: u32 = 7;
pub const T_THREAD: u32 = 8;
pub const T_NONE: u32 = 9;

pub const T_NUM_INT: u32 = 0x01;
pub const T_NUM_FLT: u32 = 0x11;

/// A closure of the machine's own code.
pub const T_LCL: u32 = 0x07;
/// A native function.
pub const T_LRF: u32 = 0x17;
/// A native closure.
pub const T_CCL: u32 = 0x27;

pub const T_LNG_STR: u32 = 0x04;
pub const T_SHR_STR: u32 = 0x14;

pub type TObj<N> = LuaTObject<N>;

/// The discriminant of a value: a basic type in the low bits and a subtype
/// above them.
#[derive(Debug, Clone, Copy, PartialEq, Eq, Structural)]
pub struct ObjectType(pub u32);

impl Default for ObjectType {
    fn default() -> (t: ObjectType)
        ensures
            t == ObjectType(0),
    {
        ObjectType(0)
    }
}

impl ObjectType {
    /// Whether all bits of the function family are set in the discriminant.
    pub open spec fn function_shaped(self) -> bool {
        self.0 & T_FUNCTION == T_FUNCTION
    }

    /// Whether the discriminant belongs to the function family, whichever
    /// kind of function it is.
    #[inline(always)]
    pub fn is_function(&self) -> (b: bool)
        ensures
            b == self.function_shaped(),
    {
        self.0 & T_FUNCTION == T_FUNCTION
    }

    #[inline(always)]
    pub fn into_inner(&self) -> (t: u32)
        ensures
            t == self.0,
    {
        self.0
    }
}

/// The payload of a value. Each variant can also stand empty: the slot is
/// then of that type and holds nothing.
#[derive(Debug, Clone, Copy)]
pub enum DataType<N> {
    UserData(Option<UserData>),
    Function(Option<N>),
    Bool(Option<bool>),
    Integer(Option<INT>),
    Number(Option<FLT>),
    Nil(Option<()>),
}

impl<N> DataType<N> {
    /// Whether the variant carries a payload. Nil never does.
    pub open spec fn present(self) -> bool {
        match self {
            DataType::UserData(val) => val.is_some(),
            DataType::Bool(val) => val.is_some(),
            DataType::Integer(val) => val.is_some(),
            DataType::Number(val) => val.is_some(),
            DataType::Function(val) => val.is_some(),
            DataType::Nil(_) => false,
        }
    }

    pub fn is_none(&self) -> (b: bool)
        ensures
            b == !self.present(),
    {
        match self {
            DataType::UserData(val) => val.is_none(),
            DataType::Bool(val) => val.is_none(),
            DataType::Integer(val) => val.is_none(),
            DataType::Number(val) => val.is_none(),
            DataType::Function(val) => val.is_none(),
            DataType::Nil(_) => true,
        }
    }

    pub fn is_some(&self) -> (b: bool)
        ensures
            b == self.present(),
    {
        match self {
            DataType::UserData(val) => val.is_some(),
            DataType::Bool(val) => val.is_some(),
            DataType::Integer(val) => val.is_some(),
            DataType::Number(val) => val.is_some(),
            DataType::Function(val) => val.is_some(),
            DataType::Nil(_) => false,
        }
    }
}

impl<N> Default for DataType<N> {
    fn default() -> (val: DataType<N>)
        ensures
            val == DataType::<N>::Nil(Some(())),
    {
        DataType::Nil(Some(()))
    }
}

/// A dynamically typed value: a payload and the discriminant that says how
/// to read it.
#[derive(Debug, Clone, Copy)]
pub struct LuaTObject<N> {
    pub val: DataType<N>,
    pub val_idx: ObjectType,
}

impl<N> LuaTObject<N> {
    /// The value of a slot that nothing was written to: discriminant zero
    /// over a nil payload. No typed read accepts it.
    pub open spec fn blank() -> LuaTObject<N> {
        LuaTObject { val: DataType::Nil(Some(())), val_idx: ObjectType(0) }
    }

    /// Whether the value carries a result code: its payload is the empty
    /// nil, and its discriminant is the code.
    pub open spec fn carries_code(self) -> bool {
        self.val == DataType::<N>::Nil(None)
    }

    /// Whether the value carries a result code.
    pub fn is_errcode(&self) -> (b: bool)
        ensures
            b == self.carries_code(),
    {
        match self.val {
            DataType::Nil(None) => true,
            _ => false,
        }
    }

    /// Whether the discriminant names the variant the payload is in.
    pub open spec fn agrees(self) -> bool {
        match self.val {
            DataType::UserData(_) => self.val_idx.0 == T_LIGHT_USER_DATA,
            DataType::Function(_) => self.val_idx.0 == T_LRF,
            DataType::Bool(_) => self.val_idx.0 == T_BOOLEAN,
            DataType::Integer(_) => self.val_idx.0 == T_NUM_INT,
            DataType::Number(_) => self.val_idx.0 == T_NUM_FLT,
            DataType::Nil(Some(_)) => self.val_idx.0 == T_NIL || self.val_idx.0 == 0,
            DataType::Nil(None) => true,
        }
    }
}

impl<N> Default for LuaTObject<N> {
    fn default() -> (obj: LuaTObject<N>)
        ensures
            obj == LuaTObject::<N>::blank(),
    {
        LuaTObject { val: DataType::Nil(Some(())), val_idx: ObjectType(0) }
    }
}

/// The conversions between a host value and the tagged value that carries
/// it. `tagged` and `stored` are their meaning in contracts.
pub trait ObjectTrait<N>: Sized {
    /// The tagged value that carries `self`.
    spec fn tagged(self) -> LuaTObject<N>;

    /// What a read of this type finds in `obj`.
    spec fn stored(obj: LuaTObject<N>) -> Self;

    /// Builds the tagged value that carries `self`.
    fn new(self) -> (obj: LuaTObject<N>)
        ensures
            obj == self.tagged(),
    ;

    /// Overwrites `obj`, payload and discriminant together.
    fn set_value(self, obj: &mut LuaTObject<N>)
        ensures
            *final(obj) == self.tagged(),
    ;

    /// Reads `obj` as this type.
    fn into_inner(obj: &LuaTObject<N>) -> (r: Self)
        ensures
            r == Self::stored(*obj),
    ;
}

/// A result code travels as its own discriminant over an empty nil payload.
/// A slot with any other payload carries no code, and reads as
/// `NONE_OBJECT`.
impl<N> ObjectTrait<N> for ErrCode {
    open spec fn tagged(self) -> LuaTObject<N> {
        LuaTObject { val: DataType::Nil(None), val_idx: ObjectType(self.0) }
    }

    open spec fn stored(obj: LuaTObject<N>) -> ErrCode {
        if obj.carries_code() {
            ErrCode(obj.val_idx.0)
        } else {
            ErrCode(NONE_OBJECT)
        }
    }

    fn new(self) -> (obj: LuaTObject<N>) {
        LuaTObject { val: DataType::Nil(None), val_idx: ObjectType(self.0) }
    }

    fn set_value(self, obj: &mut LuaTObject<N>) {
        obj.val = DataType::Nil(None);
        obj.val_idx = ObjectType(self.0);
    }

    fn into_inner(obj: &LuaTObject<N>) -> (r: ErrCode) {
        match obj.val {
            DataType::Nil(None) => ErrCode(obj.val_idx.0),
            _ => ErrCode(NONE_OBJECT),
        }
    }
}

impl<N> ObjectTrait<N> for Option<UserData> {
    open spec fn tagged(self) -> LuaTObject<N> {
        LuaTObject { val: DataType::UserData(self), val_idx: ObjectType(T_LIGHT_USER_DATA) }
    }

    open spec fn stored(obj: LuaTObject<N>) -> Option<UserData> {
        match obj.val {
            DataType::UserData(val) if obj.val_idx.0 == T_LIGHT_USER_DATA => val,
            _ => None,
        }
    }

    fn new(self) -> (obj: LuaTObject<N>) {
        LuaTObject { val_idx: ObjectType(T_LIGHT_USER_DATA), val: DataType::UserData(self) }
    }

    fn set_value(self, obj: &mut LuaTObject<N>) {
        obj.val = DataType::UserData(self);
        obj.val_idx = ObjectType(T_LIGHT_USER_DATA);
    }

    fn into_inner(obj: &LuaTObject<N>) -> (r: Option<UserData>) {
        if obj.val_idx.0 != T_LIGHT_USER_DATA {
            return None;
        }
        match obj.val {
            DataType::UserData(val) => val,
            _ => None,
        }
    }
}

impl<N: NativeFunction> ObjectTrait<N> for Option<N> {
    open spec fn tagged(self) -> LuaTObject<N> {
        LuaTObject { val: DataType::Function(self), val_idx: ObjectType(T_LRF) }
    }

    open spec fn stored(obj: LuaTObject<N>) -> Option<N> {
        match obj.val {
            DataType::Function(val) if obj.val_idx.0 == T_LRF => val,
            _ => None,
        }
    }

    fn new(self) -> (obj: LuaTObject<N>) {
        LuaTObject { val_idx: ObjectType(T_LRF), val: DataType::Function(self) }
    }

    fn set_value(self, obj: &mut LuaTObject<N>) {
        obj.val = DataType::Function(self);
        obj.val_idx = ObjectType(T_LRF);
    }

    fn into_inner(obj: &LuaTObject<N>) -> (r: Option<N>) {
        if obj.val_idx.0 != T_LRF {
            return None;
        }
        match obj.val {
            DataType::Function(val) => val,
            _ => None,
        }
    }
}

impl<N> ObjectTrait<N> for Option<bool> {
    open spec fn tagged(self) -> LuaTObject<N> {
        LuaTObject { val: DataType::Bool(self), val_idx: ObjectType(T_BOOLEAN) }
    }

    open spec fn stored(obj: LuaTObject<N>) -> Option<bool> {
        match obj.val {
            DataType::Bool(val) if obj.val_idx.0 == T_BOOLEAN => val,
            _ => None,
        }
    }

    fn new(self) -> (obj: LuaTObject<N>) {
        LuaTObject { val_idx: ObjectType(T_BOOLEAN), val: DataType::Bool(self) }
    }

    fn set_value(self, obj: &mut LuaTObject<N>) {
        obj.val = DataType::Bool(self);
        obj.val_idx = ObjectType(T_BOOLEAN);
    }

    fn into_inner(obj: &LuaTObject<N>) -> (r: Option<bool>) {
        if obj.val_idx.0 != T_BOOLEAN {
            return None;
        }
        match obj.val {
            DataType::Bool(val) => val,
            _ => None,
        }
    }
}

impl<N> ObjectTrait<N> for Option<INT> {
    open spec fn tagged(self) -> LuaTObject<N> {
        LuaTObject { val: DataType::Integer(self), val_idx: ObjectType(T_NUM_INT) }
    }

    open spec fn stored(obj: LuaTObject<N>) -> Option<INT> {
        match obj.val {
            DataType::Integer(val) if obj.val_idx.0 == T_NUM_INT => val,
            _ => None,
        }
    }

    fn new(self) -> (obj: LuaTObject<N>) {
        LuaTObject { val_idx: ObjectType(T_NUM_INT), val: DataType::Integer(self) }
    }

    fn set_value(self, obj: &mut LuaTObject<N>) {
        obj.val = DataType::Integer(self);
        obj.val_idx = ObjectType(T_NUM_INT);
    }

    fn into_inner(obj: &LuaTObject<N>) -> (r: Option<INT>) {
        if obj.val_idx.0 != T_NUM_INT {
            return None;
        }
        match obj.val {
            DataType::Integer(val) => val,
            _ => None,
        }
    }
}

impl<N> ObjectTrait<N> for Option<FLT> {
    open spec fn tagged(self) -> LuaTObject<N> {
        LuaTObject { val: DataType::Number(self), val_idx: ObjectType(T_NUM_FLT) }
    }

    open spec fn stored(obj: LuaTObject<N>) -> Option<FLT> {
        match obj.val {
            DataType::Number(val) if obj.val_idx.0 == T_NUM_FLT => val,
            _ => None,
        }
    }

    fn new(self) -> (obj: LuaTObject<N>) {
        LuaTObject { val_idx: ObjectType(T_NUM_FLT), val: DataType::Number(self) }
    }

    fn set_value(self, obj: &mut LuaTObject<N>) {
        obj.val = DataType::Number(self);
        obj.val_idx = ObjectType(T_NUM_FLT);
    }

    fn into_inner(obj: &LuaTObject<N>) -> (r: Option<FLT>) {
        if obj.val_idx.0 != T_NUM_FLT {
            return None;
        }
        match obj.val {
            DataType::Number(val) => val,
            _ => None,
        }
    }
}

impl<N> ObjectTrait<N> for Option<()> {
    open spec fn tagged(self) -> LuaTObject<N> {
        LuaTObject { val: DataType::Nil(self), val_idx: ObjectType(T_NIL) }
    }

    open spec fn stored(obj: LuaTObject<N>) -> Option<()> {
        match obj.val {
            DataType::Nil(val) if obj.val_idx.0 == T_NIL => val,
            _ => None,
        }
    }

    fn new(self) -> (obj: LuaTObject<N>) {
        LuaTObject { val_idx: ObjectType(T_NIL), val: DataType::Nil(self) }
    }

    fn set_value(self, obj: &mut LuaTObject<N>) {
        obj.val = DataType::Nil(self);
        obj.val_idx = ObjectType(T_NIL);
    }

    fn into_inner(obj: &LuaTObject<N>) -> (r: Option<()>) {
        if obj.val_idx.0 != T_NIL {
            return None;
        }
        match obj.val {
            DataType::Nil(val) => val,
            _ => None,
        }
    }
}

/// Every value that a conversion builds has a discriminant that agrees with
/// its payload.
pub proof fn lemma_tagged_agrees<N: NativeFunction>(
    code: ErrCode,
    ud: Option<UserData>,
    rfunc: Option<N>,
    boolean: Option<bool>,
    integer: Option<INT>,
    number: Option<FLT>,
    nil: Option<()>,
)
    ensures
        <ErrCode as ObjectTrait<N>>::tagged(code).agrees(),
        <Option<UserData> as ObjectTrait<N>>::tagged(ud).agrees(),
        <Option<N> as ObjectTrait<N>>::tagged(rfunc).agrees(),
        <Option<bool> as ObjectTrait<N>>::tagged(boolean).agrees(),
        <Option<INT> as ObjectTrait<N>>::tagged(integer).agrees(),
        <Option<FLT> as ObjectTrait<N>>::tagged(number).agrees(),
        <Option<()> as ObjectTrait<N>>::tagged(nil).agrees(),
        LuaTObject::<N>::blank().agrees(),
{
}

/// What a conversion builds, the conversion of the same type reads back.
pub proof fn lemma_stored_reads_tagged<N: NativeFunction>(
    code: ErrCode,
    ud: Option<UserData>,
    rfunc: Option<N>,
    boolean: Option<bool>,
    integer: Option<INT>,
    number: Option<FLT>,
    nil: Option<()>,
)
    ensures
        <ErrCode as ObjectTrait<N>>::tagged(code).carries_code(),
        <ErrCode as ObjectTrait<N>>::stored(<ErrCode as ObjectTrait<N>>::tagged(code)) == code,
        <Option<UserData> as ObjectTrait<N>>::stored(
            <Option<UserData> as ObjectTrait<N>>::tagged(ud),
        ) == ud,
        <Option<N> as ObjectTrait<N>>::stored(<Option<N> as ObjectTrait<N>>::tagged(rfunc))
            == rfunc,
        <Option<bool> as ObjectTrait<N>>::stored(<Option<bool> as ObjectTrait<N>>::tagged(boolean))
            == boolean,
        <Option<INT> as ObjectTrait<N>>::stored(<Option<INT> as ObjectTrait<N>>::tagged(integer))
            == integer,
        <Option<FLT> as ObjectTrait<N>>::stored(<Option<FLT> as ObjectTrait<N>>::tagged(number))
            == number,
        <Option<()> as ObjectTrait<N>>::stored(<Option<()> as ObjectTrait<N>>::tagged(nil)) == nil,
{
}

/// A value whose discriminant agrees with its payload is read by at most
/// one of the typed conversions: the others find nothing in it.
pub proof fn lemma_one_type_reads<N: NativeFunction>(obj: LuaTObject<N>)
    requires
        obj.agrees(),
    ensures
        ({
            let ud: int = if <Option<UserData> as ObjectTrait<N>>::stored(obj).is_some() {
                1
            } else {
                0
            };
            let rfunc: int = if <Option<N> as ObjectTrait<N>>::stored(obj).is_some() {
                1
            } else {
                0
            };
            let boolean: int = if <Option<bool> as ObjectTrait<N>>::stored(obj).is_some() {
                1
            } else {
                0
            };
            let integer: int = if <Option<INT> as ObjectTrait<N>>::stored(obj).is_some() {
                1
            } else {
                0
            };
            let number: int = if <Option<FLT> as ObjectTrait<N>>::stored(obj).is_some() {
                1
            } else {
                0
            };
            let nil: int = if <Option<()> as ObjectTrait<N>>::stored(obj).is_some() {
                1
            } else {
                0
            };
            ud + rfunc + boolean + integer + number + nil <= 1
        }),
{
}

/// A native function's discriminant belongs to the function family, and so
/// do those of the other kinds of function.
pub proof fn lemma_function_family()
    ensures
        ObjectType(T_LRF).function_shaped(),
        ObjectType(T_LCL).function_shaped(),
        ObjectType(T_CCL).function_shaped(),
        !ObjectType(T_NUM_INT).function_shaped(),
        !ObjectType(T_NUM_FLT).function_shaped(),
        !ObjectType(T_BOOLEAN).function_shaped(),
        !ObjectType(T_NIL).function_shaped(),
        !ObjectType(T_LIGHT_USER_DATA).function_shaped(),
        !ObjectType(0).function_shaped(),
{
    assert(0x17u32 & 7u32 == 7u32) by (bit_vector);
    assert(0x07u32 & 7u32 == 7u32) by (bit_vector);
    assert(0x27u32 & 7u32 == 7u32) by (bit_vector);
    assert(0x01u32 & 7u32 != 7u32) by (bit_vector);
    assert(0x11u32 & 7u32 != 7u32) by (bit_vector);
    assert(3u32 & 7u32 != 7u32) by (bit_vector);
    assert(5u32 & 7u32 != 7u32) by (bit_vector);
    assert(2u32 & 7u32 != 7u32) by (bit_vector);
    assert(0u32 & 7u32 != 7u32) by (bit_vector);
}

} // verus!
