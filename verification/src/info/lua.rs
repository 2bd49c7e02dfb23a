use vstd::prelude::*;

verus! {

/// A result code: the low four bits name a category, the bits above them a
/// subcode of that category. Zero means success in every category.
#[derive(Debug, Clone, Copy, PartialEq, Eq, Structural)]
pub struct ErrCode(pub u32);

pub const FINE: u32 = 0;
pub const ERR_INVOKE: u32 = 1;
pub const ERR_MEMORY: u32 = 2;
pub const ERR_CONCURENCY: u32 = 3;
pub const ERR_COMPILE: u32 = 4;
pub const ERR_OPTIMIZE: u32 = 5;

/// Width of the category field.
pub const BASIC_ERROR_BITS: usize = 4;

// invocation
pub const INVOKE_RET_MISMATCH: u32 = 0x11;
pub const INVOKE_STACK_OVERFLOW: u32 = 0x21;
pub const INVOKE_FRAME_OVERFLOW: u32 = 0x31;

// memory access
pub const MEMORY_ALLOC_FAIL: u32 = 0x12;
pub const MEMORY_REALLOC_FAIL: u32 = 0x22;
pub const MEMORY_UNREACHABLE: u32 = 0x32;
pub const MEMORY_MODIFY_FAIL: u32 = 0x62;
pub const MEMORY_TYPE_MISMATCH: u32 = 0x72;
pub const MEMORY_DROP_FAIL: u32 = 0x82;

// Older status words. Each group below has a bit range of its own; they are
// kept for callers that still test them and are never mixed with the
// category codes above.
pub const NULL_POINTER: u32 = 1;
pub const NONE_OBJECT: u32 = 2;
pub const OVERFLOW: u32 = 3;

pub const STATE_OK: u32 = 0x00;
pub const STATE_ERR_ERR: u32 = 0x10;
pub const LUA_ERR_MEM: u32 = 0x20;
pub const STATE_ERR_RUN: u32 = 0x30;

pub const CALL_OK: u32 = 0x000;
pub const TOO_MANY_CALL: u32 = 0x100;
pub const STACK_OVERFLOW: u32 = 0x200;
pub const CALL_MISMATCHED: u32 = 0x300;

/// Stack slots every call is granted above the top at its entry.
pub const LUA_MIN_STACK: usize = 20;
/// Length of a fresh operand stack.
pub const LUA_STACK_SIZE: usize = 40;
/// Slots at the end of the operand stack kept free as slack.
pub const LUA_EXTRA_STACK: usize = 5;
/// Ceiling on the length of the operand stack.
pub const LUA_MAX_STACK: usize = 15000;
pub const LUA_ERROR_STACK: usize = 200;

/// Declared result count that asks for every result.
pub const LUA_MUL_RET: isize = -1;
/// Ceiling on the call depth.
pub const LUA_MAX_CALLS: usize = 200;
/// Length of a fresh frame stack, and the length under which it is never cut.
pub const LUA_CI_LEN: usize = 20;
/// Slots added on top of each request when the operand stack grows.
pub const LUA_EXTRASPACE: usize = 8;

/// The code with the given category and subcode.
pub open spec fn packed(category: u32, subcode: u32) -> u32 {
    (subcode << 4) | category
}

/// The category field of a code.
pub open spec fn category_of(code: u32) -> u32 {
    code & 0xf
}

/// The subcode field of a code.
pub open spec fn subcode_of(code: u32) -> u32 {
    code >> 4
}

impl ErrCode {
    /// The category this code belongs to.
    pub fn category(&self) -> (c: u32)
        ensures
            c == category_of(self.0),
            c < 16,
    {
        let code: u32 = self.0;
        assert(code & 0xf < 16) by (bit_vector);
        code & 0xf
    }

    /// The subcode of this code inside its category.
    pub fn subcode(&self) -> (s: u32)
        ensures
            s == subcode_of(self.0),
            packed(self.category_spec(), s) == self.0,
    {
        let code: u32 = self.0;
        assert(((code >> 4) << 4) | (code & 0xf) == code) by (bit_vector);
        code >> 4
    }

    pub open spec fn category_spec(&self) -> u32 {
        category_of(self.0)
    }

    /// Whether this is the success code.
    pub fn is_fine(&self) -> (b: bool)
        ensures
            b == (self.0 == FINE),
    {
        self.0 == FINE
    }
}

impl Default for ErrCode {
    fn default() -> (code: ErrCode)
        ensures
            code == ErrCode(FINE),
    {
        ErrCode(FINE)
    }
}

/// Every named category code is its category joined with its subcode, and a
/// subcode never spills into the category field.
pub proof fn lemma_codes_are_packed()
    ensures
        INVOKE_RET_MISMATCH == packed(ERR_INVOKE, 1),
        INVOKE_STACK_OVERFLOW == packed(ERR_INVOKE, 2),
        INVOKE_FRAME_OVERFLOW == packed(ERR_INVOKE, 3),
        MEMORY_ALLOC_FAIL == packed(ERR_MEMORY, 1),
        MEMORY_REALLOC_FAIL == packed(ERR_MEMORY, 2),
        MEMORY_UNREACHABLE == packed(ERR_MEMORY, 3),
        MEMORY_MODIFY_FAIL == packed(ERR_MEMORY, 6),
        MEMORY_TYPE_MISMATCH == packed(ERR_MEMORY, 7),
        MEMORY_DROP_FAIL == packed(ERR_MEMORY, 8),
        forall|category: u32, subcode: u32|
            category < 16 && subcode < 0x1000_0000 ==> {
                &&& category_of(#[trigger] packed(category, subcode)) == category
                &&& subcode_of(packed(category, subcode)) == subcode
            },
        forall|category: u32, subcode: u32|
            0 < category < 16 && subcode < 0x1000_0000 ==> #[trigger] packed(category, subcode)
                != FINE,
{
    assert(0x11u32 == (1u32 << 4) | 1u32) by (bit_vector);
    assert(0x21u32 == (2u32 << 4) | 1u32) by (bit_vector);
    assert(0x31u32 == (3u32 << 4) | 1u32) by (bit_vector);
    assert(0x12u32 == (1u32 << 4) | 2u32) by (bit_vector);
    assert(0x22u32 == (2u32 << 4) | 2u32) by (bit_vector);
    assert(0x32u32 == (3u32 << 4) | 2u32) by (bit_vector);
    assert(0x62u32 == (6u32 << 4) | 2u32) by (bit_vector);
    assert(0x72u32 == (7u32 << 4) | 2u32) by (bit_vector);
    assert(0x82u32 == (8u32 << 4) | 2u32) by (bit_vector);
    assert forall|category: u32, subcode: u32|
        category < 16 && subcode < 0x1000_0000 implies {
            &&& category_of(#[trigger] packed(category, subcode)) == category
            &&& subcode_of(packed(category, subcode)) == subcode
        } by {
        assert(category < 16 && subcode < 0x1000_0000 ==> ((subcode << 4) | category) & 0xf
            == category && ((subcode << 4) | category) >> 4 == subcode) by (bit_vector);
    }
    assert forall|category: u32, subcode: u32|
        0 < category < 16 && subcode < 0x1000_0000 implies #[trigger] packed(category, subcode)
            != FINE by {
        assert(0 < category < 16 ==> ((subcode << 4) | category) != 0) by (bit_vector);
    }
}

} // verus!
