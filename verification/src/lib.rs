//! The runtime core of a small register-based virtual machine: tagged
//! values, the operand stack, the frame stack, the interpreter state that
//! owns both, and the protocol by which a native function is called.

pub mod info;
pub mod method;
pub mod obj;
pub mod vm;
