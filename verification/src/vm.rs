//! The call engine and the global context.

pub mod machine;
