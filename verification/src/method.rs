//! Helpers for the growable arrays behind the two stacks.

pub mod mem;
