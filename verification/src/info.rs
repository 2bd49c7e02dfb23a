//! Result codes and the limits the machine runs under.

pub mod lua;
