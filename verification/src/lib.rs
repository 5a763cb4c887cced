//! Runtime core for firmware that runs without an operating system: the
//! outcome of a program, the order of startup, the plans for the terminal
//! paths, and the rules of an executor that drives one computation.

pub mod entry;
pub mod fault;
pub mod termination;
pub mod waker;
