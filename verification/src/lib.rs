//! Supervision of one auxiliary server process: the decisions of its
//! lifecycle, stated and proved apart from the operating system.

pub mod error;
pub mod launch;
pub mod laws;
pub mod supervisor;
pub mod termination;
