//! A sequential file-grouping helper.
//!
//! One file is processed per invocation: it is either designated the head
//! of a naming group, or renamed so that its name derives from the current
//! head's stem. The head is remembered between invocations in a reserved
//! record file sitting in the same directory as the files being grouped.
//!
//! Paths and filenames are handled as raw bytes throughout; turning bytes
//! into operating-system path values, and all file reading, writing and
//! renaming, is left to the caller. Everything here is pure computation:
//! name splitting and derivation, head-record location and modelling, and
//! the dispatcher that decides what one invocation must do.

pub mod bytes;
pub mod dispatch;
pub mod errors;
pub mod headstate;
pub mod names;
pub mod paths;
