//! Verified decision layer of a safe binding to the libass subtitle renderer.
//!
//! Every value that crosses into or out of the native engine passes through
//! the functions of this crate first: lengths and timestamps are narrowed to
//! the native 32-bit integers with a typed failure, paths become
//! NUL-terminated UTF-8 byte strings, native status codes become typed
//! results, and native enumeration codes become enums of this crate.
//! The native handles themselves, and the calls that need them, live in the
//! surrounding application layer.

pub mod library;
pub mod render;
pub mod track;
