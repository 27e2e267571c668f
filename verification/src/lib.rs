//! Verified core of a DxLib bridge: byte colours, the rewinding of
//! counter-clockwise faces into clockwise triangle lists, and the registry
//! that owns the handles of native resources.
//!
//! The library never calls the native backend. Where the backend has to act,
//! a function returns what must be asked of it, and the caller performs it.

pub mod dx;
pub mod ext;
