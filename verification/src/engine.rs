//! Obtaining the engine: which prebuilt archive or source tree is used, which of its symbols stay
//! visible, and how it is linked.

pub mod link;
pub mod prebuilt;
pub mod source;
pub mod symbols;
