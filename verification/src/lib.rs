//! Type-indexed constants: a type declares one immutable, process-wide value of
//! another type, and callers reach it through the key `(owner, target, tag)`
//! alone. The key is resolved where the program is built; nothing is looked up
//! while it runs.

pub mod accessor;
pub mod carrier;
pub mod laws;

pub use accessor::AssocStatic;
pub use carrier::MakeSync;
