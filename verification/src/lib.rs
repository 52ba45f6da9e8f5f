//! Decision logic of an archive-extraction front end, verified.
//!
//! Given an archive's file name this crate resolves the extraction tool,
//! derives the canonical output directory name, decides whether a staging
//! directory may be used, translates subprocess termination into an exit
//! code, and plans the collision-safe promotion of a single wrapping
//! directory produced by an extractor. The filesystem and subprocess work
//! itself is left to the caller; every function here is a total decision on
//! plain values, with a contract that pins its result down.
pub mod container;
pub mod flatten;
pub mod format;
pub mod staging;
pub mod status;
pub mod target;
pub mod text;
