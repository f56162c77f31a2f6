//! Locating and overwriting byte sequences in the address space of a target
//! process: wildcard byte patterns, the position logic of a seekable
//! cross-process byte channel, memory-region and module descriptors, and the
//! engine that resolves a patch address and decides each transfer.

/// Wildcard byte patterns and scanning.
pub mod pattern;
/// Failures of operations on a target process.
pub mod error;
/// Named capability sets: page protection, allocation state, page type.
pub mod flags;
/// Memory regions and the seekable byte channel over a target's memory.
pub mod memory;
/// Descriptors of the modules loaded by a target process.
pub mod module;
/// Resolving a patch address and writing the patch.
pub mod patch;
