//! Core of a TZX tape emulation engine.
//!
//! A TZX stream is a structured binary recording of a ZX Spectrum cassette
//! tape: a ten-byte header followed by a concatenation of variable-length
//! blocks.  The engine parses the block stream and, clock cycle by clock
//! cycle, drives a one-bit "ear input" signal that an emulated Z80 machine
//! samples through [`Tzx::current_bit`].
//!
//! The byte source behind the tape is abstracted by the [`TapeAsset`] trait;
//! [`InMemoryAsset`] is the library's own verified implementation.  Every
//! state transition of the engine is specified by a pure model over
//! [`TzxView`], and the executable methods are proved to follow that model
//! exactly.

use vstd::prelude::*;

pub mod asset;
pub mod engine;
pub mod laws;
pub mod model;
pub mod timings;

pub use asset::{InMemoryAsset, SeekFrom, TapeAsset};
pub use engine::Tzx;
pub use model::{TzxBlockId, TzxView};
pub use timings::TapeTimings;

verus! {

/// Structural failures the engine can surface.
#[derive(Debug, Clone, Copy, PartialEq, Eq, Structural)]
pub enum TapeLoadError {
    /// The ten-byte file header could not be read.
    InvalidTapFile,
    /// A payload byte was expected but the current block was exhausted.
    InvalidTzxFile,
    /// The byte source failed in the middle of a block.
    IoError,
}

} // verus!
