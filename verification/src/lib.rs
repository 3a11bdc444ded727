//! Traits for assembling a composite from a sequence of parts, and for
//! disassembling a composite into its parts.
//!
//! A composite type says how it is built by implementing [`AssembleFrom`];
//! its part type then has [`AssembleInto`]. A part type says how a composite
//! is taken apart by implementing [`DisassembleFrom`]; the composite then has
//! [`DisassembleInto`]. An assembly works on the front of a sequence that the
//! caller owns and may still be filling, so it tells "not enough parts yet"
//! from "these parts are wrong": see [`AssembleFailure`].

pub mod assemble;
pub mod disassemble;
pub mod failure;

pub use assemble::{AssembleFrom, AssembleInto};
pub use disassemble::{DisassembleFrom, DisassembleInto};
pub use failure::AssembleFailure;
