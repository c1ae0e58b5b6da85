use vstd::prelude::*;

verus! {

/// Why a field or a record could not be decoded.
#[derive(Debug, Clone, Copy, PartialEq, Eq, Structural)]
pub enum DecodeError {
    /// Fewer bits remained than the field needs.
    InsufficientInput,
    /// The field holds a value that the encoding reserves or leaves
    /// unassigned; the raw value is carried along.
    Reserved(u64),
    /// A six-bit group of a call sign lies outside the call-sign alphabet.
    InvalidCallSignCharacter(u8),
}

} // verus!
