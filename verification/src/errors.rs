//! Error taxonomy: binding, deserialization and proving failures all abort
//! the call that detected them; nothing here is retried or downgraded.
use vstd::prelude::*;

verus! {

/// A record could not be bound to a circuit's input slots.
#[derive(Clone, Copy, PartialEq, Eq, Structural, Debug)]
pub enum BindingError {
    /// A byte field was not an even-length string of hex digits.
    HexDecode,
    /// A big-integer field was not a non-empty string of decimal digits.
    DecimalDecode,
    /// A numeric value reached the field modulus, or cannot fit its slots.
    ValueTooLarge,
    /// An array's length differs from the slot count the schema gives it.
    LengthMismatch,
    /// A slot index lies outside the circuit's input slots.
    SlotOutOfRange,
    /// A slot would be assigned twice.
    SlotConflict,
}

/// Proof bytes that do not match the expected descriptor's schema.
#[derive(Clone, Copy, PartialEq, Eq, Structural, Debug)]
pub enum DeserializationError {
    /// Too few bytes for the length prefix.
    TruncatedHeader,
    /// The declared public-input count differs from the descriptor's schema.
    WrongInputCount,
    /// Fewer bytes than the declared public-input count needs.
    TruncatedInputs,
    /// A public input at or above the field modulus.
    ValueOutOfField,
}

/// The constraint system rejected an assembled witness; deterministic, so
/// never retried: the remedy is to regenerate the inputs.
#[derive(Clone, Copy, PartialEq, Eq, Structural, Debug)]
pub struct ProvingError;

/// What can abort one combine call.
#[derive(Clone, Copy, PartialEq, Eq, Structural, Debug)]
pub enum CombineError {
    Deserialization(DeserializationError),
    Binding(BindingError),
    Proving(ProvingError),
}

/// What can abort one pairing-pipeline stage.
#[derive(Clone, Copy, PartialEq, Eq, Structural, Debug)]
pub enum PipelineError {
    /// A stage was handed a predecessor artifact with the wrong stage tag.
    WrongStage,
    Binding(BindingError),
    Proving(ProvingError),
}

} // verus!
