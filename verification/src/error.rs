use vstd::prelude::*;

verus! {

/// What can go wrong while one chainhook is evaluated or dispatched.
///
/// A failure concerns a single chainhook: the others of the same pass are
/// evaluated and dispatched as if the failing one were not there.
#[derive(Clone, Copy, Debug, PartialEq, Eq, Structural)]
pub enum ChainhookError {
    /// The address of a predicate is no base58 text, or decodes to fewer
    /// than 21 bytes.
    InvalidAddressEncoding,
    /// Kept for predicate kinds without an implementation. The witness
    /// address kinds currently never match instead of failing, so no function
    /// of this crate returns this variant.
    UnsupportedPredicateVariant,
    /// The method of an HTTP action is no HTTP method.
    MalformedActionConfiguration,
    /// The payload could not be written as JSON.
    SerializationFailure,
}

impl ChainhookError {
    /// A short description of the error.
    pub fn message(&self) -> (text: String)
        ensures
            text@ == match *self {
                ChainhookError::InvalidAddressEncoding => "invalid address encoding"@,
                ChainhookError::UnsupportedPredicateVariant => "unsupported predicate variant"@,
                ChainhookError::MalformedActionConfiguration => "malformed action configuration"@,
                ChainhookError::SerializationFailure => "serialization failure"@,
            },
    {
        match self {
            ChainhookError::InvalidAddressEncoding => "invalid address encoding".to_owned(),
            ChainhookError::UnsupportedPredicateVariant => "unsupported predicate variant".to_owned(),
            ChainhookError::MalformedActionConfiguration => "malformed action configuration".to_owned(),
            ChainhookError::SerializationFailure => "serialization failure".to_owned(),
        }
    }
}

} // verus!
