//! Why a procedure failed.

use vstd::prelude::*;

verus! {

/// The ways in which running a procedure fails. Each is final for that run:
/// nothing was stored and no output was produced. None carries any byte of a
/// secret, of a message or of a signature.
#[derive(Clone, Copy, Debug, PartialEq, Eq, Structural)]
pub enum ProcedureError {
    /// The guarded bytes are not a signing key.
    MalformedKey,
    /// The signature handed in for verification is not a signature. A
    /// well-formed signature that does not match is no error.
    MalformedSignature,
    /// No fresh signing key could be produced.
    GenerationFailure,
    /// The signature scheme produced no signature for this key and message.
    SigningFailure,
    /// The store resolved no secret for a procedure that reads one.
    SecretResolutionFailure,
}

impl ProcedureError {
    /// The text of `message`.
    pub open spec fn spec_message(self) -> Seq<char> {
        match self {
            ProcedureError::MalformedKey => "Es256k: Failed to get signing key from guard"@,
            ProcedureError::MalformedSignature => "Es256k: Failed to get signature from vector"@,
            ProcedureError::GenerationFailure => "Es256k: Failed to generate signing key"@,
            ProcedureError::SigningFailure => "Es256k: Failed to sign message"@,
            ProcedureError::SecretResolutionFailure => "Es256k: Failed to resolve secret from location"@,
        }
    }

    /// A description of the failure: the algorithm, then what could not be done.
    pub fn message(&self) -> (r: String)
        ensures
            r@ == self.spec_message(),
    {
        match self {
            ProcedureError::MalformedKey => "Es256k: Failed to get signing key from guard".to_owned(),
            ProcedureError::MalformedSignature => "Es256k: Failed to get signature from vector".to_owned(),
            ProcedureError::GenerationFailure => "Es256k: Failed to generate signing key".to_owned(),
            ProcedureError::SigningFailure => "Es256k: Failed to sign message".to_owned(),
            ProcedureError::SecretResolutionFailure => "Es256k: Failed to resolve secret from location".to_owned(),
        }
    }
}

} // verus!
