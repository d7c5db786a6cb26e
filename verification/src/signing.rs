//! Signed envelopes, as far as the negotiation depends on them: a payload
//! together with what the check of its signature came to.
//!
//! Signatures are made and checked by the signing subsystem of the node. An
//! envelope here is what that subsystem hands over once it has decoded a
//! message and checked its signature against the identity it carries.

use crate::transport::types::TransportError;
use vstd::prelude::*;

verus! {

/// What checking the signature of a message came to.
#[derive(Debug, Clone, Copy, PartialEq, Eq, Structural)]
pub enum Verification {
    /// The signature is the signer's.
    Valid,
    /// The signature is not the signer's.
    Invalid,
    /// The check itself could not be made.
    Failed,
}

/// A payload that arrived signed. The payload is out of reach until the
/// envelope is opened, and it opens only where the signature holds.
#[derive(Debug, Clone, PartialEq, Eq)]
pub struct SignedMessage<T> {
    data: T,
    verification: Verification,
}

impl<T> SignedMessage<T> {
    /// The payload inside.
    pub closed spec fn data(&self) -> T {
        self.data
    }

    /// What the check of the signature came to.
    pub closed spec fn verification(&self) -> Verification {
        self.verification
    }

    /// The envelope of `data`, whose signature was checked with the outcome
    /// `verification`.
    pub fn new(data: T, verification: Verification) -> (message: Self)
        ensures
            message.data() == data,
            message.verification() == verification,
    {
        Self { data, verification }
    }

    /// Whether the signature holds.
    pub fn verify(&self) -> (holds: bool)
        ensures
            holds == (self.verification() == Verification::Valid),
    {
        match self.verification {
            Verification::Valid => true,
            _ => false,
        }
    }

    /// The payload, where the signature holds.
    pub fn open(self) -> (r: Result<T, TransportError>)
        ensures
            r == opened(self.data(), self.verification()),
    {
        match self.verification {
            Verification::Valid => Ok(self.data),
            _ => Err(TransportError::VerificationFailed),
        }
    }
}

/// What opening an envelope gives: the payload where the signature holds,
/// and nothing of it where it does not.
pub open spec fn opened<T>(data: T, verification: Verification) -> Result<T, TransportError> {
    if verification == Verification::Valid {
        Ok(data)
    } else {
        Err(TransportError::VerificationFailed)
    }
}

/// An envelope whose signature holds gives back the payload that was put
/// into it, unchanged; any other envelope gives back nothing.
pub proof fn law_envelope_opens_iff_signature_holds<T>(data: T, verification: Verification)
    ensures
        verification == Verification::Valid ==> opened(data, verification) == Ok::<
            T,
            TransportError,
        >(data),
        verification != Verification::Valid ==> opened(data, verification) is Err,
{
}

} // verus!
