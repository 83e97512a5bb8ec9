//! Error kinds and the classification of relay failures.

use vstd::prelude::*;

verus! {

/// How a failed relay call is to be treated by the caller.
#[derive(Clone, Copy, Debug, PartialEq, Eq, Structural)]
pub enum FailureClass {
    /// Server or network error; the caller may retry at a higher layer.
    Transient,
    /// The relay has forgotten this instance or channel.
    IdentityInvalid,
    /// The request was rejected and must not be retried.
    Permanent,
}

/// The errors an operation can end with.
#[derive(Clone, Copy, Debug, PartialEq, Eq, Structural)]
pub enum PushError {
    /// The backing record store is unavailable or corrupt.
    StorageError,
    /// The relay was unreachable or rejected the call. `status` is the HTTP
    /// status, absent where the transport itself failed.
    CommunicationError { status: Option<u16>, class: FailureClass },
    /// Key generation or decryption failed.
    CryptoError,
    /// The operation named a channel id without a record.
    RecordNotFoundError,
    /// No connection identity is held and registering one failed.
    RegistrationError,
}

/// The class of a relay failure with the given HTTP status.
pub open spec fn spec_classify(status: Option<u16>) -> FailureClass {
    match status {
        Option::Some(s) => if s == 401 || s == 410 {
            FailureClass::IdentityInvalid
        } else if 400 <= s && s < 500 {
            FailureClass::Permanent
        } else {
            FailureClass::Transient
        },
        Option::None => FailureClass::Transient,
    }
}

/// The communication error that stands for a relay failure.
pub open spec fn spec_communication_error(status: Option<u16>) -> PushError {
    PushError::CommunicationError { status, class: spec_classify(status) }
}

/// Classifies a relay failure: 401 and 410 mean that the identity or the
/// channel is unknown to the relay, any other 4xx is permanent, and
/// everything else, a transport failure included, is transient.
pub fn classify(status: Option<u16>) -> (class: FailureClass)
    ensures
        class == spec_classify(status),
{
    match status {
        Option::Some(s) => {
            if s == 401 || s == 410 {
                FailureClass::IdentityInvalid
            } else if 400 <= s && s < 500 {
                FailureClass::Permanent
            } else {
                FailureClass::Transient
            }
        },
        Option::None => FailureClass::Transient,
    }
}

/// Builds the communication error for a relay failure.
pub fn communication_error(status: Option<u16>) -> (e: PushError)
    ensures
        e == spec_communication_error(status),
{
    PushError::CommunicationError { status, class: classify(status) }
}

} // verus!
