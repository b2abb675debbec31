//! The ways an enrollment ends without a credential.

use vstd::prelude::*;

verus! {

/// Why an enrollment could not be completed. Every variant is final: the
/// activation code is single-use, so nothing is retried.
#[derive(Clone, Copy, Debug, PartialEq, Eq, Structural)]
pub enum ActivationError {
    /// The barcode text does not split into a code and an authority.
    MalformedPayload,
    /// The authority is not base64 of a UTF-8 hostname.
    MalformedAuthority,
    /// The HTTP exchange failed in transport.
    NetworkError,
    /// The provider's answer holds no string at `response.hotp_secret`.
    UnexpectedResponseFormat,
}

/// The name of the stage at which `error` arises.
pub open spec fn stage_name(error: ActivationError) -> Seq<char> {
    match error {
        ActivationError::MalformedPayload => "parse"@,
        ActivationError::MalformedAuthority => "decode"@,
        ActivationError::NetworkError => "network"@,
        ActivationError::UnexpectedResponseFormat => "response-shape"@,
    }
}

/// What went wrong, in a sentence.
pub open spec fn diagnosis(error: ActivationError) -> Seq<char> {
    match error {
        ActivationError::MalformedPayload => "the barcode text is not a code and an authority joined by one '-'"@,
        ActivationError::MalformedAuthority => "the authority is not base64 of a UTF-8 hostname"@,
        ActivationError::NetworkError => "the activation request did not reach the provider"@,
        ActivationError::UnexpectedResponseFormat => "the provider's answer holds no string at response.hotp_secret"@,
    }
}

impl ActivationError {
    /// The stage that failed: `parse`, `decode`, `network` or `response-shape`.
    pub fn stage(&self) -> (name: &'static str)
        ensures
            name@ == stage_name(*self),
    {
        match self {
            ActivationError::MalformedPayload => "parse",
            ActivationError::MalformedAuthority => "decode",
            ActivationError::NetworkError => "network",
            ActivationError::UnexpectedResponseFormat => "response-shape",
        }
    }

    /// A diagnostic for the user.
    pub fn message(&self) -> (text: &'static str)
        ensures
            text@ == diagnosis(*self),
    {
        match self {
            ActivationError::MalformedPayload => "the barcode text is not a code and an authority joined by one '-'",
            ActivationError::MalformedAuthority => "the authority is not base64 of a UTF-8 hostname",
            ActivationError::NetworkError => "the activation request did not reach the provider",
            ActivationError::UnexpectedResponseFormat => "the provider's answer holds no string at response.hotp_secret",
        }
    }
}

} // verus!
