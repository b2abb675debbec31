//! The two halves of an enrollment, on either side of the HTTP exchange: what
//! to send for a scanned payload, and what to make of the answer.

use crate::authority::{decode_authority, hostname_of};
use crate::error::ActivationError;
use crate::otp::{provider_uri, OtpCredential, DEFAULT_COUNTER, PROVIDER};
use crate::payload::{first_symbol, parse_payload, payload_fields, scanned_text};
use crate::request::{
    activation_url, android_attributes, attribute_pairs, ActivationRequest, USER_AGENT,
};
use crate::response::{parse_response, response_secret};
use crate::secret::{encode_secret, encoded_secret};
use vstd::prelude::*;

verus! {

/// How the HTTP exchange ended, as whoever performed it reports it.
pub enum Exchange {
    /// The provider answered; this is the body of its answer.
    Answered(String),
    /// The transport failed: no address, no connection, no TLS, no answer in
    /// time.
    Failed,
}

/// The address that the payload in `text` is redeemed at, or the error that
/// `text` stops at.
pub open spec fn request_address(text: Seq<char>) -> Result<Seq<char>, ActivationError> {
    match payload_fields(text) {
        None => Err(ActivationError::MalformedPayload),
        Some(fields) => match hostname_of(fields.authority) {
            None => Err(ActivationError::MalformedAuthority),
            Some(hostname) => Ok(activation_url(hostname, fields.code)),
        },
    }
}

/// The address that a barcode scan leads to, or the error that it stops at.
pub open spec fn scanned_address(symbols: Seq<Option<String>>) -> Result<
    Seq<char>,
    ActivationError,
> {
    match scanned_text(symbols) {
        None => Err(ActivationError::MalformedPayload),
        Some(text) => request_address(text),
    }
}

/// The base32 secret that an exchange yields, or the error that it stops at:
/// a failed transport is a network error, and an answer without a string at
/// `response.hotp_secret` is an unexpected response.
pub open spec fn exchanged_secret(exchange: Exchange) -> Result<Seq<char>, ActivationError> {
    match exchange {
        Exchange::Failed => Err(ActivationError::NetworkError),
        Exchange::Answered(body) => match response_secret(body@) {
            None => Err(ActivationError::UnexpectedResponseFormat),
            Some(secret) => Ok(encoded_secret(secret)),
        },
    }
}

/// The URI that an exchange and a counter come to, or the error that the
/// exchange stops at.
pub open spec fn exported_uri(exchange: Exchange, counter: nat) -> Result<
    Seq<char>,
    ActivationError,
> {
    match exchanged_secret(exchange) {
        Ok(secret) => Ok(provider_uri(secret, counter)),
        Err(error) => Err(error),
    }
}

/// The counter to start from: the caller's, or the default where the caller
/// names none.
pub fn starting_counter(requested: Option<u32>) -> (counter: u32)
    ensures
        counter == match requested {
            Some(chosen) => chosen,
            None => DEFAULT_COUNTER,
        },
{
    match requested {
        Some(chosen) => chosen,
        None => DEFAULT_COUNTER,
    }
}

/// The request that redeems the payload in `text`.
pub fn prepare_activation(text: &str) -> (request: Result<ActivationRequest, ActivationError>)
    ensures
        match request {
            Ok(prepared) => {
                &&& request_address(text@) == Ok::<Seq<char>, ActivationError>(prepared.url@)
                &&& prepared.profile.user_agent@ == USER_AGENT@
                &&& attribute_pairs(prepared.profile.attributes@) == android_attributes()
            },
            Err(error) => request_address(text@) == Err::<Seq<char>, ActivationError>(error),
        },
{
    let payload = match parse_payload(text) {
        Ok(parsed) => parsed,
        Err(error) => {
            return Err(error);
        },
    };
    match decode_authority(payload.authority()) {
        Ok(hostname) => Ok(ActivationRequest::new(hostname.as_str(), payload.code())),
        Err(error) => Err(error),
    }
}

/// The request that a barcode scan leads to.
pub fn activation_from_scan(symbols: &[Option<String>]) -> (request: Result<
    ActivationRequest,
    ActivationError,
>)
    ensures
        match request {
            Ok(prepared) => {
                &&& scanned_address(symbols@) == Ok::<Seq<char>, ActivationError>(prepared.url@)
                &&& prepared.profile.user_agent@ == USER_AGENT@
                &&& attribute_pairs(prepared.profile.attributes@) == android_attributes()
            },
            Err(error) => scanned_address(symbols@) == Err::<Seq<char>, ActivationError>(error),
        },
{
    match first_symbol(symbols) {
        Ok(text) => prepare_activation(text),
        Err(error) => Err(error),
    }
}

/// The credential that the exchange yields, counting from `counter`.
pub fn credential_from_exchange(exchange: &Exchange, counter: u32) -> (credential: Result<
    OtpCredential,
    ActivationError,
>)
    ensures
        match credential {
            Ok(made) => {
                &&& exchanged_secret(*exchange) == Ok::<Seq<char>, ActivationError>(
                    made.secret_base32@,
                )
                &&& made.issuer@ == PROVIDER@
                &&& made.label@ == PROVIDER@
                &&& made.counter == counter
            },
            Err(error) => exchanged_secret(*exchange) == Err::<Seq<char>, ActivationError>(error),
        },
{
    match exchange {
        Exchange::Failed => Err(ActivationError::NetworkError),
        Exchange::Answered(body) => match parse_response(body.as_str()) {
            Ok(response) => Ok(
                OtpCredential::new(encode_secret(response.hotp_secret.as_str()), counter),
            ),
            Err(error) => Err(error),
        },
    }
}

/// The OTP URI that the exchange yields, counting from `counter`.
pub fn export_uri(exchange: &Exchange, counter: u32) -> (uri: Result<String, ActivationError>)
    ensures
        match uri {
            Ok(text) => exported_uri(*exchange, counter as nat) == Ok::<
                Seq<char>,
                ActivationError,
            >(text@),
            Err(error) => exported_uri(*exchange, counter as nat) == Err::<
                Seq<char>,
                ActivationError,
            >(error),
        },
{
    match credential_from_exchange(exchange, counter) {
        Ok(credential) => Ok(credential.uri()),
        Err(error) => Err(error),
    }
}

} // verus!
