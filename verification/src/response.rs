//! Reading the shared secret out of the provider's answer.

use crate::error::ActivationError;
use vstd::prelude::*;

verus! {

/// The member of the answer that holds the payload.
pub const RESPONSE_MEMBER: &'static str = "response";

/// The member of the payload that holds the shared secret.
pub const SECRET_MEMBER: &'static str = "hotp_secret";

#[verifier::external_type_specification]
#[verifier::external_body]
pub struct ExJsonError(serde_json::Error);

/// What `serde_json` finds in `document` at member `inner` of member `outer`:
/// nothing where `document` is no JSON text; otherwise the string that stands
/// there, if one does.
pub uninterp spec fn json_text_at(
    document: Seq<char>,
    outer: Seq<char>,
    inner: Seq<char>,
) -> Option<Option<Seq<char>>>;

/// `serde_json::from_str` to a `Value`, the `Value`'s indexing by member name,
/// twice, and `Value::as_str`. Indexing gives null where there is no such
/// member, or no object to hold it, and `as_str` gives nothing for whatever is
/// no string. The outcome is a function of the three texts, and that function
/// is what `json_text_at` names; no more is claimed of it.
#[verifier::external_body]
fn json_lookup(document: &str, outer: &str, inner: &str) -> (found: Result<
    Option<String>,
    serde_json::Error,
>)
    ensures
        match found {
            Ok(Some(text)) => json_text_at(document@, outer@, inner@) == Some(Some(text@)),
            Ok(None) => json_text_at(document@, outer@, inner@) == Some(None::<Seq<char>>),
            Err(_) => json_text_at(document@, outer@, inner@) is None,
        },
{
    let parsed: serde_json::Value = serde_json::from_str(document)?;
    Ok(parsed[outer][inner].as_str().map(str::to_owned))
}

/// What is read of the provider's answer: the shared secret, as it came.
pub struct ActivationResponse {
    pub hotp_secret: String,
}

/// The secret that an answer's body holds: the string at
/// `response.hotp_secret`, where the body is JSON and a string stands there.
pub open spec fn response_secret(body: Seq<char>) -> Option<Seq<char>> {
    match json_text_at(body, RESPONSE_MEMBER@, SECRET_MEMBER@) {
        Some(Some(secret)) => Some(secret),
        _ => None,
    }
}

/// The response that a lookup of the secret amounts to: with no string found
/// there is no response, and no secret is made up in its place.
pub fn response_from_lookup(found: Option<String>) -> (response: Result<
    ActivationResponse,
    ActivationError,
>)
    ensures
        match response {
            Ok(read) => found is Some && found->0@ == read.hotp_secret@,
            Err(error) => error == ActivationError::UnexpectedResponseFormat && found is None,
        },
{
    match found {
        Some(hotp_secret) => Ok(ActivationResponse { hotp_secret }),
        None => Err(ActivationError::UnexpectedResponseFormat),
    }
}

/// Reads the provider's answer.
pub fn parse_response(body: &str) -> (response: Result<ActivationResponse, ActivationError>)
    ensures
        match response {
            Ok(read) => response_secret(body@) == Some(read.hotp_secret@),
            Err(error) => error == ActivationError::UnexpectedResponseFormat && response_secret(
                body@,
            ) is None,
        },
{
    match json_lookup(body, RESPONSE_MEMBER, SECRET_MEMBER) {
        Ok(found) => response_from_lookup(found),
        Err(_) => Err(ActivationError::UnexpectedResponseFormat),
    }
}

} // verus!
