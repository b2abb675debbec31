//! Decoding the authority field into the provider's hostname.

use crate::error::ActivationError;
use vstd::prelude::*;
use vstd::utf8::{decode_utf8, encode_utf8, encode_utf8_decode_utf8, encode_utf8_valid_utf8, valid_utf8};

verus! {

#[verifier::external_type_specification]
#[verifier::external_body]
pub struct ExDecodeError(base64::DecodeError);

#[verifier::external_type_specification]
#[verifier::external_body]
pub struct ExFromUtf8Error(std::string::FromUtf8Error);

/// The bytes that `base64::decode` reads out of a text, or nothing where it
/// refuses the text.
pub uninterp spec fn base64_decoded(text: Seq<char>) -> Option<Seq<u8>>;

/// `base64::decode`, the decoder for the standard alphabet. It is a function
/// of the text alone, and that function is what `base64_decoded` names; no
/// more is claimed of it. It does not panic: its length arithmetic overflows
/// only past lengths that no `str` has.
#[verifier::external_body]
fn base64_decode(text: &str) -> (decoded: Result<Vec<u8>, base64::DecodeError>)
    ensures
        match decoded {
            Ok(bytes) => base64_decoded(text@) == Some(bytes@),
            Err(_) => base64_decoded(text@) is None,
        },
{
    base64::decode(text)
}

/// `String::from_utf8` succeeds exactly on well-formed UTF-8, and the string
/// it returns is those bytes read as UTF-8.
pub assume_specification[ String::from_utf8 ](bytes: Vec<u8>) -> (text: Result<
    String,
    std::string::FromUtf8Error,
>)
    ensures
        text is Ok <==> valid_utf8(bytes@),
        text matches Ok(read) ==> read@ == decode_utf8(bytes@),
;

/// The hostname that decoded bytes spell, where they are UTF-8.
pub open spec fn hostname_of_bytes(bytes: Seq<u8>) -> Option<Seq<char>> {
    if valid_utf8(bytes) {
        Some(decode_utf8(bytes))
    } else {
        None
    }
}

/// The hostname that an encoded authority stands for: its base64 decoding,
/// read as UTF-8, where both steps succeed.
pub open spec fn hostname_of(encoded: Seq<char>) -> Option<Seq<char>> {
    match base64_decoded(encoded) {
        Some(bytes) => hostname_of_bytes(bytes),
        None => None,
    }
}

/// The UTF-8 bytes of any hostname read back as that hostname, exactly.
pub proof fn lemma_hostname_bytes_round_trip(hostname: Seq<char>)
    ensures
        hostname_of_bytes(encode_utf8(hostname)) == Some(hostname),
{
    encode_utf8_valid_utf8(hostname);
    encode_utf8_decode_utf8(hostname);
}

/// Whenever the base64 decoder gives back the UTF-8 bytes of a hostname, the
/// authority decodes to that hostname, exactly.
pub proof fn lemma_hostname_recovered(encoded: Seq<char>, hostname: Seq<char>)
    requires
        base64_decoded(encoded) == Some(encode_utf8(hostname)),
    ensures
        hostname_of(encoded) == Some(hostname),
{
    lemma_hostname_bytes_round_trip(hostname);
}

/// Reads decoded authority bytes as the UTF-8 text of a hostname.
pub fn hostname_from_bytes(bytes: Vec<u8>) -> (hostname: Result<String, ActivationError>)
    ensures
        match hostname {
            Ok(name) => hostname_of_bytes(bytes@) == Some(name@),
            Err(error) => error == ActivationError::MalformedAuthority && hostname_of_bytes(
                bytes@,
            ) is None,
        },
{
    match String::from_utf8(bytes) {
        Ok(name) => Ok(name),
        Err(_) => Err(ActivationError::MalformedAuthority),
    }
}

/// Decodes the authority field of a payload into the provider's hostname.
pub fn decode_authority(encoded: &str) -> (hostname: Result<String, ActivationError>)
    ensures
        match hostname {
            Ok(name) => hostname_of(encoded@) == Some(name@),
            Err(error) => error == ActivationError::MalformedAuthority && hostname_of(encoded@)
                is None,
        },
{
    match base64_decode(encoded) {
        Ok(bytes) => hostname_from_bytes(bytes),
        Err(_) => Err(ActivationError::MalformedAuthority),
    }
}

} // verus!
