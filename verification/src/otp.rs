//! The counter-based credential and its provisioning URI.

use crate::text::push_symbol;
use vstd::prelude::*;
use vstd::string::*;

verus! {

/// Issuer and label of every credential this library makes.
pub const PROVIDER: &'static str = "Duo";

/// The counter a credential starts from unless the caller overrides it.
pub const DEFAULT_COUNTER: u32 = 1;

/// The ten decimal digits in order.
pub const DIGITS: &'static str = "0123456789";

/// `n` in decimal, without sign or leading zeros.
pub open spec fn decimal(n: nat) -> Seq<char>
    decreases n,
{
    if n < 10 {
        seq![DIGITS@[n as int]]
    } else {
        decimal(n / 10).push(DIGITS@[(n % 10) as int])
    }
}

/// The provisioning URI of a counter-based credential.
pub open spec fn hotp_uri(
    label: Seq<char>,
    secret: Seq<char>,
    issuer: Seq<char>,
    counter: nat,
) -> Seq<char> {
    "otpauth://hotp/"@ + label + "?secret="@ + secret + "&issuer="@ + issuer + "&counter="@
        + decimal(counter)
}

/// Everything of a provider URI but the counter's digits.
pub open spec fn provider_uri_head(secret: Seq<char>) -> Seq<char> {
    "otpauth://hotp/Duo?secret="@ + secret + "&issuer=Duo&counter="@
}

/// The URI of a credential whose label and issuer are the provider's.
pub open spec fn provider_uri(secret: Seq<char>, counter: nat) -> Seq<char> {
    provider_uri_head(secret) + decimal(counter)
}

/// With the provider as label and issuer, the general URI is the provider URI.
pub proof fn lemma_provider_uri(secret: Seq<char>, counter: nat)
    ensures
        hotp_uri(PROVIDER@, secret, PROVIDER@, counter) == provider_uri(secret, counter),
{
    reveal_strlit("Duo");
    reveal_strlit("otpauth://hotp/");
    reveal_strlit("?secret=");
    reveal_strlit("&issuer=");
    reveal_strlit("&counter=");
    reveal_strlit("otpauth://hotp/Duo?secret=");
    reveal_strlit("&issuer=Duo&counter=");
    assert("otpauth://hotp/"@ + "Duo"@ + "?secret="@ =~= "otpauth://hotp/Duo?secret="@);
    assert("&issuer="@ + "Duo"@ + "&counter="@ =~= "&issuer=Duo&counter="@);
    assert(hotp_uri(PROVIDER@, secret, PROVIDER@, counter) =~= provider_uri(secret, counter));
}

/// Two provider URIs for one secret differ in nothing but the counter's
/// digits, which end the URI.
pub proof fn lemma_counter_is_last_segment(secret: Seq<char>, first: nat, second: nat)
    ensures
        provider_uri(secret, first).take(provider_uri_head(secret).len() as int)
            == provider_uri_head(secret),
        provider_uri(secret, second).take(provider_uri_head(secret).len() as int)
            == provider_uri_head(secret),
        provider_uri(secret, first).skip(provider_uri_head(secret).len() as int) == decimal(first),
        provider_uri(secret, second).skip(provider_uri_head(secret).len() as int) == decimal(
            second,
        ),
{
    let head = provider_uri_head(secret);
    assert((head + decimal(first)).take(head.len() as int) =~= head);
    assert((head + decimal(second)).take(head.len() as int) =~= head);
    assert((head + decimal(first)).skip(head.len() as int) =~= decimal(first));
    assert((head + decimal(second)).skip(head.len() as int) =~= decimal(second));
}

/// A one-time-password credential, as an authenticator imports it.
pub struct OtpCredential {
    pub secret_base32: String,
    pub issuer: String,
    pub label: String,
    pub counter: u32,
}

/// Appends `n` in decimal.
pub fn push_decimal(out: &mut String, n: u32)
    ensures
        final(out)@ == old(out)@ + decimal(n as nat),
    decreases n,
{
    proof {
        reveal_strlit("0123456789");
    }
    if n >= 10 {
        push_decimal(out, n / 10);
    }
    let digit: usize = (n % 10) as usize;
    push_symbol(out, DIGITS, digit);
    assert(final(out)@ =~= old(out)@ + decimal(n as nat));
}

impl OtpCredential {
    /// The provider's credential for a base32 secret and a starting counter.
    pub fn new(secret_base32: String, counter: u32) -> (credential: OtpCredential)
        ensures
            credential.secret_base32@ == secret_base32@,
            credential.issuer@ == PROVIDER@,
            credential.label@ == PROVIDER@,
            credential.counter == counter,
    {
        OtpCredential {
            secret_base32,
            issuer: String::from_str(PROVIDER),
            label: String::from_str(PROVIDER),
            counter,
        }
    }

    /// The credential as an `otpauth://` URI.
    pub fn uri(&self) -> (uri: String)
        ensures
            uri@ == hotp_uri(
                self.label@,
                self.secret_base32@,
                self.issuer@,
                self.counter as nat,
            ),
            self.label@ == PROVIDER@ && self.issuer@ == PROVIDER@ ==> uri@ == provider_uri(
                self.secret_base32@,
                self.counter as nat,
            ),
    {
        let mut uri: String = String::from_str("otpauth://hotp/");
        uri.append(self.label.as_str());
        uri.append("?secret=");
        uri.append(self.secret_base32.as_str());
        uri.append("&issuer=");
        uri.append(self.issuer.as_str());
        uri.append("&counter=");
        push_decimal(&mut uri, self.counter);
        proof {
            lemma_provider_uri(self.secret_base32@, self.counter as nat);
        }
        uri
    }
}

} // verus!
