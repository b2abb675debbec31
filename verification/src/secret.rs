//! Re-encoding the provider's secret in base32, as OTP URIs carry it.

use crate::text::push_symbol;
use vstd::arithmetic::power2::{lemma2_to64, pow2};
use vstd::bits::{lemma_low_bits_mask_values, lemma_u32_low_bits_mask_is_mod, lemma_u32_shr_is_div};
use vstd::prelude::*;
use vstd::string::*;
use vstd::utf8::encode_utf8;

verus! {

/// The base32 alphabet of RFC 4648: the symbol for the value `v` stands at `v`.
pub const BASE32_ALPHABET: &'static str = "ABCDEFGHIJKLMNOPQRSTUVWXYZ234567";

/// The byte at `at`, and zero where `data` has ended.
pub open spec fn byte_or_zero(data: Seq<u8>, at: int) -> int {
    if 0 <= at < data.len() {
        data[at] as int
    } else {
        0
    }
}

/// The value of the five bits of `data` that start at bit `5 * index`, the
/// bits of each byte counted from the most significant one, and zero bits
/// following the last byte.
pub open spec fn quintet(data: Seq<u8>, index: int) -> int {
    let first = 5 * index;
    let two_bytes = 256 * byte_or_zero(data, first / 8) + byte_or_zero(data, first / 8 + 1);
    (two_bytes / (pow2((11 - first % 8) as nat) as int)) % 32
}

/// How many symbols encode `bytes` bytes: one for every five bits begun.
pub open spec fn base32_len(bytes: nat) -> nat {
    ((8 * bytes + 4) / 5) as nat
}

/// `data` in base32 without padding.
pub open spec fn base32(data: Seq<u8>) -> Seq<char> {
    Seq::new(base32_len(data.len()), |index: int| BASE32_ALPHABET@[quintet(data, index)])
}

/// A secret as an OTP URI carries it: the base32 text of its UTF-8 bytes.
pub open spec fn encoded_secret(secret: Seq<char>) -> Seq<char> {
    base32(encode_utf8(secret))
}

/// Every quintet is an index into the alphabet.
pub proof fn lemma_quintet_range(data: Seq<u8>, index: int)
    ensures
        0 <= quintet(data, index) < 32,
{
}

/// No base32 text holds the padding character, or any other character from
/// outside the alphabet.
pub proof fn lemma_base32_unpadded(data: Seq<u8>)
    ensures
        !base32(data).contains('='),
        forall|i: int| 0 <= i < base32(data).len() ==> BASE32_ALPHABET@.contains(#[trigger] base32(data)[i]),
{
    reveal_strlit("ABCDEFGHIJKLMNOPQRSTUVWXYZ234567");
    assert forall|i: int| 0 <= i < base32(data).len() implies BASE32_ALPHABET@.contains(
        #[trigger] base32(data)[i],
    ) && base32(data)[i] != '=' by {
        lemma_quintet_range(data, i);
        let v = quintet(data, i);
        assert(base32(data)[i] == BASE32_ALPHABET@[v]);
    }
}

/// The symbol value that `shift` leaves of a two-byte window.
fn window_value(high: u8, low: u8, shift: u32) -> (value: usize)
    requires
        4 <= shift <= 11,
    ensures
        value == ((256 * high + low) / (pow2(shift as nat) as int)) % 32,
        value < 32,
{
    let window: u32 = (high as u32) * 256 + (low as u32);
    let value: u32 = (window >> shift) & 31;
    proof {
        lemma_u32_shr_is_div(window, shift);
        lemma_u32_low_bits_mask_is_mod(window >> shift, 5);
        lemma_low_bits_mask_values();
        lemma2_to64();
    }
    value as usize
}

/// Encodes a secret's bytes in base32 without padding.
pub fn encode_secret(secret: &str) -> (encoded: String)
    ensures
        encoded@ == encoded_secret(secret@),
        !encoded@.contains('='),
{
    let data: &[u8] = secret.as_bytes();
    let length: usize = data.len();
    let symbols: u128 = (8 * (length as u128) + 4) / 5;
    let mut encoded: String = String::new();
    let mut index: u128 = 0;
    proof {
        reveal_strlit("ABCDEFGHIJKLMNOPQRSTUVWXYZ234567");
    }
    while index < symbols
        invariant
            data@ == secret.spec_bytes(),
            length == data@.len(),
            symbols == base32_len(data@.len()),
            index <= symbols,
            BASE32_ALPHABET@.len() == 32,
            BASE32_ALPHABET.is_ascii(),
            encoded@ == Seq::new(index as nat, |k: int| BASE32_ALPHABET@[quintet(data@, k)]),
        decreases symbols - index,
    {
        let first: u128 = 5 * index;
        let at: usize = (first / 8) as usize;
        let shift: u32 = 11 - (first % 8) as u32;
        let low: u8 = if at + 1 < length {
            data[at + 1]
        } else {
            0
        };
        let value: usize = window_value(data[at], low, shift);
        push_symbol(&mut encoded, BASE32_ALPHABET, value);
        index = index + 1;
        assert(encoded@ =~= Seq::new(index as nat, |k: int| BASE32_ALPHABET@[quintet(data@, k)]));
    }
    proof {
        lemma_base32_unpadded(data@);
    }
    encoded
}

} // verus!
