//! From barcode text to the two fields of an enrollment payload.

use crate::error::ActivationError;
use vstd::prelude::*;
use vstd::std_specs::iter::IteratorSpec;
use vstd::string::*;

verus! {

/// The character that parts the activation code from the authority.
pub const DELIMITER: char = '-';

/// The two fields of an enrollment payload, as text.
pub ghost struct PayloadFields {
    pub code: Seq<char>,
    pub authority: Seq<char>,
}

/// Both fields hold something, and neither holds a delimiter.
pub open spec fn well_formed_fields(fields: PayloadFields) -> bool {
    &&& fields.code.len() > 0
    &&& fields.authority.len() > 0
    &&& !fields.code.contains(DELIMITER)
    &&& !fields.authority.contains(DELIMITER)
}

/// The code, one delimiter, the authority.
pub open spec fn joined(fields: PayloadFields) -> Seq<char> {
    fields.code + seq![DELIMITER] + fields.authority
}

/// How many delimiters `text` holds.
pub open spec fn delimiter_count(text: Seq<char>) -> nat
    decreases text.len(),
{
    if text.len() == 0 {
        0
    } else {
        delimiter_count(text.drop_last()) + if text.last() == DELIMITER {
            1nat
        } else {
            0nat
        }
    }
}

/// What the parser makes of `text`: with exactly one delimiter, and something
/// on both sides of it, the two sides; otherwise nothing.
pub open spec fn payload_fields(text: Seq<char>) -> Option<PayloadFields> {
    let at = text.index_of(DELIMITER);
    if delimiter_count(text) == 1 && 0 < at && at + 1 < text.len() {
        Some(PayloadFields { code: text.take(at), authority: text.skip(at + 1) })
    } else {
        None
    }
}

/// The delimiters of a text are those of its parts.
pub proof fn lemma_count_concat(left: Seq<char>, right: Seq<char>)
    ensures
        delimiter_count(left + right) == delimiter_count(left) + delimiter_count(right),
    decreases right.len(),
{
    if right.len() == 0 {
        assert(left + right =~= left);
    } else {
        assert((left + right).drop_last() =~= left + right.drop_last());
        lemma_count_concat(left, right.drop_last());
    }
}

/// A text counts no delimiter exactly when it holds none.
pub proof fn lemma_count_zero(text: Seq<char>)
    ensures
        delimiter_count(text) == 0 <==> !text.contains(DELIMITER),
    decreases text.len(),
{
    if text.len() > 0 {
        lemma_count_zero(text.drop_last());
        if text.contains(DELIMITER) && text.last() != DELIMITER {
            let at = choose|i: int| 0 <= i < text.len() && text[i] == DELIMITER;
            assert(text.drop_last()[at] == DELIMITER);
        }
        if text.drop_last().contains(DELIMITER) {
            let at = choose|i: int|
                0 <= i < text.drop_last().len() && text.drop_last()[i] == DELIMITER;
            assert(text[at] == DELIMITER);
        }
    }
}

/// Around a delimiter, the count is one more than that of the two sides.
pub proof fn lemma_count_around(text: Seq<char>, at: int)
    requires
        0 <= at < text.len(),
        text[at] == DELIMITER,
    ensures
        delimiter_count(text) == delimiter_count(text.take(at)) + 1 + delimiter_count(
            text.skip(at + 1),
        ),
{
    let middle = seq![DELIMITER];
    assert(text =~= text.take(at) + middle + text.skip(at + 1));
    lemma_count_concat(text.take(at) + middle, text.skip(at + 1));
    lemma_count_concat(text.take(at), middle);
    assert(delimiter_count(middle) == 1) by {
        reveal_with_fuel(delimiter_count, 2);
    }
}

/// Where a text has one delimiter only, that is the place `index_of` names.
pub proof fn lemma_single_delimiter(text: Seq<char>, at: int)
    requires
        0 <= at < text.len(),
        text[at] == DELIMITER,
        delimiter_count(text) == 1,
    ensures
        text.index_of(DELIMITER) == at,
        !text.take(at).contains(DELIMITER),
        !text.skip(at + 1).contains(DELIMITER),
{
    lemma_count_around(text, at);
    lemma_count_zero(text.take(at));
    lemma_count_zero(text.skip(at + 1));
    let other = text.index_of(DELIMITER);
    assert(0 <= other < text.len() && text[other] == DELIMITER);
    if other < at {
        assert(text.take(at)[other] == DELIMITER);
    } else if other > at {
        assert(text.skip(at + 1)[other - at - 1] == DELIMITER);
    }
}

/// Every well-formed pair of fields, joined by the delimiter, parses back to
/// that pair.
pub proof fn lemma_joined_fields_parse(fields: PayloadFields)
    requires
        well_formed_fields(fields),
    ensures
        payload_fields(joined(fields)) == Some(fields),
{
    let text = joined(fields);
    let at = fields.code.len() as int;
    assert(text[at] == DELIMITER);
    assert(text.take(at) =~= fields.code);
    assert(text.skip(at + 1) =~= fields.authority);
    lemma_count_zero(fields.code);
    lemma_count_zero(fields.authority);
    lemma_count_around(text, at);
    lemma_single_delimiter(text, at);
}

/// Whatever parses is its own two fields joined by the delimiter, and the
/// fields are well formed: the parser accepts nothing else.
pub proof fn lemma_parsed_fields_join(text: Seq<char>)
    requires
        payload_fields(text) is Some,
    ensures
        joined(payload_fields(text)->0) == text,
        well_formed_fields(payload_fields(text)->0),
{
    lemma_count_zero(text);
    let at = text.index_of(DELIMITER);
    lemma_single_delimiter(text, at);
    assert(text =~= text.take(at) + seq![DELIMITER] + text.skip(at + 1));
}

/// A text with no delimiter, or with two or more, does not parse.
pub proof fn lemma_miscounted_rejected(text: Seq<char>)
    requires
        delimiter_count(text) != 1,
    ensures
        payload_fields(text) is None,
{
}

/// An activation code and the authority to redeem it at, as the enrollment
/// barcode carries them: the authority still in base64.
pub struct EnrollmentPayload {
    code: String,
    authority: String,
}

impl View for EnrollmentPayload {
    type V = PayloadFields;

    closed spec fn view(&self) -> PayloadFields {
        PayloadFields { code: self.code@, authority: self.authority@ }
    }
}

impl EnrollmentPayload {
    #[verifier::type_invariant]
    spec fn well_formed(&self) -> bool {
        well_formed_fields(self@)
    }

    /// The provider-issued activation code.
    pub fn code(&self) -> (code: &str)
        ensures
            code@ == self@.code,
            well_formed_fields(self@),
    {
        proof {
            use_type_invariant(self);
        }
        self.code.as_str()
    }

    /// The authority, as encoded in the barcode.
    pub fn authority(&self) -> (authority: &str)
        ensures
            authority@ == self@.authority,
            well_formed_fields(self@),
    {
        proof {
            use_type_invariant(self);
        }
        self.authority.as_str()
    }
}

/// The text a barcode scan stands for: that of its first symbol, where the
/// scan found one and could read it.
pub open spec fn scanned_text(symbols: Seq<Option<String>>) -> Option<Seq<char>> {
    if symbols.len() > 0 {
        match symbols[0] {
            Some(found) => Some(found@),
            None => None,
        }
    } else {
        None
    }
}

/// The text of the first symbol a barcode scan found. A scan that found
/// nothing, or could not read its first symbol, yields no payload; symbols
/// after the first are not looked at.
pub fn first_symbol(symbols: &[Option<String>]) -> (text: Result<&str, ActivationError>)
    ensures
        match text {
            Ok(first) => scanned_text(symbols@) == Some(first@),
            Err(error) => error == ActivationError::MalformedPayload && scanned_text(symbols@)
                is None,
        },
{
    if symbols.len() == 0 {
        return Err(ActivationError::MalformedPayload);
    }
    match &symbols[0] {
        Some(found) => Ok(found.as_str()),
        None => Err(ActivationError::MalformedPayload),
    }
}

/// Splits barcode text on the delimiter into activation code and encoded
/// authority.
pub fn parse_payload(text: &str) -> (payload: Result<EnrollmentPayload, ActivationError>)
    ensures
        match payload {
            Ok(parsed) => payload_fields(text@) == Some(parsed@),
            Err(error) => error == ActivationError::MalformedPayload && payload_fields(text@)
                is None,
        },
        delimiter_count(text@) != 1 ==> payload is Err,
{
    let length: usize = text.unicode_len();
    let mut found: usize = 0;
    let mut first: usize = 0;
    let mut position: usize = 0;
    for c in it: text.chars()
        invariant
            it.seq() == text@,
            length == text@.len(),
            position == it.index(),
            found <= 2,
            found < 2 ==> found == delimiter_count(text@.take(position as int)),
            found == 2 ==> delimiter_count(text@.take(position as int)) >= 2,
            found > 0 ==> first < position && text@[first as int] == DELIMITER,
    {
        proof {
            assert(text@.take(position + 1).drop_last() =~= text@.take(position as int));
        }
        if c == DELIMITER {
            if found == 0 {
                first = position;
            }
            if found < 2 {
                found = found + 1;
            }
        }
        position = position + 1;
    }
    proof {
        assert(text@.take(length as int) =~= text@);
    }
    if found != 1 || first == 0 || first + 1 >= length {
        proof {
            if found == 1 {
                lemma_single_delimiter(text@, first as int);
            }
        }
        return Err(ActivationError::MalformedPayload);
    }
    proof {
        lemma_single_delimiter(text@, first as int);
        lemma_parsed_fields_join(text@);
    }
    let code: String = text.substring_char(0, first).to_owned();
    let authority: String = text.substring_char(first + 1, length).to_owned();
    Ok(EnrollmentPayload { code, authority })
}

} // verus!
