//! HTTP headers, held in the header map of the `http` crate.

use http::header::{HeaderMap, HeaderName, HeaderValue, InvalidHeaderValue, MaxSizeReached};
use vstd::prelude::*;
use vstd::utf8::*;

verus! {

/// A map from header names to their values.
#[verifier::external_type_specification]
#[verifier::external_body]
#[verifier::reject_recursive_types(T)]
pub struct ExHeaderMap<T>(HeaderMap<T>);

/// The value of one header: a row of bytes.
#[verifier::external_type_specification]
#[verifier::external_body]
pub struct ExHeaderValue(HeaderValue);

/// The error of [`HeaderValue::from_bytes`].
#[verifier::external_type_specification]
#[verifier::external_body]
pub struct ExInvalidHeaderValue(InvalidHeaderValue);

/// The error of [`HeaderMap::try_insert`].
#[verifier::external_type_specification]
#[verifier::external_body]
pub struct ExMaxSizeReached(MaxSizeReached);

/// The bytes that a header value holds.
pub uninterp spec fn value_bytes(value: HeaderValue) -> Seq<u8>;

/// The values that a header map holds for each name, in their order. Names are in small letters.
pub uninterp spec fn header_values(headers: HeaderMap<HeaderValue>) -> Map<
    Seq<char>,
    Seq<Seq<u8>>,
>;

/// Whether a byte may stand in the value of a header: a tab, or anything from the space on but DEL.
pub open spec fn is_value_byte(byte: u8) -> bool {
    byte == 9 || (byte >= 32 && byte != 127)
}

/// Whether bytes can be the value of a header.
pub open spec fn is_header_value(bytes: Seq<u8>) -> bool {
    forall|i: int| 0 <= i < bytes.len() ==> is_value_byte(#[trigger] bytes[i])
}

/// Whether a text is the name of a header, made of small letters, digits and hyphens.
pub open spec fn is_header_name(name: Seq<char>) -> bool {
    &&& 0 < name.len() < 0x10000
    &&& forall|i: int|
        0 <= i < name.len() ==> {
            ||| 'a' <= #[trigger] name[i] && name[i] <= 'z'
            ||| '0' <= name[i] && name[i] <= '9'
            ||| name[i] == '-'
        }
}

/// A header map with at most this many names takes one more in any case.
pub const NAMES_WITH_ROOM: usize = 6553;

/// [`HeaderValue::from_bytes`]: a value that holds the bytes, unless one of them is not allowed.
pub assume_specification[ HeaderValue::from_bytes ](src: &[u8]) -> (value: Result<
    HeaderValue,
    InvalidHeaderValue,
>)
    ensures
        value is Ok <==> is_header_value(src@),
        value matches Ok(value) ==> value_bytes(value) == src@,
;

/// [`HeaderMap::try_insert`]: the value replaces all values that the map had for the name. Where
/// the map has no room it stays as it was. Its table has at most 32,768 places and is doubled when
/// three quarters of them are taken, or when many names collide in it and a fifth are taken; so
/// room can be missing only where more names than [`NAMES_WITH_ROOM`] are held.
#[verifier::external_body]
pub(crate) fn insert_header(
    headers: &mut HeaderMap<HeaderValue>,
    name: &'static str,
    value: HeaderValue,
) -> (inserted: Result<(), MaxSizeReached>)
    requires
        is_header_name(name@),
    ensures
        match inserted {
            Ok(_) => header_values(*final(headers)) == header_values(*old(headers)).insert(
                name@,
                seq![value_bytes(value)],
            ),
            Err(_) => {
                &&& header_values(*final(headers)) == header_values(*old(headers))
                &&& header_values(*final(headers)).dom().finite()
                &&& header_values(*final(headers)).dom().len() > NAMES_WITH_ROOM
            },
        },
{
    headers.try_insert(HeaderName::from_static(name), value).map(|_previous| ())
}

/// [`HeaderMap::get`]: the first value of a name, if the map holds the name.
#[verifier::external_body]
pub(crate) fn first_header(headers: &HeaderMap<HeaderValue>, name: &'static str) -> (value: Option<
    HeaderValue,
>)
    requires
        is_header_name(name@),
    ensures
        match value {
            Some(value) => {
                &&& header_values(*headers).contains_key(name@)
                &&& header_values(*headers)[name@].len() > 0
                &&& header_values(*headers)[name@][0] == value_bytes(value)
            },
            None => !header_values(*headers).contains_key(name@),
        },
{
    headers.get(name).cloned()
}

/// Whether a character may stand in a text that becomes the value of a header.
pub open spec fn is_value_char(c: char) -> bool {
    c as u32 == 9 || (c as u32 >= 32 && c as u32 != 127)
}

proof fn lemma_header_value_of_one_character(c: char)
    ensures
        is_header_value(encode_scalar(c as u32)) <==> is_value_char(c),
{
    let scalar = c as u32;
    let bytes = encode_scalar(scalar);
    if has_width_1_encoding(scalar) {
        assert(leading_byte_width_1(scalar) == scalar) by (bit_vector)
            requires
                has_width_1_encoding(scalar),
        ;
        assert(bytes[0] == scalar);
    } else {
        assert(leading_byte_width_2(scalar) >= 0x80u8 && leading_byte_width_3(scalar) >= 0x80u8
            && leading_byte_width_4(scalar) >= 0x80u8) by (bit_vector);
        assert(last_continuation_byte(scalar) >= 0x80u8 && second_last_continuation_byte(scalar)
            >= 0x80u8 && third_last_continuation_byte(scalar) >= 0x80u8) by (bit_vector);
        assert forall|i: int| 0 <= i < bytes.len() implies is_value_byte(#[trigger] bytes[i]) by {
            assert(bytes[i] >= 0x80);
        }
    }
}

/// A text can be the value of a header if and only if each of its characters is a tab or stands
/// from the space on and is not DEL.
pub proof fn law_header_values_by_character(text: Seq<char>)
    ensures
        is_header_value(encode_utf8(text)) <==> forall|i: int|
            0 <= i < text.len() ==> is_value_char(#[trigger] text[i]),
    decreases text.len(),
{
    if text.len() > 0 {
        let first = encode_scalar(text[0] as u32);
        let rest = encode_utf8(text.drop_first());
        lemma_header_value_of_one_character(text[0]);
        law_header_values_by_character(text.drop_first());
        assert(encode_utf8(text) == first + rest);
        if is_header_value(first + rest) {
            assert forall|i: int| 0 <= i < first.len() implies is_value_byte(
                #[trigger] first[i],
            ) by {
                assert((first + rest)[i] == first[i]);
            }
            assert forall|i: int| 0 <= i < rest.len() implies is_value_byte(#[trigger] rest[i]) by {
                assert((first + rest)[first.len() + i] == rest[i]);
            }
            assert forall|i: int| 0 <= i < text.len() implies is_value_char(#[trigger] text[i]) by {
                if i > 0 {
                    assert(text.drop_first()[i - 1] == text[i]);
                }
            }
        }
        if forall|i: int| 0 <= i < text.len() ==> is_value_char(#[trigger] text[i]) {
            assert forall|i: int| 0 <= i < text.drop_first().len() implies is_value_char(
                #[trigger] text.drop_first()[i],
            ) by {
                assert(text[i + 1] == text.drop_first()[i]);
            }
        }
    }
}

} // verus!
