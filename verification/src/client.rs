//! The settings of the HTTP client, and the test that a token must pass to
//! become one of its headers.

use vstd::prelude::*;
use vstd::utf8::*;
use vstd::string::StringSliceAdditionalSpecFns;
use reqwest::header::{HeaderValue, InvalidHeaderValue};
use crate::error::ApiError;

verus! {

/// A header that the client sends with every request.
#[derive(Debug, Clone, PartialEq, Eq)]
pub struct Header {
    pub name: String,
    pub value: String,
    /// A sensitive value is kept out of logs and debug output.
    pub sensitive: bool,
}

/// The mathematical value of a [`Header`].
pub struct HeaderView {
    pub name: Seq<char>,
    pub value: Seq<char>,
    pub sensitive: bool,
}

impl View for Header {
    type V = HeaderView;

    open spec fn view(&self) -> HeaderView {
        HeaderView { name: self.name@, value: self.value@, sensitive: self.sensitive }
    }
}

/// What an HTTP client is built from.
#[derive(Debug, Clone, PartialEq, Eq)]
pub struct ClientConfig {
    pub user_agent: String,
    /// The time allowed for one request, in seconds.
    pub timeout_secs: u64,
    pub default_headers: Vec<Header>,
}

/// The mathematical value of a [`ClientConfig`].
pub struct ClientConfigView {
    pub user_agent: Seq<char>,
    pub timeout_secs: nat,
    pub default_headers: Seq<HeaderView>,
}

impl View for ClientConfig {
    type V = ClientConfigView;

    open spec fn view(&self) -> ClientConfigView {
        ClientConfigView {
            user_agent: self.user_agent@,
            timeout_secs: self.timeout_secs as nat,
            default_headers: self.default_headers@.map_values(|h: Header| h@),
        }
    }
}

/// Whether a byte may stand in the value of a header: a tab, or any byte that
/// is neither a control character nor DEL.
pub open spec fn is_header_value_byte(b: u8) -> bool {
    b >= 32 && b != 127 || b == 9
}

/// Whether every byte of `bytes` may stand in the value of a header.
pub open spec fn is_header_value_bytes(bytes: Seq<u8>) -> bool {
    forall|i: int| 0 <= i < bytes.len() ==> is_header_value_byte(#[trigger] bytes[i])
}

/// Whether a character may stand in the value of a header: a tab, or any
/// character that is neither an ASCII control character nor DEL.
pub open spec fn is_header_value_char(c: char) -> bool {
    (c as u32) >= 32 && (c as u32) != 127 || (c as u32) == 9
}

/// Whether a text can be sent as the value of a header.
pub open spec fn is_header_value(text: Seq<char>) -> bool {
    forall|i: int| 0 <= i < text.len() ==> is_header_value_char(#[trigger] text[i])
}

/// The settings of the client that speaks for the holder of `token`: the token
/// as a sensitive `PRIVATE-TOKEN` header, a JSON content type, the user agent
/// `Snipper`, and ten seconds for each request.
pub open spec fn client_config(token: Seq<char>) -> ClientConfigView {
    ClientConfigView {
        user_agent: "Snipper"@,
        timeout_secs: 10,
        default_headers: seq![
            HeaderView { name: "PRIVATE-TOKEN"@, value: token, sensitive: true },
            HeaderView { name: "Content-Type"@, value: "application/json"@, sensitive: false },
        ],
    }
}

/// The header value of the `http` crate, opaque here.
#[verifier::external_type_specification]
#[verifier::external_body]
pub struct ExHeaderValue(HeaderValue);

/// The error with which the `http` crate refuses a header value, opaque here.
#[verifier::external_type_specification]
#[verifier::external_body]
pub struct ExInvalidHeaderValue(InvalidHeaderValue);

/// `HeaderValue::from_str` of the `http` crate, as `reqwest::header` hands it
/// on. It scans the bytes of `src` and succeeds exactly when each of them is a
/// tab or is at least 32 and not 127. Nothing is said here about the value it
/// builds.
pub assume_specification[ HeaderValue::from_str ](src: &str) -> (parsed: Result<
    HeaderValue,
    InvalidHeaderValue,
>)
    ensures
        parsed is Ok <==> is_header_value_bytes(src.spec_bytes()),
;

/// The bytes that encode one character pass the test for header values
/// exactly when the character does: a character beyond ASCII is encoded with
/// bytes of 128 and more, and an ASCII character is its own single byte.
proof fn lemma_scalar_bytes(c: char)
    ensures
        is_header_value_bytes(encode_scalar(c as u32)) <==> is_header_value_char(c),
{
    let s = c as u32;
    let bytes = encode_scalar(s);
    char_is_scalar(c);
    if has_width_1_encoding(s) {
        assert(leading_byte_width_1(s) == s) by (bit_vector)
            requires
                0 <= s <= 0x7F,
        ;
        assert(bytes[0] == s);
    } else if has_width_2_encoding(s) {
        assert(leading_byte_width_2(s) >= 0x80 && last_continuation_byte(s) >= 0x80)
            by (bit_vector);
    } else if has_width_3_encoding(s) {
        assert(leading_byte_width_3(s) >= 0x80 && second_last_continuation_byte(s) >= 0x80
            && last_continuation_byte(s) >= 0x80) by (bit_vector);
    } else {
        assert(leading_byte_width_4(s) >= 0x80 && third_last_continuation_byte(s) >= 0x80
            && second_last_continuation_byte(s) >= 0x80 && last_continuation_byte(s) >= 0x80)
            by (bit_vector);
    }
}

/// A text passes the test for header values character by character exactly
/// when its UTF-8 encoding passes it byte by byte.
pub proof fn lemma_header_value_bytes(text: Seq<char>)
    ensures
        is_header_value_bytes(encode_utf8(text)) <==> is_header_value(text),
    decreases text.len(),
{
    if text.len() > 0 {
        let head = encode_scalar(text[0] as u32);
        let tail = encode_utf8(text.drop_first());
        lemma_scalar_bytes(text[0]);
        lemma_header_value_bytes(text.drop_first());
        assert(encode_utf8(text) == head + tail);
        if is_header_value(text) {
            assert forall|i: int| 0 <= i < text.drop_first().len() implies is_header_value_char(
                #[trigger] text.drop_first()[i],
            ) by {
                assert(text.drop_first()[i] == text[i + 1]);
            }
            assert forall|i: int| 0 <= i < (head + tail).len() implies is_header_value_byte(
                #[trigger] (head + tail)[i],
            ) by {
                if i < head.len() {
                    assert((head + tail)[i] == head[i]);
                } else {
                    assert((head + tail)[i] == tail[i - head.len()]);
                }
            }
        }
        if is_header_value_bytes(head + tail) {
            assert forall|i: int| 0 <= i < head.len() implies is_header_value_byte(
                #[trigger] head[i],
            ) by {
                assert(head[i] == (head + tail)[i]);
            }
            assert forall|i: int| 0 <= i < tail.len() implies is_header_value_byte(
                #[trigger] tail[i],
            ) by {
                assert(tail[i] == (head + tail)[i + head.len()]);
            }
            assert forall|i: int| 0 <= i < text.len() implies is_header_value_char(
                #[trigger] text[i],
            ) by {
                if i > 0 {
                    assert(text[i] == text.drop_first()[i - 1]);
                }
            }
        }
    }
}

/// A text that holds a control character other than a tab, such as a line
/// feed, or that holds DEL, cannot be sent as the value of a header.
pub proof fn lemma_control_character_rejected(text: Seq<char>, i: int)
    requires
        0 <= i < text.len(),
        (text[i] as u32) != 9,
        (text[i] as u32) < 32 || (text[i] as u32) == 127,
    ensures
        !is_header_value(text),
{
    assert(!is_header_value_char(text[i]));
}

/// Tests whether `token` can be sent as the value of a header.
pub fn check_header_value(token: &str) -> (checked: Result<(), ApiError>)
    ensures
        checked is Ok <==> is_header_value(token@),
        checked matches Err(e) ==> e@ == crate::error::ApiErrorView::InvalidHeader,
{
    proof {
        lemma_header_value_bytes(token@);
    }
    match HeaderValue::from_str(token) {
        Ok(_) => Ok(()),
        Err(_) => Err(ApiError::InvalidHeader),
    }
}

} // verus!
