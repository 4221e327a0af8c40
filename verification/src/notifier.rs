//! The notifier client: the request that carries a notification, and the
//! line that reports how the dispatch went.

use crate::text::{decimal, push_decimal};
use reqwest::header::{HeaderValue, InvalidHeaderValue};
use vstd::prelude::*;
use vstd::string::StringExecFns;
use vstd::utf8::{encode_scalar, encode_utf8, has_width_1_encoding};

verus! {

/// Where notifications are posted.
pub const NOTIFY_ENDPOINT: &'static str = "https://notify-api.line.me/api/notify";

/// The name of the form field that carries the notification text.
pub const MESSAGE_FIELD: &'static str = "message";

/// The header value of reqwest's `header` module, carried as it is.
#[verifier::external_type_specification]
#[verifier::external_body]
pub struct ExHeaderValue(reqwest::header::HeaderValue);

/// The error of reqwest's `header` module for a text that is no header
/// value, carried as it is.
#[verifier::external_type_specification]
#[verifier::external_body]
pub struct ExInvalidHeaderValue(reqwest::header::InvalidHeaderValue);

/// A POST request that delivers one notification.
#[derive(Clone, Debug, PartialEq, Eq)]
pub struct NotifyRequest {
    pub url: String,
    /// The value of the `Authorization` header.
    pub authorization: String,
    /// The fields of the form-encoded body, as name and value.
    pub form: Vec<(String, String)>,
}

/// Why no request could be made.
#[derive(Clone, Copy, Debug, PartialEq, Eq)]
pub enum NotifyError {
    /// The token cannot stand in an HTTP header.
    InvalidToken,
}

/// How the dispatch of a notification ended.
#[derive(Clone, Debug, PartialEq, Eq)]
pub enum DispatchOutcome {
    /// The service answered with this status.
    Answered { status: u16 },
    /// The request failed in transport; `detail` describes the failure.
    TransportError { detail: String },
    /// No request was sent, because none could be made.
    Refused { error: NotifyError },
}

/// Bytes that may stand in an HTTP header value: everything from the space
/// upwards except DEL, and the horizontal tab.
pub open spec fn header_byte_allowed(b: u8) -> bool {
    (b >= 32 && b != 127) || b == 9
}

/// Whether a text is accepted as an HTTP header value: each byte of its
/// UTF-8 encoding is an allowed one.
pub open spec fn header_value_allowed(value: Seq<char>) -> bool {
    forall|i: int|
        0 <= i < encode_utf8(value).len() ==> header_byte_allowed(#[trigger] encode_utf8(value)[i])
}

/// Characters that may stand in an HTTP header value: no control character
/// but the horizontal tab.
pub open spec fn header_char_allowed(c: char) -> bool {
    (c as u32 >= 32 && c as u32 != 127) || c as u32 == 9
}

/// Whether every character of a text may stand in an HTTP header value.
pub open spec fn header_text_allowed(text: Seq<char>) -> bool {
    forall|i: int| 0 <= i < text.len() ==> header_char_allowed(#[trigger] text[i])
}

/// The bytes that encode one character are allowed in a header value
/// exactly when the character is.
proof fn lemma_encoded_char_allowed(c: char)
    ensures
        encode_scalar(c as u32).len() > 0,
        header_char_allowed(c) <==> (forall|j: int|
            0 <= j < encode_scalar(c as u32).len() ==> header_byte_allowed(
                #[trigger] encode_scalar(c as u32)[j],
            )),
{
    let v = c as u32;
    let bytes = encode_scalar(v);
    if has_width_1_encoding(v) {
        assert((v & 0x7F) as u8 == v) by (bit_vector)
            requires
                v <= 0x7F,
        ;
        assert(bytes[0] == v);
    } else {
        assert(0xC0u8 | ((v >> 6) & 0x1F) as u8 >= 0x80) by (bit_vector);
        assert(0xE0u8 | ((v >> 12) & 0x0F) as u8 >= 0x80) by (bit_vector);
        assert(0xF0u8 | ((v >> 18) & 0x7) as u8 >= 0x80) by (bit_vector);
        assert(0x80u8 | (v & 0x3F) as u8 >= 0x80) by (bit_vector);
        assert(0x80u8 | ((v >> 6) & 0x3F) as u8 >= 0x80) by (bit_vector);
        assert(0x80u8 | ((v >> 12) & 0x3F) as u8 >= 0x80) by (bit_vector);
        assert(forall|j: int| 0 <= j < bytes.len() ==> #[trigger] bytes[j] >= 0x80);
    }
}

/// A text is accepted as a header value exactly when it holds no control
/// character but the tab.
pub proof fn lemma_header_value_allowed(text: Seq<char>)
    ensures
        header_value_allowed(text) <==> header_text_allowed(text),
    decreases text.len(),
{
    if text.len() > 0 {
        let head = encode_scalar(text[0] as u32);
        let rest = text.drop_first();
        let tail = encode_utf8(rest);
        let all = encode_utf8(text);
        lemma_encoded_char_allowed(text[0]);
        lemma_header_value_allowed(rest);
        if header_value_allowed(text) {
            assert forall|j: int| 0 <= j < head.len() implies header_byte_allowed(
                #[trigger] head[j],
            ) by {
                assert(head[j] == all[j]);
            }
            assert forall|j: int| 0 <= j < tail.len() implies header_byte_allowed(
                #[trigger] tail[j],
            ) by {
                assert(tail[j] == all[head.len() + j]);
            }
            assert forall|i: int| 0 <= i < text.len() implies header_char_allowed(
                #[trigger] text[i],
            ) by {
                if i > 0 {
                    assert(text[i] == rest[i - 1]);
                }
            }
        }
        if header_text_allowed(text) {
            assert forall|i: int| 0 <= i < rest.len() implies header_char_allowed(
                #[trigger] rest[i],
            ) by {
                assert(rest[i] == text[i + 1]);
            }
            assert forall|j: int| 0 <= j < all.len() implies header_byte_allowed(
                #[trigger] all[j],
            ) by {
                if j < head.len() {
                    assert(all[j] == head[j]);
                } else {
                    assert(all[j] == tail[j - head.len()]);
                }
            }
        }
    }
}

/// The `Authorization` header value for a token.
pub open spec fn bearer(token: Seq<char>) -> Seq<char> {
    "Bearer "@ + token
}

/// What an error reads as in a report.
pub open spec fn error_text(error: NotifyError) -> Seq<char> {
    match error {
        NotifyError::InvalidToken => "failed to parse header value"@,
    }
}

/// The line that reports a dispatch.
pub open spec fn report_line(outcome: DispatchOutcome) -> Seq<char> {
    match outcome {
        DispatchOutcome::Answered { status } => "Status is "@ + decimal(status as nat),
        DispatchOutcome::TransportError { detail } => "Error sending notification: "@ + detail@,
        DispatchOutcome::Refused { error } => "error sending message: "@ + error_text(error),
    }
}

/// Calls `HeaderValue::from_str` of reqwest's `header` module. It succeeds
/// exactly when every byte of `value` is allowed in a header value: the tab
/// and everything from the space upwards but DEL, the bytes above the ASCII
/// range included.
#[verifier::external_body]
fn header_value_from_str(value: &str) -> (parsed: Result<HeaderValue, InvalidHeaderValue>)
    ensures
        parsed is Ok <==> header_value_allowed(value@),
{
    HeaderValue::from_str(value)
}

impl NotifyError {
    /// What this error reads as in a report.
    pub fn message(&self) -> (text: String)
        ensures
            text@ == error_text(*self),
    {
        match self {
            NotifyError::InvalidToken => String::from_str("failed to parse header value"),
        }
    }
}

/// The fixed prefix of the header makes no difference to whether the
/// header is accepted: that rests on the token alone.
pub proof fn lemma_bearer_allowed(token: Seq<char>)
    ensures
        header_value_allowed(bearer(token)) <==> header_text_allowed(token),
{
    reveal_strlit("Bearer ");
    let prefix = "Bearer "@;
    let header = bearer(token);
    lemma_header_value_allowed(header);
    if header_text_allowed(header) {
        assert forall|i: int| 0 <= i < token.len() implies header_char_allowed(
            #[trigger] token[i],
        ) by {
            assert(token[i] == header[prefix.len() + i]);
        }
    }
    if header_text_allowed(token) {
        assert forall|i: int| 0 <= i < header.len() implies header_char_allowed(
            #[trigger] header[i],
        ) by {
            if i >= prefix.len() {
                assert(header[i] == token[i - prefix.len()]);
            }
        }
    }
}

/// Prepares the request that posts `text` with `token` as bearer token.
/// There is none where the token holds a character that cannot stand in a
/// header.
pub fn prepare(token: &str, text: String) -> (request: Result<NotifyRequest, NotifyError>)
    ensures
        request is Ok <==> header_text_allowed(token@),
        request matches Ok(r) ==> {
            &&& r.url@ == NOTIFY_ENDPOINT@
            &&& r.authorization@ == bearer(token@)
            &&& r.form.deep_view() == seq![(MESSAGE_FIELD@, text@)]
        },
        request matches Err(e) ==> e == NotifyError::InvalidToken,
{
    let mut authorization = String::from_str("Bearer ");
    authorization.append(token);
    proof {
        lemma_bearer_allowed(token@);
    }
    match header_value_from_str(authorization.as_str()) {
        Ok(_) => {
            let mut form: Vec<(String, String)> = Vec::new();
            form.push((String::from_str(MESSAGE_FIELD), text));
            assert(form.deep_view() =~= seq![(MESSAGE_FIELD@, text@)]);
            Ok(NotifyRequest { url: String::from_str(NOTIFY_ENDPOINT), authorization, form })
        },
        Err(_) => Err(NotifyError::InvalidToken),
    }
}

/// Writes the line that reports how a dispatch ended.
pub fn report(outcome: &DispatchOutcome) -> (line: String)
    ensures
        line@ == report_line(*outcome),
{
    match outcome {
        DispatchOutcome::Answered { status } => {
            let mut line = String::from_str("Status is ");
            push_decimal(&mut line, *status as u64);
            line
        },
        DispatchOutcome::TransportError { detail } => {
            let mut line = String::from_str("Error sending notification: ");
            line.append(detail.as_str());
            line
        },
        DispatchOutcome::Refused { error } => {
            let mut line = String::from_str("error sending message: ");
            let text = error.message();
            line.append(text.as_str());
            line
        },
    }
}

} // verus!
