//! The upstream collaborator as the cache sees it: the one request that is
//! ever sent, and the two ways in which fetching its answer can fail.

use vstd::prelude::*;
use vstd::utf8::{
    encode_scalar, encode_utf8, has_width_1_encoding, last_continuation_byte,
    leading_byte_width_1, leading_byte_width_2, leading_byte_width_3, leading_byte_width_4,
    second_last_continuation_byte, third_last_continuation_byte,
};

verus! {

/// The one upstream query. Nothing about it varies from request to request.
pub const API_URL: &'static str = "https://plausible.canine.tools/api/stats/artistgrid.cx/custom-prop-values/name/?period=all&date=2025-11-07&filters=%5B%5B%22is%22%2C%22event%3Agoal%22%2C%5B%22Artist%20Click%22%5D%5D%5D&with_imported=true&detailed=true&order_by=%5B%5B%22visitors%22%2C%22desc%22%5D%5D&limit=100&page=1";

/// Seconds allowed for connecting and receiving the whole answer.
pub const FETCH_TIMEOUT_SECS: u64 = 30;

/// Why a fetch gave no body. Each variant carries the cause in words.
#[derive(Clone, Debug, PartialEq, Eq)]
pub enum FetchError {
    /// The upstream was not reached, or did not answer in time.
    Transport(String),
    /// The upstream answered, and the body could not be read.
    BodyRead(String),
}

/// What a `FetchError` stands for.
pub enum FetchErrorView {
    Transport(Seq<char>),
    BodyRead(Seq<char>),
}

impl View for FetchError {
    type V = FetchErrorView;

    open spec fn view(&self) -> FetchErrorView {
        match self {
            FetchError::Transport(cause) => FetchErrorView::Transport(cause@),
            FetchError::BodyRead(cause) => FetchErrorView::BodyRead(cause@),
        }
    }
}

/// The message shown to the client for a failed fetch: a fixed phrase that
/// tells the two failures apart, then the cause.
pub open spec fn failure_text(error: FetchErrorView) -> Seq<char> {
    match error {
        FetchErrorView::Transport(cause) => "Error fetching data: "@ + cause,
        FetchErrorView::BodyRead(cause) => "Error reading response: "@ + cause,
    }
}

impl FetchError {
    /// The message shown to the client for this failure.
    pub fn message(&self) -> (text: String)
        ensures
            text@ == failure_text(self@),
    {
        match self {
            FetchError::Transport(cause) => String::from_str("Error fetching data: ").concat(
                cause.as_str(),
            ),
            FetchError::BodyRead(cause) => String::from_str("Error reading response: ").concat(
                cause.as_str(),
            ),
        }
    }
}

/// The view of what a fetch came back with.
pub open spec fn outcome_view(outcome: Result<String, FetchError>) -> Result<
    Seq<char>,
    FetchErrorView,
> {
    match outcome {
        Ok(body) => Ok(body@),
        Err(error) => Err(error@),
    }
}

/// A byte that may stand in a header value: anything but the control bytes,
/// of which only the tab is let through.
pub open spec fn is_header_byte(byte: u8) -> bool {
    (byte >= 32 && byte != 127) || byte == 9
}

/// Bytes that can be sent as a header value.
pub open spec fn is_header_bytes(bytes: Seq<u8>) -> bool {
    forall|i: int| 0 <= i < bytes.len() ==> is_header_byte(#[trigger] bytes[i])
}

/// A character that may stand in a header value: anything but the control
/// characters, of which only the tab is let through.
pub open spec fn is_header_char(c: char) -> bool {
    (c as u32 >= 32 && c as u32 != 127) || c as u32 == 9
}

/// A text that can be sent as a header value.
pub open spec fn is_header_text(text: Seq<char>) -> bool {
    forall|i: int| 0 <= i < text.len() ==> is_header_char(#[trigger] text[i])
}

/// The value of the `Authorization` header for `token`.
pub open spec fn bearer(token: Seq<char>) -> Seq<char> {
    "Bearer "@ + token
}

/// Calls `reqwest::header::HeaderValue::from_str` and keeps only whether it
/// accepted `text`. That function goes through the bytes of the text, which
/// are its UTF-8 encoding, and accepts the text where it finds none below 32
/// other than the tab, and no 127. Trusted, not proved.
#[verifier::external_body]
fn header_value_accepts(text: &str) -> (accepted: bool)
    ensures
        accepted == is_header_bytes(encode_utf8(text@)),
{
    reqwest::header::HeaderValue::from_str(text).is_ok()
}

/// The bytes that encode one character pass as a header value where the
/// character does: one byte encodes a character up to 127 and is its
/// number; the bytes of any other character are all above 127.
proof fn lemma_header_bytes_of_char(c: char)
    ensures
        is_header_bytes(encode_scalar(c as u32)) <==> is_header_char(c),
{
    let scalar = c as u32;
    let bytes = encode_scalar(scalar);
    if has_width_1_encoding(scalar) {
        assert(leading_byte_width_1(scalar) == scalar) by (bit_vector)
            requires
                scalar <= 0x7F,
        ;
        assert(bytes[0] == scalar);
    } else {
        assert(leading_byte_width_2(scalar) >= 0x80) by (bit_vector);
        assert(leading_byte_width_3(scalar) >= 0x80) by (bit_vector);
        assert(leading_byte_width_4(scalar) >= 0x80) by (bit_vector);
        assert(third_last_continuation_byte(scalar) >= 0x80) by (bit_vector);
        assert(second_last_continuation_byte(scalar) >= 0x80) by (bit_vector);
        assert(last_continuation_byte(scalar) >= 0x80) by (bit_vector);
        assert(scalar >= 0x80);
    }
}

/// Bytes put together pass as a header value where both parts do.
proof fn lemma_header_bytes_of_parts(head: Seq<u8>, tail: Seq<u8>)
    ensures
        is_header_bytes(head + tail) <==> is_header_bytes(head) && is_header_bytes(tail),
{
    let whole = head + tail;
    if is_header_bytes(whole) {
        assert forall|i: int| 0 <= i < head.len() implies is_header_byte(#[trigger] head[i]) by {
            assert(whole[i] == head[i]);
        }
        assert forall|i: int| 0 <= i < tail.len() implies is_header_byte(#[trigger] tail[i]) by {
            assert(whole[head.len() + i] == tail[i]);
        }
    }
}

/// The rule on the bytes of a text is the rule on its characters.
pub proof fn lemma_header_bytes_of_text(text: Seq<char>)
    ensures
        is_header_bytes(encode_utf8(text)) <==> is_header_text(text),
    decreases text.len(),
{
    if text.len() > 0 {
        let rest = text.drop_first();
        lemma_header_bytes_of_char(text[0]);
        lemma_header_bytes_of_text(rest);
        lemma_header_bytes_of_parts(encode_scalar(text[0] as u32), encode_utf8(rest));
        if is_header_text(text) {
            assert forall|i: int| 0 <= i < rest.len() implies is_header_char(
                #[trigger] rest[i],
            ) by {
                assert(rest[i] == text[i + 1]);
            }
        }
        if is_header_char(text[0]) && is_header_text(rest) {
            assert forall|i: int| 0 <= i < text.len() implies is_header_char(
                #[trigger] text[i],
            ) by {
                if i > 0 {
                    assert(text[i] == rest[i - 1]);
                }
            }
        }
    }
}

/// The request sent upstream on every refresh.
#[derive(Clone, Debug, PartialEq, Eq)]
pub struct UpstreamRequest {
    pub url: String,
    pub authorization: String,
    pub timeout_secs: u64,
}

/// What an `UpstreamRequest` stands for.
pub struct UpstreamRequestView {
    pub url: Seq<char>,
    pub authorization: Seq<char>,
    pub timeout_secs: nat,
}

impl View for UpstreamRequest {
    type V = UpstreamRequestView;

    open spec fn view(&self) -> UpstreamRequestView {
        UpstreamRequestView {
            url: self.url@,
            authorization: self.authorization@,
            timeout_secs: self.timeout_secs as nat,
        }
    }
}

/// The request that carries `token`.
pub open spec fn request_with(token: Seq<char>) -> UpstreamRequestView {
    UpstreamRequestView {
        url: API_URL@,
        authorization: bearer(token),
        timeout_secs: FETCH_TIMEOUT_SECS as nat,
    }
}

/// The request to send upstream with `token` as the credential, or `None`
/// where the token holds a character that a header value refuses.
pub fn upstream_request(token: &str) -> (request: Option<UpstreamRequest>)
    ensures
        request is Some <==> is_header_text(token@),
        request matches Some(request) ==> request@ == request_with(token@),
{
    let authorization = String::from_str("Bearer ").concat(token);
    proof {
        lemma_header_bytes_of_text(authorization@);
        lemma_bearer_sendable(token@);
    }
    if header_value_accepts(authorization.as_str()) {
        Some(
            UpstreamRequest {
                url: String::from_str(API_URL),
                authorization,
                timeout_secs: FETCH_TIMEOUT_SECS,
            },
        )
    } else {
        None
    }
}

/// Whether a token can be sent depends on the token alone: the fixed prefix
/// holds no character that a header value refuses.
pub proof fn lemma_bearer_sendable(token: Seq<char>)
    ensures
        is_header_text(bearer(token)) <==> is_header_text(token),
{
    reveal_strlit("Bearer ");
    let prefix = "Bearer "@;
    let whole = bearer(token);
    assert(prefix.len() == 7);
    if is_header_text(token) {
        assert forall|i: int| 0 <= i < whole.len() implies is_header_char(#[trigger] whole[i]) by {
            if i >= 7 {
                assert(whole[i] == token[i - 7]);
            }
        }
    }
    if is_header_text(whole) {
        assert forall|i: int| 0 <= i < token.len() implies is_header_char(#[trigger] token[i]) by {
            assert(whole[i + 7] == token[i]);
        }
    }
}

} // verus!
