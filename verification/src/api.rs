//! The gateway to the reward service: what to request, and how a reply is
//! read.
//!
//! Every reply of the service is an envelope: a numeric code and, where the
//! operation has one, a payload. A code other than zero is always a failure.
//! The three reading operations need their payload; the check-in itself is
//! settled by the code alone. The refresh recommendation carries its two
//! timestamps as text, and reading it includes reading them as numbers.

use crate::error::AgentError;
use crate::schedule::{refresh_of, refresh_window, RefreshWindow};
use crate::text::{fill_placeholder, substitute};
use reqwest::header::{HeaderValue, InvalidHeaderValue};
use vstd::prelude::*;
use vstd::string::*;

verus! {

/// The envelope around every reply of the service.
#[derive(Debug, PartialEq, Eq)]
pub struct Message<T> {
    pub retcode: i32,
    pub data: Option<T>,
}

/// The payload of a check-in reply. It carries nothing.
#[derive(Debug, PartialEq, Eq)]
pub struct SignData {}

/// The payload of the home endpoint, of which only the awards are read.
#[derive(Debug, PartialEq, Eq)]
pub struct HomeData {
    pub awards: Vec<Award>,
}

/// What one day's check-in earns. The award for day `n` is the `n`-th of the
/// month's list.
#[derive(Debug, PartialEq, Eq)]
pub struct Award {
    pub icon: String,
    pub name: String,
    pub cnt: i32,
}

/// The check-in status of the account.
#[derive(Debug, Clone, Copy, PartialEq, Eq, Structural)]
pub struct InfoData {
    pub total_sign_day: i32,
    pub is_sign: bool,
    pub sign_cnt_missed: i32,
}

/// The payload of the refresh recommendation as it travels: the server's
/// clock and its next refresh instant, both as decimal text.
#[derive(Debug, PartialEq, Eq)]
pub struct RecommendData {
    pub now: String,
    pub refresh_time: String,
}

/// Why an operation of the gateway failed.
#[derive(Debug, PartialEq, Eq)]
pub enum ApiError {
    /// No answer arrived; the text is the transport's account of it.
    Transport(String),
    /// The service answered with a status outside 200 to 299.
    Status(u16),
    /// The body was not the JSON that the operation expects; the text is the
    /// decoder's account of it.
    Malformed(String),
    /// The envelope's code was not zero.
    Retcode(i32),
    /// The envelope's code was zero, but the payload was missing.
    MissingData,
}

/// The outcome of one round trip, as the transport reports it.
#[derive(Debug, PartialEq, Eq)]
pub enum Reply<T> {
    /// The request did not complete.
    Failed(String),
    /// The service answered: its status, and its body decoded, or the
    /// decoder's complaint.
    Answered { status: u16, body: Result<Message<T>, String> },
}

/// The HTTP method of a request.
#[derive(Debug, Clone, Copy, PartialEq, Eq, Structural)]
pub enum Method {
    Get,
    Post,
}

/// One request to the service.
#[derive(Debug, PartialEq, Eq)]
pub struct Request {
    pub method: Method,
    pub url: String,
}

/// A request as plain values.
pub struct RequestView {
    pub method: Method,
    pub url: Seq<char>,
}

impl DeepView for Request {
    type V = RequestView;

    open spec fn deep_view(&self) -> RequestView {
        RequestView { method: self.method, url: self.url@ }
    }
}

/// Whether `status` reports success.
pub open spec fn is_success(status: u16) -> bool {
    200 <= status <= 299
}

impl<T> Message<T> {
    /// The payload that a reading operation takes from this envelope: the
    /// data where the code is zero and the data is there.
    pub open spec fn payload(self) -> Result<T, ApiError> {
        if self.retcode != 0 {
            Err(ApiError::Retcode(self.retcode))
        } else {
            match self.data {
                Some(data) => Ok(data),
                None => Err(ApiError::MissingData),
            }
        }
    }

    /// Whether this envelope confirms an operation that needs no payload:
    /// the code alone decides.
    pub open spec fn acknowledged(self) -> Result<(), ApiError> {
        if self.retcode != 0 {
            Err(ApiError::Retcode(self.retcode))
        } else {
            Ok(())
        }
    }

    /// Unwraps the envelope of a reading operation.
    pub fn into_payload(self) -> (r: Result<T, ApiError>)
        ensures
            r == self.payload(),
    {
        if self.retcode != 0 {
            return Err(ApiError::Retcode(self.retcode));
        }
        match self.data {
            Some(data) => Ok(data),
            None => Err(ApiError::MissingData),
        }
    }

    /// Checks the envelope of an operation that needs no payload.
    pub fn acknowledge(&self) -> (r: Result<(), ApiError>)
        ensures
            r == self.acknowledged(),
    {
        if self.retcode != 0 {
            Err(ApiError::Retcode(self.retcode))
        } else {
            Ok(())
        }
    }
}

impl<T> Reply<T> {
    /// The envelope that this round trip delivered: there is one where the
    /// service answered with a success status and a body that decoded.
    pub open spec fn envelope(self) -> Result<Message<T>, ApiError> {
        match self {
            Reply::Failed(detail) => Err(ApiError::Transport(detail)),
            Reply::Answered { status, body } => if !is_success(status) {
                Err(ApiError::Status(status))
            } else {
                match body {
                    Ok(message) => Ok(message),
                    Err(detail) => Err(ApiError::Malformed(detail)),
                }
            },
        }
    }

    /// What a reading operation makes of this round trip.
    pub open spec fn read(self) -> Result<T, ApiError> {
        match self.envelope() {
            Ok(message) => message.payload(),
            Err(e) => Err(e),
        }
    }

    /// What an operation without payload makes of this round trip.
    pub open spec fn confirmed(self) -> Result<(), ApiError> {
        match self.envelope() {
            Ok(message) => message.acknowledged(),
            Err(e) => Err(e),
        }
    }

    /// Takes the envelope out of a round trip.
    pub fn into_envelope(self) -> (r: Result<Message<T>, ApiError>)
        ensures
            r == self.envelope(),
    {
        match self {
            Reply::Failed(detail) => Err(ApiError::Transport(detail)),
            Reply::Answered { status, body } => {
                if status < 200 || status > 299 {
                    return Err(ApiError::Status(status));
                }
                match body {
                    Ok(message) => Ok(message),
                    Err(detail) => Err(ApiError::Malformed(detail)),
                }
            },
        }
    }
}

/// `reqwest::header::HeaderValue`, the value of one header. Trusted: nothing
/// is known of it but what the items below state.
#[verifier::external_type_specification]
#[verifier::external_body]
pub struct ExHeaderValue(HeaderValue);

/// `reqwest::header::InvalidHeaderValue`, the refusal of a text as the value
/// of a header. Trusted: it carries nothing.
#[verifier::external_type_specification]
#[verifier::external_body]
pub struct ExInvalidHeaderValue(InvalidHeaderValue);

/// The bytes that a header value holds, as `HeaderValue::as_bytes` hands
/// them out.
pub uninterp spec fn header_bytes(value: HeaderValue) -> Seq<u8>;

/// Whether a byte may stand in the value of a header: anything from the
/// space upwards but the delete character, and the tab.
pub open spec fn header_byte_ok(b: u8) -> bool {
    (b >= 32 && b != 127) || b == 9
}

/// Whether `text` can be the value of a header: every byte of its UTF-8
/// encoding may stand in one.
pub open spec fn header_text_ok(text: Seq<char>) -> bool {
    forall|i: int|
        0 <= i < vstd::utf8::encode_utf8(text).len() ==> header_byte_ok(
            #[trigger] vstd::utf8::encode_utf8(text)[i],
        )
}

/// Calls `reqwest::header::HeaderValue::from_str`. Trusted: the call succeeds
/// exactly on the texts that `header_text_ok` admits, which is the test that
/// the function runs over each byte of its argument, and the value it makes
/// holds a copy of the argument's bytes.
#[verifier::external_body]
fn header_value_from_str(text: &str) -> (r: Result<HeaderValue, InvalidHeaderValue>)
    ensures
        r is Ok <==> header_text_ok(text@),
        r matches Ok(value) ==> header_bytes(value) == vstd::utf8::encode_utf8(text@),
{
    HeaderValue::from_str(text)
}

/// For text of ASCII characters alone the test on bytes is a test on the
/// characters themselves.
pub proof fn lemma_header_text_ok_ascii(text: Seq<char>)
    requires
        vstd::utf8::is_ascii_chars(text),
    ensures
        header_text_ok(text) <==> (forall|i: int|
            0 <= i < text.len() ==> header_byte_ok(#[trigger] text[i] as u8)),
{
    vstd::utf8::is_ascii_chars_encode_utf8(text);
    let bytes = vstd::utf8::encode_utf8(text);
    if header_text_ok(text) {
        assert forall|i: int| 0 <= i < text.len() implies header_byte_ok(
            #[trigger] text[i] as u8,
        ) by {
            assert(header_byte_ok(bytes[i]));
        }
    }
    if forall|i: int| 0 <= i < text.len() ==> header_byte_ok(#[trigger] text[i] as u8) {
        assert forall|i: int| 0 <= i < bytes.len() implies header_byte_ok(
            #[trigger] bytes[i],
        ) by {
            assert(header_byte_ok(text[i] as u8));
        }
    }
}

/// Why the agent's configuration was refused.
#[derive(Debug, Clone, Copy, PartialEq, Eq, Structural)]
pub enum ConfigError {
    /// The credential cannot be sent as the value of a header.
    InvalidCookie,
}

/// The gateway's configuration: where the service's endpoints are, and the
/// credential that goes with every request.
pub struct ApiClient {
    url_pattern: String,
    cookie: HeaderValue,
}

impl ApiClient {
    /// The URL pattern that the client was made with. It holds a placeholder
    /// where an endpoint's name goes.
    pub closed spec fn pattern(&self) -> Seq<char> {
        self.url_pattern@
    }

    /// The bytes of the credential that the client sends.
    pub closed spec fn cookie_bytes(&self) -> Seq<u8> {
        header_bytes(self.cookie)
    }

    /// The URL of the endpoint `name`.
    pub open spec fn url_of(&self, name: Seq<char>) -> Seq<char> {
        substitute(self.pattern(), name)
    }

    /// A client for the endpoints under `url_pattern`, which sends `cookie`
    /// as its credential. It is refused where the cookie cannot be the value
    /// of a header.
    pub fn new(url_pattern: String, cookie: String) -> (r: Result<ApiClient, ConfigError>)
        ensures
            r is Ok <==> header_text_ok(cookie@),
            r matches Ok(client) ==> client.pattern() == url_pattern@ && client.cookie_bytes()
                == vstd::utf8::encode_utf8(cookie@),
            r matches Err(e) ==> e == ConfigError::InvalidCookie,
    {
        match header_value_from_str(cookie.as_str()) {
            Ok(value) => Ok(ApiClient { url_pattern, cookie: value }),
            Err(_) => Err(ConfigError::InvalidCookie),
        }
    }

    /// The credential, ready to be set as the `Cookie` header.
    pub fn cookie_header(&self) -> (value: &HeaderValue)
        ensures
            header_bytes(*value) == self.cookie_bytes(),
    {
        &self.cookie
    }

    /// The URL of the endpoint `endpoint`: the pattern with the name in
    /// place of the placeholder.
    pub fn get_url(&self, endpoint: &str) -> (url: String)
        ensures
            url@ == self.url_of(endpoint@),
    {
        fill_placeholder(self.url_pattern.as_str(), endpoint)
    }

    /// The request of the given method to the endpoint `name`.
    pub open spec fn request(&self, method: Method, name: Seq<char>) -> RequestView {
        RequestView { method, url: self.url_of(name) }
    }

    /// The request that reads from `endpoint`.
    pub fn get_request(&self, endpoint: &str) -> (request: Request)
        ensures
            request.deep_view() == self.request(Method::Get, endpoint@),
    {
        Request { method: Method::Get, url: self.get_url(endpoint) }
    }

    /// The request that submits to `endpoint`.
    pub fn post_request(&self, endpoint: &str) -> (request: Request)
        ensures
            request.deep_view() == self.request(Method::Post, endpoint@),
    {
        Request { method: Method::Post, url: self.get_url(endpoint) }
    }

    /// Reads the reply of a reading operation: the payload, where the round
    /// trip delivered an envelope with code zero and data.
    pub fn get_request_with_error_handling<T>(&self, reply: Reply<T>) -> (r: Result<T, ApiError>)
        ensures
            r == reply.read(),
    {
        match reply.into_envelope() {
            Ok(message) => message.into_payload(),
            Err(e) => Err(e),
        }
    }

    /// Reads the reply of the refresh recommendation: the server's clock and
    /// its next refresh instant as numbers. The operation fails as a whole
    /// where the payload is missing or one of its two timestamps is not a
    /// decimal number.
    pub fn get_recommend(&self, reply: Reply<RecommendData>) -> (r: Result<
        RefreshWindow,
        AgentError,
    >)
        ensures
            r == refresh_of(reply.read()),
    {
        match self.get_request_with_error_handling(reply) {
            Ok(data) => refresh_window(&data),
            Err(e) => Err(AgentError::Api(e)),
        }
    }

    /// Reads the reply of the status query.
    pub fn get_info(&self, reply: Reply<InfoData>) -> (r: Result<InfoData, ApiError>)
        ensures
            r == reply.read(),
    {
        self.get_request_with_error_handling(reply)
    }

    /// Reads the reply of the home query and hands out its awards.
    pub fn get_awards(&self, reply: Reply<HomeData>) -> (r: Result<Vec<Award>, ApiError>)
        ensures
            r == awards_of(reply.read()),
    {
        match self.get_request_with_error_handling(reply) {
            Ok(home) => Ok(home.awards),
            Err(e) => Err(e),
        }
    }

    /// Reads the reply of the check-in: it succeeded where the envelope came
    /// with code zero, whatever else it holds.
    pub fn post_sign(&self, reply: Reply<SignData>) -> (r: Result<(), ApiError>)
        ensures
            r == reply.confirmed(),
    {
        match reply.into_envelope() {
            Ok(message) => message.acknowledge(),
            Err(e) => Err(e),
        }
    }
}

/// The awards in what the home query delivered.
pub open spec fn awards_of(home: Result<HomeData, ApiError>) -> Result<Vec<Award>, ApiError> {
    match home {
        Ok(data) => Ok(data.awards),
        Err(e) => Err(e),
    }
}

/// An envelope with code zero and data hands out exactly that data, and one
/// with any other code is refused by both readings, with or without data.
pub proof fn lemma_envelope_policy<T>(message: Message<T>)
    ensures
        message.retcode == 0 ==> (message.data matches Some(data) ==> message.payload() == Ok::<
            T,
            ApiError,
        >(data)),
        message.retcode != 0 ==> message.payload() == Err::<T, ApiError>(
            ApiError::Retcode(message.retcode),
        ),
        message.retcode != 0 ==> message.acknowledged() == Err::<(), ApiError>(
            ApiError::Retcode(message.retcode),
        ),
{
}

/// An envelope with code zero and no data fails a reading operation and
/// confirms one that needs no payload.
pub proof fn lemma_missing_data<T>(message: Message<T>)
    requires
        message.retcode == 0,
        message.data is None,
    ensures
        message.payload() == Err::<T, ApiError>(ApiError::MissingData),
        message.acknowledged() == Ok::<(), ApiError>(()),
{
}

} // verus!
