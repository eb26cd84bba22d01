//! What the server answers with: status codes, the response envelope that
//! JSON clients receive, and the response itself as the middleware sees it.

use vstd::prelude::*;
use vstd::utf8::{encode_utf8, is_ascii_chars, is_ascii_chars_encode_utf8};

use crate::error::{ErrorField, InternalAppError};
use crate::utils::parse_into_status_code;

verus! {

/// An HTTP status code: a number from 100 to 999.
#[derive(Clone, Copy, Debug, PartialEq, Eq, Structural)]
pub struct StatusCode {
    code: u16,
}

impl StatusCode {
    #[verifier::type_invariant]
    spec fn in_range(self) -> bool {
        100 <= self.code <= 999
    }

    /// The number of this status code.
    pub closed spec fn value(self) -> u16 {
        self.code
    }

    /// The status code with the number `code`, where there is one.
    pub fn from_u16(code: u16) -> (status: Option<StatusCode>)
        ensures
            status is Some <==> 100 <= code <= 999,
            status matches Some(s) ==> s.value() == code,
    {
        if 100 <= code && code <= 999 {
            Some(StatusCode { code })
        } else {
            None
        }
    }

    /// The number of this status code.
    pub fn as_u16(&self) -> (code: u16)
        ensures
            code == self.value(),
            100 <= code <= 999,
    {
        proof {
            use_type_invariant(self);
        }
        self.code
    }

    /// 200 OK
    pub fn ok() -> (status: StatusCode)
        ensures
            status.value() == 200,
    {
        StatusCode { code: 200 }
    }

    /// 302 Found
    pub fn found() -> (status: StatusCode)
        ensures
            status.value() == 302,
    {
        StatusCode { code: 302 }
    }

    /// 400 Bad Request
    pub fn bad_request() -> (status: StatusCode)
        ensures
            status.value() == 400,
    {
        StatusCode { code: 400 }
    }

    /// 404 Not Found
    pub fn not_found() -> (status: StatusCode)
        ensures
            status.value() == 404,
    {
        StatusCode { code: 404 }
    }

    /// 500 Internal Server Error
    pub fn internal_server_error() -> (status: StatusCode)
        ensures
            status.value() == 500,
    {
        StatusCode { code: 500 }
    }
}

/// The URI a request carried before it was rewritten or redirected.
#[derive(Debug)]
pub struct OriginalUrl(String);

impl View for OriginalUrl {
    type V = Seq<char>;

    closed spec fn view(&self) -> Seq<char> {
        self.0@
    }
}

impl OriginalUrl {
    pub fn new(inner: String) -> (url: Self)
        ensures
            url@ == inner@,
    {
        Self(inner)
    }

    pub fn as_str(&self) -> (text: &str)
        ensures
            text@ == self@,
    {
        self.0.as_str()
    }
}

/// How a response envelope classifies its outcome.
#[derive(Clone, Copy, Debug, PartialEq, Eq, Structural)]
pub enum ResponseStatus {
    Success,
    Failed,
    Warning,
}

impl Default for ResponseStatus {
    fn default() -> (status: Self)
        ensures
            status == ResponseStatus::Success,
    {
        ResponseStatus::Success
    }
}

/// The response envelope: optional data, an optional message and the outcome.
///
/// `status_code` is the HTTP status that goes out with the envelope; it is
/// not part of the envelope's JSON form.
#[derive(Debug, PartialEq, Eq)]
pub struct ServerResponse<D, M> {
    pub data: Option<D>,
    pub message: Option<M>,
    pub status: ResponseStatus,
    pub status_code: StatusCode,
}

/// The number of the status that goes out with an envelope: the one asked
/// for where it is a status code, else 200.
pub open spec fn envelope_status(status_code: Option<u16>) -> int {
    match status_code {
        Some(code) if 100 <= code <= 999 => code as int,
        _ => 200,
    }
}

impl<D, M> ServerResponse<D, M> {
    fn with_status(
        status: ResponseStatus,
        data: Option<D>,
        message: Option<M>,
        status_code: Option<u16>,
    ) -> (response: Self)
        ensures
            response.data == data,
            response.message == message,
            response.status == status,
            response.status_code.value() == envelope_status(status_code),
    {
        let parsed = match status_code {
            Some(code) => parse_into_status_code(code),
            None => None,
        };
        let status_code = match parsed {
            Some(code) => code,
            None => StatusCode::ok(),
        };
        Self { data, message, status, status_code }
    }

    /// The envelope of a failure.
    pub fn failed(data: Option<D>, message: Option<M>, status_code: Option<u16>) -> (response:
        Self)
        ensures
            response.data == data,
            response.message == message,
            response.status == ResponseStatus::Failed,
            response.status_code.value() == envelope_status(status_code),
    {
        Self::with_status(ResponseStatus::Failed, data, message, status_code)
    }

    /// The envelope of a success.
    pub fn success(data: Option<D>, message: Option<M>, status_code: Option<u16>) -> (response:
        Self)
        ensures
            response.data == data,
            response.message == message,
            response.status == ResponseStatus::Success,
            response.status_code.value() == envelope_status(status_code),
    {
        Self::with_status(ResponseStatus::Success, data, message, status_code)
    }

    /// The envelope of a warning.
    pub fn warning(data: Option<D>, message: Option<M>, status_code: Option<u16>) -> (response:
        Self)
        ensures
            response.data == data,
            response.message == message,
            response.status == ResponseStatus::Warning,
            response.status_code.value() == envelope_status(status_code),
    {
        Self::with_status(ResponseStatus::Warning, data, message, status_code)
    }
}

/// What a response carries as its body.
#[derive(Debug)]
pub enum Body {
    Empty,
    /// An envelope, to be sent as JSON.
    Json(ServerResponse<String, String>),
    /// A rendered page.
    Html(String),
}

/// A response as the middleware sees it: status, the `Location` header, the
/// body, and the two pieces of metadata that travel with it.
#[derive(Debug)]
pub struct HttpResponse {
    pub status: StatusCode,
    pub location: Option<String>,
    pub body: Body,
    pub original_url: Option<OriginalUrl>,
    pub error_field: Option<ErrorField>,
}

impl HttpResponse {
    /// A response with the given status, an empty body, no `Location` and no
    /// metadata.
    pub open spec fn is_bare(self, status: int) -> bool {
        &&& self.status.value() == status
        &&& self.location is None
        &&& self.body is Empty
        &&& self.original_url is None
        &&& self.error_field is None
    }

    /// A redirect to `location` with the given status, which carries
    /// `original_url` and no error.
    pub open spec fn is_redirect(
        self,
        status: int,
        location: Seq<char>,
        original_url: Option<Seq<char>>,
    ) -> bool {
        &&& self.status.value() == status
        &&& self.location matches Some(target) && target@ == location
        &&& self.body is Empty
        &&& match original_url {
            Some(url) => self.original_url matches Some(kept) && kept@ == url,
            None => self.original_url is None,
        }
        &&& self.error_field is None
    }

    /// A failure envelope with the given message and no data, sent with the
    /// given status and without metadata.
    pub open spec fn is_failure(self, status: int, message: Seq<char>) -> bool {
        &&& self.status.value() == status
        &&& self.location is None
        &&& self.body matches Body::Json(envelope) && envelope.data is None
            && envelope.status == ResponseStatus::Failed && envelope.status_code.value() == status
            && (envelope.message matches Some(text) && text@ == message)
        &&& self.original_url is None
        &&& self.error_field is None
    }

    /// The bare response with the given status.
    pub fn new(status: StatusCode) -> (response: Self)
        ensures
            response.is_bare(status.value() as int),
    {
        HttpResponse {
            status,
            location: None,
            body: Body::Empty,
            original_url: None,
            error_field: None,
        }
    }

    /// The response that sends `envelope` with the status it names.
    pub fn from_envelope(envelope: ServerResponse<String, String>) -> (response: Self)
        ensures
            response.status == envelope.status_code,
            response.location is None,
            response.body == Body::Json(envelope),
            response.original_url is None,
            response.error_field is None,
    {
        HttpResponse {
            status: envelope.status_code,
            location: None,
            body: Body::Json(envelope),
            original_url: None,
            error_field: None,
        }
    }
}

/// A byte that a header value may hold: a tab, or anything from 32 up but
/// 127.
pub open spec fn is_header_value_byte(byte: u8) -> bool {
    byte >= 32 && byte != 127 || byte == 9
}

/// `text` can stand as the value of a header: each byte of its UTF-8 form is
/// one that a header value may hold.
pub open spec fn is_header_value(text: Seq<char>) -> bool {
    forall|i: int|
        0 <= i < encode_utf8(text).len() ==> is_header_value_byte(#[trigger] encode_utf8(text)[i])
}

/// In a text of ASCII characters each character is one byte: such a text
/// can stand as the value of a header exactly where each of its characters
/// is a tab, or stands at or behind the space and is not DEL.
pub proof fn lemma_ascii_header_value(text: Seq<char>)
    requires
        is_ascii_chars(text),
    ensures
        is_header_value(text) <==> forall|i: int|
            0 <= i < text.len() ==> is_header_value_byte((#[trigger] text[i]) as u8),
{
    is_ascii_chars_encode_utf8(text);
    if is_header_value(text) {
        assert forall|i: int| 0 <= i < text.len() implies is_header_value_byte(
            (#[trigger] text[i]) as u8,
        ) by {
            assert(is_header_value_byte(encode_utf8(text)[i]));
        }
    }
}

/// `HeaderValue::from_str` of ntex: it goes through the bytes of the text
/// and refuses it at the first byte below 32 other than a tab, or equal to
/// 127; every other text is accepted.
#[verifier::external_body]
fn parse_header_value(text: &str) -> (parsed: Result<
    ntex::http::header::HeaderValue,
    ntex::http::header::InvalidHeaderValue,
>)
    ensures
        parsed is Ok <==> is_header_value(text@),
{
    ntex::http::header::HeaderValue::from_str(text)
}

/// The number of the status a redirect goes out with: the one asked for
/// where it is a status code, else 302.
pub open spec fn redirect_status(status_code: Option<u16>) -> int {
    match status_code {
        Some(code) if 100 <= code <= 999 => code as int,
        _ => 302,
    }
}

/// The sentence that reports a `Location` that no header can hold.
pub open spec fn invalid_header_value_message() -> Seq<char> {
    "Invalid header value!"@
}

/// Builds the redirect to `url`.
///
/// The status is `status_code` where that is a status code and 302
/// otherwise; `prev_url`, where given, travels with the response as its
/// original URL. A `url` that no header can hold is an error.
pub fn redirect(url: &str, prev_url: Option<String>, status_code: Option<u16>) -> (r: Result<
    HttpResponse,
    InternalAppError,
>)
    ensures
        match r {
            Ok(response) => is_header_value(url@) && response.is_redirect(
                redirect_status(status_code),
                url@,
                match prev_url {
                    Some(prev) => Some(prev@),
                    None => None,
                },
            ),
            Err(error) => !is_header_value(url@) && error@ == invalid_header_value_message(),
        },
{
    let asked = match status_code {
        Some(code) => parse_into_status_code(code),
        None => None,
    };
    let status = match asked {
        Some(code) => code,
        None => StatusCode::found(),
    };
    match parse_header_value(url) {
        Ok(_) => {
            let original_url = match prev_url {
                Some(prev) => Some(OriginalUrl::new(prev)),
                None => None,
            };
            Ok(
                HttpResponse {
                    status,
                    location: Some(url.to_owned()),
                    body: Body::Empty,
                    original_url,
                    error_field: None,
                },
            )
        },
        Err(_) => Err(InternalAppError { description: "Invalid header value!".to_owned() }),
    }
}

/// The response that sends a rendered page.
pub fn map_view_render_result(s: String) -> (response: HttpResponse)
    ensures
        response.status.value() == 200,
        response.location is None,
        response.body == Body::Html(s),
        response.original_url is None,
        response.error_field is None,
{
    HttpResponse {
        status: StatusCode::ok(),
        location: None,
        body: Body::Html(s),
        original_url: None,
        error_field: None,
    }
}

} // verus!
