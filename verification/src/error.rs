//! The errors of the application and the responses they turn into.

use std::rc::Rc;
use vstd::prelude::*;

use crate::features::RequestUtils;
use crate::response::{Body, HttpResponse, ServerResponse, StatusCode};

verus! {

/// The error with which ntex refuses the value of a header. Nothing is
/// known of what is in it.
#[verifier::external_type_specification]
#[verifier::external_body]
pub struct ExInvalidHeaderValue(ntex::http::header::InvalidHeaderValue);

/// The value of a header as ntex holds it. Nothing is known of what is in
/// it.
#[verifier::external_type_specification]
#[verifier::external_body]
pub struct ExHeaderValue(ntex::http::header::HeaderValue);

/// An error raised inside the application, described in words.
#[derive(Debug)]
pub struct InternalAppError {
    pub description: String,
}

impl View for InternalAppError {
    type V = Seq<char>;

    open spec fn view(&self) -> Seq<char> {
        self.description@
    }
}

impl Clone for InternalAppError {
    fn clone(&self) -> (copy: Self)
        ensures
            copy@ == self@,
    {
        InternalAppError { description: self.description.clone() }
    }
}

/// The error behind a response, kept with it for whoever renders or logs it.
#[derive(Debug)]
pub struct ErrorField(Rc<InternalAppError>);

impl View for ErrorField {
    type V = Seq<char>;

    closed spec fn view(&self) -> Seq<char> {
        self.0@
    }
}

impl Clone for ErrorField {
    fn clone(&self) -> (copy: Self)
        ensures
            copy == *self,
    {
        ErrorField(self.0.clone())
    }
}

impl ErrorField {
    pub fn new(boxed_error: InternalAppError) -> (field: Self)
        ensures
            field@ == boxed_error@,
    {
        Self(Rc::new(boxed_error))
    }

    /// The description of the error behind the response.
    pub fn description(&self) -> (text: &str)
        ensures
            text@ == self@,
    {
        self.0.description.as_str()
    }
}

/// An error that knows the response it is answered with.
pub trait AppError {
    /// What the error says of itself.
    spec fn text(&self) -> Seq<char>;

    /// The sentence that reports the error.
    fn message(&self) -> (text: String)
        ensures
            text@ == self.text(),
    ;

    /// The response for a client that does not ask for JSON: an empty 500
    /// that carries the error.
    fn response(&self) -> (response: HttpResponse)
        ensures
            is_server_error(response, self.text()),
    ;
}

/// An empty 500 without `Location` or original URL, which carries the error
/// described by `description`.
pub open spec fn is_server_error(response: HttpResponse, description: Seq<char>) -> bool {
    &&& response.status.value() == 500
    &&& response.location is None
    &&& response.body is Empty
    &&& response.original_url is None
    &&& response.error_field matches Some(field) && field@ == description
}

impl AppError for InternalAppError {
    open spec fn text(&self) -> Seq<char> {
        self@
    }

    fn message(&self) -> (text: String) {
        self.description.clone()
    }

    fn response(&self) -> (response: HttpResponse) {
        HttpResponse {
            status: StatusCode::internal_server_error(),
            location: None,
            body: Body::Empty,
            original_url: None,
            error_field: Some(ErrorField::new(self.clone())),
        }
    }
}

pub fn internal_app_error(description: String) -> (error: InternalAppError)
    ensures
        error@ == description@,
{
    InternalAppError { description }
}

/// The empty 500 that carries an error with the given description.
pub fn server_error_response(description: String) -> (response: HttpResponse)
    ensures
        is_server_error(response, description@),
{
    InternalAppError { description }.response()
}

/// What a middleware in front of a handler refuses a request for.
#[derive(Clone, Copy, Debug, PartialEq, Eq, Structural)]
pub enum MiddlewareError {
    RequireJsonFormat,
    ForAjaxReqOnly,
    AppStateMissing,
}

impl MiddlewareError {
    /// The status that stands for these errors.
    pub fn status_code(&self) -> (status: StatusCode)
        ensures
            status.value() == 400,
    {
        StatusCode::bad_request()
    }
}

impl AppError for MiddlewareError {
    open spec fn text(&self) -> Seq<char> {
        match self {
            MiddlewareError::RequireJsonFormat => "Json format required."@,
            MiddlewareError::ForAjaxReqOnly => "Only for `ajax` remote call."@,
            MiddlewareError::AppStateMissing => "App state missing."@,
        }
    }

    fn message(&self) -> (text: String) {
        match self {
            MiddlewareError::RequireJsonFormat => "Json format required.".to_owned(),
            MiddlewareError::ForAjaxReqOnly => "Only for `ajax` remote call.".to_owned(),
            MiddlewareError::AppStateMissing => "App state missing.".to_owned(),
        }
    }

    fn response(&self) -> (response: HttpResponse) {
        server_error_response(self.message())
    }
}

/// What is missing where a handler asks for a cache that was not set up.
#[derive(Clone, Copy, Debug, PartialEq, Eq, Structural)]
pub enum ExtensionError {
    DistributeCacheMissing,
    MemoryCacheMissing,
}

impl AppError for ExtensionError {
    open spec fn text(&self) -> Seq<char> {
        match self {
            ExtensionError::DistributeCacheMissing => "Distribute cache missing."@,
            ExtensionError::MemoryCacheMissing => "Memory cache missing."@,
        }
    }

    fn message(&self) -> (text: String) {
        match self {
            ExtensionError::DistributeCacheMissing => "Distribute cache missing.".to_owned(),
            ExtensionError::MemoryCacheMissing => "Memory cache missing.".to_owned(),
        }
    }

    fn response(&self) -> (response: HttpResponse) {
        server_error_response(self.message())
    }
}

/// Any error of the application as an error described in words.
pub trait AppErrorExt: AppError {
    fn as_app_error(&self) -> (error: InternalAppError)
        ensures
            error@ == self.text(),
    ;
}

impl AppErrorExt for MiddlewareError {
    fn as_app_error(&self) -> (error: InternalAppError) {
        internal_app_error(self.message())
    }
}

impl AppErrorExt for ExtensionError {
    fn as_app_error(&self) -> (error: InternalAppError) {
        internal_app_error(self.message())
    }
}

/// The response that answers a request which failed with `error`: for a
/// client that asks for JSON the failure envelope with the error's message,
/// sent with status 200; for any other client the empty 500 that carries
/// the error.
pub fn error_response<E: AppError, Q: RequestUtils>(error: &E, req: &Q) -> (response:
    HttpResponse)
    ensures
        if req.message_headers().asks_for_json() {
            response.is_failure(200, error.text())
        } else {
            is_server_error(response, error.text())
        },
{
    if req.wants_json() {
        HttpResponse::from_envelope(ServerResponse::failed(None, Some(error.message()), None))
    } else {
        error.response()
    }
}

} // verus!
