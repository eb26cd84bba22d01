//! The error centraliser: it runs after routing and turns a bare 404 or 500
//! into one answer for every client of a kind: a failure envelope for
//! clients that ask for JSON, a redirect to the error page for browsers.

use vstd::prelude::*;

use crate::constants::{INTERNAL_SERVER_ERROR_REQ_PATH, NOT_FOUND_REQ_PATH};
use crate::error::{ErrorField, InternalAppError};
use crate::features::{HttpRequest, Method, RequestUtils};
use crate::response::{
    invalid_header_value_message,
    is_header_value,
    redirect,
    HttpResponse,
    ServerResponse,
    StatusCode,
};
use crate::text::same_text;
use crate::uri::{join_query, with_query};
use crate::utils::{form_urlencoded, query_to_string, text_result, update_query, QueryMap};

verus! {

/// What a client that asks for JSON is told of a 404.
pub const NOT_FOUND_MESSAGE: &'static str = "Requested resource not found.";

/// What a client that asks for JSON is told of a 500.
pub const INTERNAL_SERVER_ERROR_MESSAGE: &'static str = "Internal Server Error.";

/// The query parameter of the error pages that names the URI that failed.
pub const PREV_URL_SEARCH_QUERY_KEY: &'static str = "prev";

/// The error centraliser.
#[derive(Clone, Copy, Debug)]
pub struct Centralization;

/// What the centraliser decided for one response.
#[derive(Debug)]
pub enum Centralized {
    /// The response of the router goes out as it is.
    Unchanged,
    /// `response` goes out in place of the response of the router.
    Replaced { response: HttpResponse },
}

/// What the status of a response means to the centraliser.
#[derive(Clone, Copy, Debug, PartialEq, Eq, Structural)]
pub enum StatusClass {
    /// 404
    NotFound,
    /// 500
    InternalServerError,
    /// Any other status: nothing to centralise.
    Other,
}

/// The class of the status with the number `status`.
pub open spec fn class_of(status: int) -> StatusClass {
    if status == 500 {
        StatusClass::InternalServerError
    } else if status == 404 {
        StatusClass::NotFound
    } else {
        StatusClass::Other
    }
}

/// The path of the error page for a status, for the two statuses that have
/// one.
pub open spec fn error_page(status: int) -> Option<Seq<char>> {
    match class_of(status) {
        StatusClass::InternalServerError => Some(INTERNAL_SERVER_ERROR_REQ_PATH@),
        StatusClass::NotFound => Some(NOT_FOUND_REQ_PATH@),
        StatusClass::Other => None,
    }
}

/// The message of the failure envelope for a status.
pub open spec fn error_message(status: int) -> Seq<char> {
    match class_of(status) {
        StatusClass::InternalServerError => INTERNAL_SERVER_ERROR_MESSAGE@,
        _ => NOT_FOUND_MESSAGE@,
    }
}

impl StatusClass {
    /// The class of `status`.
    pub fn of(status: StatusCode) -> (class: StatusClass)
        ensures
            class == class_of(status.value() as int),
    {
        let code: u16 = status.as_u16();
        if code == 500 {
            StatusClass::InternalServerError
        } else if code == 404 {
            StatusClass::NotFound
        } else {
            StatusClass::Other
        }
    }
}

/// `path` is the path of one of the two error pages.
pub open spec fn is_error_page(path: Seq<char>) -> bool {
    path == NOT_FOUND_REQ_PATH@ || path == INTERNAL_SERVER_ERROR_REQ_PATH@
}

/// The response is one that the centraliser takes up: a 404 or a 500 to a
/// request for anything but an error page.
pub open spec fn is_taken_up(status: int, path: Seq<char>) -> bool {
    error_page(status) is Some && !is_error_page(path)
}

/// The target of the redirect to the error page at `page`: the page with
/// the encoded parameters behind it, or the page alone where there are
/// none or they could not be encoded.
pub open spec fn error_page_target(page: Seq<char>, encoded: Result<Seq<char>, Seq<char>>) -> Seq<
    char,
> {
    match encoded {
        Ok(query) if query.len() > 0 => with_query(page, Some(query)),
        _ => page,
    }
}

/// The target of the redirect for a request for `uri` that was answered
/// with `status`.
pub open spec fn redirect_target(status: int, uri: Seq<char>) -> Seq<char> {
    error_page_target(
        error_page(status).unwrap(),
        form_urlencoded(seq![(PREV_URL_SEARCH_QUERY_KEY@, uri)]),
    )
}

/// A redirect to `location` with the given status, which carries
/// `original_url` and the error that the response of the router carried.
pub open spec fn is_error_redirect(
    response: HttpResponse,
    status: int,
    location: Seq<char>,
    original_url: Seq<char>,
    error_field: Option<ErrorField>,
) -> bool {
    &&& response.status.value() == status
    &&& response.location matches Some(target) && target@ == location
    &&& response.body is Empty
    &&& response.original_url matches Some(kept) && kept@ == original_url
    &&& response.error_field == error_field
}

/// Puts the encoded parameters, where there are any, behind the path of an
/// error page.
pub fn error_page_location(page: &str, encoded: Result<String, InternalAppError>) -> (target:
    String)
    ensures
        target@ == error_page_target(page@, text_result(encoded)),
{
    match encoded {
        Ok(query) => {
            if !query.as_str().is_empty() {
                join_query(page, Some(query.as_str()))
            } else {
                page.to_owned()
            }
        },
        Err(_) => page.to_owned(),
    }
}

/// `r` is what the centraliser decides for `req`, which the router
/// answered with `status` and the error in `error_field`, where redirects
/// are asked to go out with `redirect_status`.
pub open spec fn centralized(
    req: &HttpRequest,
    status: StatusCode,
    error_field: Option<ErrorField>,
    redirect_status: Option<u16>,
    r: Result<Centralized, InternalAppError>,
) -> bool {
    let code = status.value() as int;
    let target = redirect_target(code, req.uri.text());
    match r {
        Ok(Centralized::Unchanged) => {
            ||| !is_taken_up(code, req.uri.path@)
            ||| !req.headers.asks_for_json() && (req.headers.is_ajax() || req.method
                != Method::Get)
        },
        Ok(Centralized::Replaced { response }) => {
            &&& is_taken_up(code, req.uri.path@)
            &&& if req.headers.asks_for_json() {
                response.is_failure(code, error_message(code))
            } else {
                &&& !req.headers.is_ajax()
                &&& req.method == Method::Get
                &&& is_header_value(target)
                &&& is_error_redirect(
                    response,
                    crate::response::redirect_status(redirect_status),
                    target,
                    req.uri.text(),
                    error_field,
                )
            }
        },
        Err(error) => {
            &&& is_taken_up(code, req.uri.path@)
            &&& !req.headers.asks_for_json()
            &&& !req.headers.is_ajax()
            &&& req.method == Method::Get
            &&& !is_header_value(target)
            &&& error@ == invalid_header_value_message()
        },
    }
}

impl Centralization {
    /// Decides what goes out for `req`, which the router answered with
    /// `status` and, possibly, the error in `error_field`.
    ///
    /// Only a 404 or a 500 to a request for anything but an error page is
    /// taken up. A client that asks for JSON gets the failure envelope with
    /// that status. Any other `GET` that no script made is redirected with
    /// status 302 to the error page, with the URI that failed as the
    /// parameter `prev` and as the original URL; the redirect keeps the
    /// error. Every other response goes out as it is. The redirect fails
    /// where no header can hold its target.
    pub fn centralize(
        &self,
        req: &HttpRequest,
        status: StatusCode,
        error_field: Option<ErrorField>,
    ) -> (r: Result<Centralized, InternalAppError>)
        ensures
            centralized(req, status, error_field, None, r),
    {
        self.centralize_with(req, status, error_field, None)
    }

    /// Decides as [`Centralization::centralize`] does, with redirects going
    /// out with `redirect_status` where that is a status code.
    pub fn centralize_with(
        &self,
        req: &HttpRequest,
        status: StatusCode,
        error_field: Option<ErrorField>,
        redirect_status: Option<u16>,
    ) -> (r: Result<Centralized, InternalAppError>)
        ensures
            centralized(req, status, error_field, redirect_status, r),
    {
        let (page, message) = match StatusClass::of(status) {
            StatusClass::InternalServerError => {
                (INTERNAL_SERVER_ERROR_REQ_PATH, INTERNAL_SERVER_ERROR_MESSAGE)
            },
            StatusClass::NotFound => (NOT_FOUND_REQ_PATH, NOT_FOUND_MESSAGE),
            StatusClass::Other => {
                return Ok(Centralized::Unchanged);
            },
        };
        if same_text(req.uri.path(), NOT_FOUND_REQ_PATH) || same_text(
            req.uri.path(),
            INTERNAL_SERVER_ERROR_REQ_PATH,
        ) {
            return Ok(Centralized::Unchanged);
        }
        if req.wants_json() {
            let envelope = ServerResponse::failed(
                None,
                Some(message.to_owned()),
                Some(status.as_u16()),
            );
            return Ok(Centralized::Replaced { response: HttpResponse::from_envelope(envelope) });
        }
        if req.derived_from_ajax() || req.method != Method::Get {
            return Ok(Centralized::Unchanged);
        }
        let origin = req.uri.to_string();
        let mut query_map = QueryMap::new();
        update_query(&mut query_map, PREV_URL_SEARCH_QUERY_KEY.to_owned(), Some(origin.clone()));
        proof {
            assert(query_map@ == seq![(PREV_URL_SEARCH_QUERY_KEY@, origin@)]);
        }
        let target = error_page_location(page, query_to_string(query_map));
        match redirect(target.as_str(), Some(origin), redirect_status) {
            Ok(found) => Ok(
                Centralized::Replaced {
                    response: HttpResponse {
                        status: found.status,
                        location: found.location,
                        body: found.body,
                        original_url: found.original_url,
                        error_field,
                    },
                },
            ),
            Err(error) => Err(error),
        }
    }

    /// A response to a request for an error page goes out as it is,
    /// whatever its status and whoever asks: the centraliser does not
    /// redirect away from the pages that it redirects to.
    pub proof fn lemma_error_pages_pass(
        req: &HttpRequest,
        status: StatusCode,
        error_field: Option<ErrorField>,
        redirect_status: Option<u16>,
        r: Result<Centralized, InternalAppError>,
    )
        requires
            centralized(req, status, error_field, redirect_status, r),
            is_error_page(req.uri.path@),
        ensures
            r == Ok::<Centralized, InternalAppError>(Centralized::Unchanged),
    {
    }

    /// A response with any status but 404 and 500 goes out as it is.
    pub proof fn lemma_other_statuses_pass(
        req: &HttpRequest,
        status: StatusCode,
        error_field: Option<ErrorField>,
        redirect_status: Option<u16>,
        r: Result<Centralized, InternalAppError>,
    )
        requires
            centralized(req, status, error_field, redirect_status, r),
            status.value() != 404,
            status.value() != 500,
        ensures
            r == Ok::<Centralized, InternalAppError>(Centralized::Unchanged),
    {
    }

    /// What a script asked for, and what was asked for by any method but
    /// `GET`, is never redirected: such a response goes out as it is, or
    /// as the failure envelope where the client asks for JSON.
    pub proof fn lemma_only_pages_are_redirected(
        req: &HttpRequest,
        status: StatusCode,
        error_field: Option<ErrorField>,
        redirect_status: Option<u16>,
        r: Result<Centralized, InternalAppError>,
    )
        requires
            centralized(req, status, error_field, redirect_status, r),
            req.headers.is_ajax() || req.method != Method::Get,
        ensures
            match r {
                Ok(Centralized::Unchanged) => true,
                Ok(Centralized::Replaced { response }) => req.headers.asks_for_json()
                    && response.location is None && response.original_url is None,
                Err(_) => false,
            },
    {
    }
}

} // verus!
