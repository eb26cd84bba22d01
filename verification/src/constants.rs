//! The header names and values that the middleware looks for, and the
//! paths of the error pages.

use vstd::prelude::*;

verus! {

/// The header by which scripts say that they made a request.
pub const REQUESTED_WITH_HEADER_NAME: &'static str = "x-requested-with";

pub const JSON_HEADER_VALUE: &'static str = "application/json";

pub const FORM_HEADER_VALUE: &'static str = "application/x-www-form-urlencoded";

pub const FORM_DATA_HEADER_VALUE: &'static str = "multipart/form-data";

pub const REQUESTED_WITH_AJAX_HEADER_VALUE: &'static str = "XMLHttpRequest";

/// `json`, which a client that wants JSON names in `Accept`.
pub const WANTS_JSON_BYTES: [u8; 4] = [106, 115, 111, 110];

/// `application/json`
pub const JSON_HEADER_VALUE_BYTES: [u8; 16] = [
    97, 112, 112, 108, 105, 99, 97, 116, 105, 111, 110, 47, 106, 115, 111, 110,
];

/// `application/x-www-form-urlencoded`
pub const FORM_HEADER_VALUE_BYTES: [u8; 33] = [
    97, 112, 112, 108, 105, 99, 97, 116, 105, 111, 110, 47, 120, 45, 119, 119, 119, 45, 102, 111,
    114, 109, 45, 117, 114, 108, 101, 110, 99, 111, 100, 101, 100,
];

/// `multipart/form-data`
pub const FORM_DATA_HEADER_VALUE_BYTES: [u8; 19] = [
    109, 117, 108, 116, 105, 112, 97, 114, 116, 47, 102, 111, 114, 109, 45, 100, 97, 116, 97,
];

/// `XMLHttpRequest`
pub const REQUESTED_WITH_AJAX_HEADER_VALUE_BYTES: [u8; 14] = [
    88, 77, 76, 72, 116, 116, 112, 82, 101, 113, 117, 101, 115, 116,
];

/// The path of the page that reports a missing resource.
pub const NOT_FOUND_REQ_PATH: &'static str = "/404";

/// The path of the page that reports a failure of the server.
pub const INTERNAL_SERVER_ERROR_REQ_PATH: &'static str = "/500";

} // verus!
