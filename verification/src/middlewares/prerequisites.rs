//! Middleware in front of handlers that take one kind of request only.

use vstd::prelude::*;

use crate::error::MiddlewareError;
use crate::features::RequestUtils;

verus! {

/// Lets through the requests whose body is JSON.
#[derive(Clone, Copy, Debug)]
pub struct RequireJson;

impl RequireJson {
    /// Whether `req` goes on to the handler.
    pub fn check<Q: RequestUtils>(&self, req: &Q) -> (r: Result<(), MiddlewareError>)
        ensures
            r == if req.message_headers().sends_json() {
                Ok::<(), MiddlewareError>(())
            } else {
                Err::<(), MiddlewareError>(MiddlewareError::RequireJsonFormat)
            },
    {
        if !req.derived_from_json() {
            return Err(MiddlewareError::RequireJsonFormat);
        }
        Ok(())
    }
}

/// Lets through the requests that a script made.
#[derive(Clone, Copy, Debug)]
pub struct ForAjaxReqOnly;

impl ForAjaxReqOnly {
    /// Whether `req` goes on to the handler.
    pub fn check<Q: RequestUtils>(&self, req: &Q) -> (r: Result<(), MiddlewareError>)
        ensures
            r == if req.message_headers().is_ajax() {
                Ok::<(), MiddlewareError>(())
            } else {
                Err::<(), MiddlewareError>(MiddlewareError::ForAjaxReqOnly)
            },
    {
        if !req.derived_from_ajax() {
            return Err(MiddlewareError::ForAjaxReqOnly);
        }
        Ok(())
    }
}

} // verus!
