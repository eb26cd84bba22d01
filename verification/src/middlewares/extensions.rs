//! Middleware that hands the shared caches to the handlers of a request.

use vstd::prelude::*;

use crate::error::MiddlewareError;

verus! {

/// Puts the distribute cache of the application state among the extensions
/// of each request.
#[derive(Clone, Copy, Debug)]
pub struct ExtensionDistributeCache;

impl ExtensionDistributeCache {
    /// What is to be put among the extensions of a request: nothing where
    /// the cache is `present` there already, else the cache of the
    /// application state. Without that state the request fails.
    pub fn prepare<C>(&self, present: bool, app_state: Option<C>) -> (r: Result<
        Option<C>,
        MiddlewareError,
    >)
        ensures
            r == if present {
                Ok::<Option<C>, MiddlewareError>(None)
            } else {
                match app_state {
                    Some(cache) => Ok::<Option<C>, MiddlewareError>(Some(cache)),
                    None => Err::<Option<C>, MiddlewareError>(MiddlewareError::AppStateMissing),
                }
            },
    {
        if present {
            return Ok(None);
        }
        match app_state {
            Some(cache) => Ok(Some(cache)),
            None => Err(MiddlewareError::AppStateMissing),
        }
    }
}

} // verus!
