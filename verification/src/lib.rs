//! Request-path normalisation and centralised error redirection for a web
//! server, together with the small conventions around them: response
//! envelopes, query-string editing, header-derived client signals and
//! environment-variable parsing.
//!
//! Every function states what it returns as a contract over sequences of
//! characters or bytes, and Verus proves that its body keeps the contract.

pub mod constants;
pub mod env;
pub mod error;
pub mod features;
pub mod middlewares;
pub mod models;
pub mod path;
pub mod response;
pub mod text;
pub mod uri;
pub mod utils;
pub mod view_template;
