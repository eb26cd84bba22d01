//! The target of a request: a path and, after a question mark, a query.

use vstd::prelude::*;

use crate::text::opt_text;

verus! {

/// The target of a request in origin form.
///
/// A target with a question mark and nothing behind it has the empty query,
/// which is not the same as having none.
#[derive(Debug)]
pub struct Uri {
    pub path: String,
    pub query: Option<String>,
}

/// A path with a query behind it: the path, a question mark and the query;
/// the path alone where there is no query.
pub open spec fn with_query(path: Seq<char>, query: Option<Seq<char>>) -> Seq<char> {
    match query {
        Some(query) => path + seq!['?'] + query,
        None => path,
    }
}

impl Uri {
    /// The target as it stands in the request line.
    pub open spec fn text(&self) -> Seq<char> {
        with_query(self.path@, opt_text(self.query))
    }

    pub fn new(path: String, query: Option<String>) -> (uri: Self)
        ensures
            uri.path == path,
            uri.query == query,
    {
        Uri { path, query }
    }

    pub fn path(&self) -> (path: &str)
        ensures
            path@ == self.path@,
    {
        self.path.as_str()
    }

    pub fn query(&self) -> (query: Option<&str>)
        ensures
            match query {
                Some(text) => self.query matches Some(own) && text@ == own@,
                None => self.query is None,
            },
    {
        match &self.query {
            Some(query) => Some(query.as_str()),
            None => None,
        }
    }

    /// The target as it stands in the request line.
    pub fn to_string(&self) -> (text: String)
        ensures
            text@ == self.text(),
    {
        join_query(self.path.as_str(), self.query())
    }
}

/// Puts `query`, where there is one, behind `path` and a question mark.
pub fn join_query(path: &str, query: Option<&str>) -> (text: String)
    ensures
        text@ == with_query(
            path@,
            match query {
                Some(query) => Some(query@),
                None => None,
            },
        ),
{
    let mut text = path.to_owned();
    match query {
        Some(query) => {
            proof {
                reveal_strlit("?");
                assert("?"@ == seq!['?']);
            }
            text.append("?");
            text.append(query);
        },
        None => {},
    }
    text
}

/// What the URI parser of the `http` crate, as ntex hands it on, says of a
/// text: `None` where it accepts the text as a URI, and otherwise the
/// sentence with which it refuses it.
pub uninterp spec fn uri_refusal(text: Seq<char>) -> Option<Seq<char>>;

/// `text` is accepted as a URI.
pub open spec fn is_uri(text: Seq<char>) -> bool {
    uri_refusal(text) is None
}

/// `str::parse::<ntex::http::Uri>`, with the error turned into its own
/// sentence: `Ok` where the text is accepted as a URI, and otherwise what
/// the error displays.
#[verifier::external_body]
pub(crate) fn check_uri(text: &str) -> (checked: Result<(), String>)
    ensures
        match checked {
            Ok(_) => uri_refusal(text@) is None,
            Err(refusal) => uri_refusal(text@) == Some(refusal@),
        },
{
    text.parse::<ntex::http::Uri>().map(|_| ()).map_err(|error| error.to_string())
}

} // verus!
