//! What a request says of its client, read from its headers, and the query
//! parameters of its target.

use vstd::prelude::*;

use crate::constants::{
    FORM_DATA_HEADER_VALUE_BYTES,
    FORM_HEADER_VALUE_BYTES,
    JSON_HEADER_VALUE_BYTES,
    REQUESTED_WITH_AJAX_HEADER_VALUE_BYTES,
    WANTS_JSON_BYTES,
};
use crate::error::InternalAppError;
use crate::text::{opt_text, strings_view};
use crate::uri::Uri;
use crate::utils;
use crate::utils::{
    form_urldecoded,
    form_urlencoded,
    map_result,
    pairs_view,
    parse_query,
    query_parameters,
    text_result,
    updated,
    with_pairs,
    without_keys,
    QueryMap,
};

verus! {

/// The method of a request.
#[derive(Clone, Copy, Debug, PartialEq, Eq, Structural)]
pub enum Method {
    Get,
    Head,
    Post,
    Put,
    Delete,
    Connect,
    Options,
    Trace,
    Patch,
    /// Any method without a name of its own here.
    Extension,
}

/// The headers of a message that say what kind of client sent it. Each field
/// holds the values of one header, in the order in which they came.
#[derive(Debug)]
pub struct MessageHeaders {
    /// `Accept`
    pub accept: Vec<Vec<u8>>,
    /// `Content-Type`
    pub content_type: Vec<Vec<u8>>,
    /// `X-Requested-With`
    pub requested_with: Vec<Vec<u8>>,
}

/// A request as the middleware sees it.
#[derive(Debug)]
pub struct HttpRequest {
    pub method: Method,
    pub uri: Uri,
    pub headers: MessageHeaders,
}

/// The bytes of each value of a header.
pub open spec fn values_view(values: Seq<Vec<u8>>) -> Seq<Seq<u8>> {
    Seq::new(values.len(), |i: int| values[i]@)
}

/// `needle` stands in `haystack` from the place `at` on.
pub open spec fn occurs_at(haystack: Seq<u8>, needle: Seq<u8>, at: int) -> bool {
    0 <= at && at + needle.len() <= haystack.len() && haystack.subrange(at, at + needle.len())
        == needle
}

/// `needle` stands somewhere in `haystack`.
pub open spec fn contains_bytes(haystack: Seq<u8>, needle: Seq<u8>) -> bool {
    exists|at: int| occurs_at(haystack, needle, at)
}

/// The byte with an upper-case ASCII letter made lower case.
pub open spec fn ascii_lower(byte: u8) -> u8 {
    if 65 <= byte <= 90 {
        (byte + 32) as u8
    } else {
        byte
    }
}

/// The bytes with every upper-case ASCII letter made lower case.
pub open spec fn lowered(bytes: Seq<u8>) -> Seq<u8> {
    Seq::new(bytes.len(), |i: int| ascii_lower(bytes[i]))
}

/// `target` stands in `value`, with the case of ASCII letters left aside
/// where `ignore_case` says so.
pub open spec fn value_contains(value: Seq<u8>, target: Seq<u8>, ignore_case: bool) -> bool {
    if ignore_case {
        contains_bytes(lowered(value), lowered(target))
    } else {
        contains_bytes(value, target)
    }
}

/// `target` stands in one of `values`.
pub open spec fn any_value_contains(values: Seq<Seq<u8>>, target: Seq<u8>, ignore_case: bool)
    -> bool {
    exists|i: int| 0 <= i < values.len() && value_contains(#[trigger] values[i], target, ignore_case)
}

/// One of `values` is `target`, the case of ASCII letters left aside.
pub open spec fn any_value_is(values: Seq<Seq<u8>>, target: Seq<u8>) -> bool {
    exists|i: int| 0 <= i < values.len() && lowered(#[trigger] values[i]) == lowered(target)
}

/// `memchr::memmem::find`: the first place from which on the needle stands
/// in the haystack, or `None` where it stands nowhere in it.
#[verifier::external_body]
fn find(haystack: &[u8], needle: &[u8]) -> (found: Option<usize>)
    ensures
        match found {
            Some(at) => occurs_at(haystack@, needle@, at as int) && forall|earlier: int|
                0 <= earlier < at ==> !occurs_at(haystack@, needle@, earlier),
            None => !contains_bytes(haystack@, needle@),
        },
{
    memchr::memmem::find(haystack, needle)
}

/// The bytes with every upper-case ASCII letter made lower case.
pub fn to_ascii_lowercase(bytes: &[u8]) -> (lower: Vec<u8>)
    ensures
        lower@ == lowered(bytes@),
{
    let mut lower: Vec<u8> = Vec::new();
    let mut i: usize = 0;
    while i < bytes.len()
        invariant
            i <= bytes.len(),
            lower@ == lowered(bytes@.take(i as int)),
        decreases bytes.len() - i,
    {
        let byte: u8 = bytes[i];
        let lowered_byte: u8 = if 65 <= byte && byte <= 90 {
            byte + 32
        } else {
            byte
        };
        lower.push(lowered_byte);
        proof {
            assert(lower@ == lowered(bytes@.take(i + 1)));
        }
        i += 1;
    }
    proof {
        assert(bytes@.take(i as int) == bytes@);
    }
    lower
}

/// Whether `target` stands in `value`.
fn value_has(value: &[u8], target: &[u8], ignore_case: bool) -> (has: bool)
    ensures
        has == value_contains(value@, target@, ignore_case),
{
    if ignore_case {
        let lower_target = to_ascii_lowercase(target);
        let lower_value = to_ascii_lowercase(value);
        find(lower_value.as_slice(), lower_target.as_slice()).is_some()
    } else {
        find(value, target).is_some()
    }
}

/// Whether `target` stands in one of the values of a header.
pub fn header_contains(values: &Vec<Vec<u8>>, target: &[u8], ignore_case: bool) -> (contains: bool)
    ensures
        contains == any_value_contains(values_view(values@), target@, ignore_case),
{
    let mut i: usize = 0;
    while i < values.len()
        invariant
            i <= values.len(),
            forall|j: int|
                0 <= j < i ==> !value_contains(
                    #[trigger] values_view(values@)[j],
                    target@,
                    ignore_case,
                ),
        decreases values.len() - i,
    {
        if value_has(values[i].as_slice(), target, ignore_case) {
            proof {
                assert(value_contains(values_view(values@)[i as int], target@, ignore_case));
            }
            return true;
        }
        i += 1;
    }
    false
}

/// Whether both hold the same bytes.
fn same_bytes(a: &Vec<u8>, b: &Vec<u8>) -> (same: bool)
    ensures
        same == (a@ == b@),
{
    if a.len() != b.len() {
        return false;
    }
    let mut i: usize = 0;
    while i < a.len()
        invariant
            i <= a.len(),
            a.len() == b.len(),
            forall|j: int| 0 <= j < i ==> a@[j] == b@[j],
        decreases a.len() - i,
    {
        if a[i] != b[i] {
            return false;
        }
        i += 1;
    }
    proof {
        assert(a@ =~= b@);
    }
    true
}

/// Whether one of the values of a header is `target`, the case of ASCII
/// letters left aside.
pub fn header_is(values: &Vec<Vec<u8>>, target: &[u8]) -> (is: bool)
    ensures
        is == any_value_is(values_view(values@), target@),
{
    let lower_target = to_ascii_lowercase(target);
    let mut i: usize = 0;
    while i < values.len()
        invariant
            i <= values.len(),
            lower_target@ == lowered(target@),
            forall|j: int|
                0 <= j < i ==> lowered(#[trigger] values_view(values@)[j]) != lowered(target@),
        decreases values.len() - i,
    {
        let lower_value = to_ascii_lowercase(values[i].as_slice());
        if same_bytes(&lower_value, &lower_target) {
            proof {
                assert(lowered(values_view(values@)[i as int]) == lowered(target@));
            }
            return true;
        }
        i += 1;
    }
    false
}

impl MessageHeaders {
    /// No header of the three was sent.
    pub fn new() -> (headers: Self)
        ensures
            headers.accept@.len() == 0,
            headers.content_type@.len() == 0,
            headers.requested_with@.len() == 0,
    {
        MessageHeaders { accept: Vec::new(), content_type: Vec::new(), requested_with: Vec::new() }
    }

    /// The client asks for JSON: `json` stands in a value of `Accept`.
    pub open spec fn asks_for_json(&self) -> bool {
        any_value_contains(values_view(self.accept@), WANTS_JSON_BYTES@, false)
    }

    /// The body is JSON: `application/json` stands in a value of
    /// `Content-Type`.
    pub open spec fn sends_json(&self) -> bool {
        any_value_contains(values_view(self.content_type@), JSON_HEADER_VALUE_BYTES@, false)
    }

    /// The body is a form: `application/x-www-form-urlencoded` stands in a
    /// value of `Content-Type`, in whatever case.
    pub open spec fn sends_form(&self) -> bool {
        any_value_contains(values_view(self.content_type@), FORM_HEADER_VALUE_BYTES@, true)
    }

    /// The body is form data: `multipart/form-data` stands in a value of
    /// `Content-Type`.
    pub open spec fn sends_form_data(&self) -> bool {
        any_value_contains(values_view(self.content_type@), FORM_DATA_HEADER_VALUE_BYTES@, false)
    }

    /// The request was made by a script: a value of `X-Requested-With` is
    /// `XMLHttpRequest`, in whatever case.
    pub open spec fn is_ajax(&self) -> bool {
        any_value_is(values_view(self.requested_with@), REQUESTED_WITH_AJAX_HEADER_VALUE_BYTES@)
    }
}

/// What the headers of a message say of the client that sent it.
pub trait RequestUtils {
    /// The headers that the answers are read from.
    spec fn message_headers(&self) -> MessageHeaders;

    /// Whether the client asks for JSON.
    fn wants_json(&self) -> (wants: bool)
        ensures
            wants == self.message_headers().asks_for_json(),
    ;

    /// Whether the body is JSON.
    fn derived_from_json(&self) -> (derived: bool)
        ensures
            derived == self.message_headers().sends_json(),
    ;

    /// Whether the body is a form.
    fn derived_from_form(&self) -> (derived: bool)
        ensures
            derived == self.message_headers().sends_form(),
    ;

    /// Whether the body is form data.
    fn derived_from_form_data(&self) -> (derived: bool)
        ensures
            derived == self.message_headers().sends_form_data(),
    ;

    /// Whether a script made the request.
    fn derived_from_ajax(&self) -> (derived: bool)
        ensures
            derived == self.message_headers().is_ajax(),
    ;
}

impl RequestUtils for MessageHeaders {
    open spec fn message_headers(&self) -> MessageHeaders {
        *self
    }

    fn wants_json(&self) -> (wants: bool) {
        header_contains(&self.accept, &WANTS_JSON_BYTES, false)
    }

    fn derived_from_json(&self) -> (derived: bool) {
        header_contains(&self.content_type, &JSON_HEADER_VALUE_BYTES, false)
    }

    fn derived_from_form(&self) -> (derived: bool) {
        header_contains(&self.content_type, &FORM_HEADER_VALUE_BYTES, true)
    }

    fn derived_from_form_data(&self) -> (derived: bool) {
        header_contains(&self.content_type, &FORM_DATA_HEADER_VALUE_BYTES, false)
    }

    fn derived_from_ajax(&self) -> (derived: bool) {
        header_is(&self.requested_with, &REQUESTED_WITH_AJAX_HEADER_VALUE_BYTES)
    }
}

impl RequestUtils for HttpRequest {
    open spec fn message_headers(&self) -> MessageHeaders {
        self.headers
    }

    fn wants_json(&self) -> (wants: bool) {
        self.headers.wants_json()
    }

    fn derived_from_json(&self) -> (derived: bool) {
        self.headers.derived_from_json()
    }

    fn derived_from_form(&self) -> (derived: bool) {
        self.headers.derived_from_form()
    }

    fn derived_from_form_data(&self) -> (derived: bool) {
        self.headers.derived_from_form_data()
    }

    fn derived_from_ajax(&self) -> (derived: bool) {
        self.headers.derived_from_ajax()
    }
}

/// The parameters that the query of a target holds, or the sentence with
/// which the query is refused. A target without a query has none.
pub open spec fn parameters_of(query: Option<Seq<char>>) -> Result<
    Seq<(Seq<char>, Seq<char>)>,
    Seq<char>,
> {
    match query {
        Some(query) => query_parameters(form_urldecoded(query)),
        None => Ok(Seq::empty()),
    }
}

/// `edit` applied to the parameters, where there are parameters.
pub open spec fn edited(
    parameters: Result<Seq<(Seq<char>, Seq<char>)>, Seq<char>>,
    edit: spec_fn(Seq<(Seq<char>, Seq<char>)>) -> Seq<(Seq<char>, Seq<char>)>,
) -> Result<Seq<(Seq<char>, Seq<char>)>, Seq<char>> {
    match parameters {
        Ok(pairs) => Ok(edit(pairs)),
        Err(refusal) => Err(refusal),
    }
}

/// The query parameters of a target, read and edited. The target itself is
/// never changed: each function hands back the parameters it arrived at.
pub trait UriUtils: Sized {
    /// The query of the target.
    spec fn query_text(&self) -> Option<Seq<char>>;

    /// The parameters of the query.
    fn query_map(&self) -> (r: Result<QueryMap, InternalAppError>)
        ensures
            map_result(r) == parameters_of(self.query_text()),
    ;

    /// The parameters of the query after `key` was given `value`, or was
    /// taken out where there is no value.
    fn update_query(&mut self, key: String, value: Option<String>) -> (r: Result<
        QueryMap,
        InternalAppError,
    >)
        ensures
            *final(self) == *old(self),
            map_result(r) == edited(
                parameters_of(old(self).query_text()),
                |pairs: Seq<(Seq<char>, Seq<char>)>| updated(pairs, key@, opt_text(value)),
            ),
    ;

    /// The parameters of the query after each pair of `target_query_map`
    /// was put into them, first to last.
    fn update_query_map(&mut self, target_query_map: Vec<(String, String)>) -> (r: Result<
        QueryMap,
        InternalAppError,
    >)
        ensures
            *final(self) == *old(self),
            map_result(r) == edited(
                parameters_of(old(self).query_text()),
                |pairs: Seq<(Seq<char>, Seq<char>)>|
                    with_pairs(pairs, pairs_view(target_query_map@)),
            ),
    ;

    /// The parameters of the query after each key of `keys` was taken out.
    fn remove_query(&mut self, keys: Vec<String>) -> (r: Result<QueryMap, InternalAppError>)
        ensures
            *final(self) == *old(self),
            map_result(r) == edited(
                parameters_of(old(self).query_text()),
                |pairs: Seq<(Seq<char>, Seq<char>)>| without_keys(pairs, strings_view(keys@)),
            ),
    ;
}

impl UriUtils for Uri {
    open spec fn query_text(&self) -> Option<Seq<char>> {
        opt_text(self.query)
    }

    fn query_map(&self) -> (r: Result<QueryMap, InternalAppError>) {
        parse_query(self.query())
    }

    fn update_query(&mut self, key: String, value: Option<String>) -> (r: Result<
        QueryMap,
        InternalAppError,
    >) {
        match self.query_map() {
            Ok(mut query_map) => {
                utils::update_query(&mut query_map, key, value);
                Ok(query_map)
            },
            Err(error) => Err(error),
        }
    }

    fn update_query_map(&mut self, target_query_map: Vec<(String, String)>) -> (r: Result<
        QueryMap,
        InternalAppError,
    >) {
        match self.query_map() {
            Ok(mut query_map) => {
                utils::update_query_map(&mut query_map, target_query_map);
                Ok(query_map)
            },
            Err(error) => Err(error),
        }
    }

    fn remove_query(&mut self, keys: Vec<String>) -> (r: Result<QueryMap, InternalAppError>) {
        match self.query_map() {
            Ok(mut query_map) => {
                utils::remove_query(&mut query_map, keys);
                Ok(query_map)
            },
            Err(error) => Err(error),
        }
    }
}

/// The query string of a request, read and extended.
pub trait HttpRequestExt {
    /// The query of the request.
    spec fn query_text(&self) -> Option<Seq<char>>;

    /// The parameters of the query.
    fn query(&self) -> (r: Result<QueryMap, InternalAppError>)
        ensures
            map_result(r) == parameters_of(self.query_text()),
    ;

    /// The query string that holds the parameters of the query and, put
    /// into them first to last, those of `query_params`.
    fn extend_query_string(&self, query_params: Vec<(String, String)>) -> (r: Result<
        String,
        InternalAppError,
    >)
        ensures
            text_result(r) == match parameters_of(self.query_text()) {
                Ok(pairs) => form_urlencoded(with_pairs(pairs, pairs_view(query_params@))),
                Err(refusal) => Err(refusal),
            },
    ;

    /// The query string that holds the parameters of `input`.
    fn query_to_string(input: QueryMap) -> (r: Result<String, InternalAppError>)
        ensures
            text_result(r) == form_urlencoded(input@),
    ;
}

impl HttpRequestExt for HttpRequest {
    open spec fn query_text(&self) -> Option<Seq<char>> {
        opt_text(self.uri.query)
    }

    fn query(&self) -> (r: Result<QueryMap, InternalAppError>) {
        parse_query(self.uri.query())
    }

    fn extend_query_string(&self, query_params: Vec<(String, String)>) -> (r: Result<
        String,
        InternalAppError,
    >) {
        match self.query() {
            Ok(mut query_map) => {
                utils::update_query_map(&mut query_map, query_params);
                Self::query_to_string(query_map)
            },
            Err(error) => Err(error),
        }
    }

    fn query_to_string(input: QueryMap) -> (r: Result<String, InternalAppError>) {
        utils::query_to_string(input)
    }
}

} // verus!
