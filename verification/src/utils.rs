//! Helpers shared by the middleware: status codes from numbers and the
//! editing of query strings.

use vstd::prelude::*;

use crate::error::InternalAppError;
use crate::response::StatusCode;
use crate::text::{opt_text, same_text, strings_view};

verus! {

/// The status code with the number `status_code`, where there is one.
pub fn parse_into_status_code(status_code: u16) -> (status: Option<StatusCode>)
    ensures
        status is Some <==> 100 <= status_code <= 999,
        status matches Some(s) ==> s.value() == status_code,
{
    StatusCode::from_u16(status_code)
}

/// The characters of each key and value of a list of pairs.
pub open spec fn pairs_view(pairs: Seq<(String, String)>) -> Seq<(Seq<char>, Seq<char>)> {
    Seq::new(pairs.len(), |i: int| (pairs[i].0@, pairs[i].1@))
}

/// No key stands twice in `pairs`.
pub open spec fn keys_distinct(pairs: Seq<(Seq<char>, Seq<char>)>) -> bool {
    forall|i: int, j: int|
        0 <= i < j < pairs.len() ==> (#[trigger] pairs[i]).0 != (#[trigger] pairs[j]).0
}

/// `key` stands in `pairs`.
pub open spec fn has_key(pairs: Seq<(Seq<char>, Seq<char>)>, key: Seq<char>) -> bool {
    exists|i: int| 0 <= i < pairs.len() && (#[trigger] pairs[i]).0 == key
}

/// A place at which `key` stands in `pairs`, where it stands in it.
pub open spec fn key_index(pairs: Seq<(Seq<char>, Seq<char>)>, key: Seq<char>) -> int {
    choose|i: int| 0 <= i < pairs.len() && (#[trigger] pairs[i]).0 == key
}

/// `pairs` with `value` under `key`: in place of the value that `key` had, or
/// behind the last pair where `key` is new.
pub open spec fn with_pair(
    pairs: Seq<(Seq<char>, Seq<char>)>,
    key: Seq<char>,
    value: Seq<char>,
) -> Seq<(Seq<char>, Seq<char>)> {
    if has_key(pairs, key) {
        pairs.update(key_index(pairs, key), (key, value))
    } else {
        pairs.push((key, value))
    }
}

/// `pairs` without the pair of `key`.
pub open spec fn without_key(pairs: Seq<(Seq<char>, Seq<char>)>, key: Seq<char>) -> Seq<
    (Seq<char>, Seq<char>),
> {
    if has_key(pairs, key) {
        pairs.remove(key_index(pairs, key))
    } else {
        pairs
    }
}

/// `pairs` after `key` was given `value`, or was taken out where there is no
/// value.
pub open spec fn updated(
    pairs: Seq<(Seq<char>, Seq<char>)>,
    key: Seq<char>,
    value: Option<Seq<char>>,
) -> Seq<(Seq<char>, Seq<char>)> {
    match value {
        Some(value) => with_pair(pairs, key, value),
        None => without_key(pairs, key),
    }
}

/// `pairs` after each pair of `more` was put into it, first to last.
pub open spec fn with_pairs(
    pairs: Seq<(Seq<char>, Seq<char>)>,
    more: Seq<(Seq<char>, Seq<char>)>,
) -> Seq<(Seq<char>, Seq<char>)>
    decreases more.len(),
{
    if more.len() == 0 {
        pairs
    } else {
        with_pair(with_pairs(pairs, more.drop_last()), more.last().0, more.last().1)
    }
}

/// `pairs` after each key of `keys` was taken out of it.
pub open spec fn without_keys(pairs: Seq<(Seq<char>, Seq<char>)>, keys: Seq<Seq<char>>) -> Seq<
    (Seq<char>, Seq<char>),
>
    decreases keys.len(),
{
    if keys.len() == 0 {
        pairs
    } else {
        without_key(without_keys(pairs, keys.drop_last()), keys.last())
    }
}

/// The value that `key` has in `pairs`, where it has one.
pub open spec fn value_of(pairs: Seq<(Seq<char>, Seq<char>)>, key: Seq<char>) -> Option<
    Seq<char>,
> {
    if has_key(pairs, key) {
        Some(pairs[key_index(pairs, key)].1)
    } else {
        None
    }
}

/// Where keys are distinct, a key stands at one place only.
pub proof fn lemma_key_index_is_unique(
    pairs: Seq<(Seq<char>, Seq<char>)>,
    key: Seq<char>,
    at: int,
)
    requires
        keys_distinct(pairs),
        0 <= at < pairs.len(),
        pairs[at].0 == key,
    ensures
        has_key(pairs, key),
        key_index(pairs, key) == at,
{
    let found = key_index(pairs, key);
    if found < at {
        assert(pairs[found].0 != pairs[at].0);
    } else if at < found {
        assert(pairs[at].0 != pairs[found].0);
    }
}

/// Giving a key a value keeps keys distinct; the key then has that value,
/// and every other key has what it had.
pub proof fn lemma_with_pair(
    pairs: Seq<(Seq<char>, Seq<char>)>,
    key: Seq<char>,
    value: Seq<char>,
    other: Seq<char>,
)
    requires
        keys_distinct(pairs),
    ensures
        keys_distinct(with_pair(pairs, key, value)),
        value_of(with_pair(pairs, key, value), key) == Some(value),
        other != key ==> value_of(with_pair(pairs, key, value), other) == value_of(pairs, other),
{
    let after = with_pair(pairs, key, value);
    if has_key(pairs, key) {
        let at = key_index(pairs, key);
        assert forall|i: int, j: int| 0 <= i < j < after.len() implies (#[trigger] after[i]).0
            != (#[trigger] after[j]).0 by {
            assert(after[i].0 == pairs[i].0);
            assert(after[j].0 == pairs[j].0);
        }
        lemma_key_index_is_unique(after, key, at);
        if other != key && has_key(pairs, other) {
            let there = key_index(pairs, other);
            assert(after[there] == pairs[there]);
            lemma_key_index_is_unique(after, other, there);
        }
        if other != key && has_key(after, other) {
            let there = key_index(after, other);
            assert(pairs[there].0 == other);
        }
    } else {
        let at = pairs.len() as int;
        assert forall|i: int, j: int| 0 <= i < j < after.len() implies (#[trigger] after[i]).0
            != (#[trigger] after[j]).0 by {
            if j < at {
                assert(after[i] == pairs[i]);
                assert(after[j] == pairs[j]);
            } else {
                assert(after[i] == pairs[i]);
            }
        }
        lemma_key_index_is_unique(after, key, at);
        if other != key && has_key(pairs, other) {
            let there = key_index(pairs, other);
            assert(after[there] == pairs[there]);
            lemma_key_index_is_unique(after, other, there);
        }
        if other != key && has_key(after, other) {
            let there = key_index(after, other);
            assert(after[there] == pairs[there]);
        }
    }
}

/// Taking a key out keeps keys distinct; the key then has no value, and
/// every other key has what it had.
pub proof fn lemma_without_key(
    pairs: Seq<(Seq<char>, Seq<char>)>,
    key: Seq<char>,
    other: Seq<char>,
)
    requires
        keys_distinct(pairs),
    ensures
        keys_distinct(without_key(pairs, key)),
        value_of(without_key(pairs, key), key) is None,
        other != key ==> value_of(without_key(pairs, key), other) == value_of(pairs, other),
{
    let after = without_key(pairs, key);
    if has_key(pairs, key) {
        let at = key_index(pairs, key);
        let shifted = |i: int|
            if i < at {
                i
            } else {
                i + 1
            };
        assert forall|i: int| 0 <= i < after.len() implies #[trigger] after[i] == pairs[shifted(
            i,
        )] by {}
        assert forall|i: int, j: int| 0 <= i < j < after.len() implies (#[trigger] after[i]).0
            != (#[trigger] after[j]).0 by {
            assert(after[i] == pairs[shifted(i)]);
            assert(after[j] == pairs[shifted(j)]);
            assert(pairs[shifted(i)].0 != pairs[shifted(j)].0);
        }
        if has_key(after, key) {
            let there = key_index(after, key);
            assert(after[there] == pairs[shifted(there)]);
            lemma_key_index_is_unique(pairs, key, shifted(there));
        }
        if other != key && has_key(pairs, other) {
            let there = key_index(pairs, other);
            let moved = if there < at {
                there
            } else {
                there - 1
            };
            assert(after[moved] == pairs[shifted(moved)]);
            lemma_key_index_is_unique(after, other, moved);
        }
        if other != key && has_key(after, other) {
            let there = key_index(after, other);
            assert(after[there] == pairs[shifted(there)]);
            lemma_key_index_is_unique(pairs, other, shifted(there));
        }
    }
}

/// The parameters of a query string: pairs of a key and its value, in the
/// order in which the keys came, each key once.
#[derive(Debug)]
pub struct QueryMap {
    pairs: Vec<(String, String)>,
}

impl View for QueryMap {
    type V = Seq<(Seq<char>, Seq<char>)>;

    closed spec fn view(&self) -> Seq<(Seq<char>, Seq<char>)> {
        pairs_view(self.pairs@)
    }
}

impl QueryMap {
    #[verifier::type_invariant]
    spec fn each_key_once(self) -> bool {
        keys_distinct(pairs_view(self.pairs@))
    }

    /// The map without parameters.
    pub fn new() -> (query_map: Self)
        ensures
            query_map@ == Seq::<(Seq<char>, Seq<char>)>::empty(),
    {
        QueryMap { pairs: Vec::new() }
    }

    /// The number of parameters.
    pub fn len(&self) -> (len: usize)
        ensures
            len == self@.len(),
            keys_distinct(self@),
    {
        proof {
            use_type_invariant(self);
        }
        self.pairs.len()
    }

    fn position(&self, key: &str) -> (at: Option<usize>)
        ensures
            keys_distinct(self@),
            match at {
                Some(at) => at < self@.len() && self@[at as int].0 == key@ && has_key(self@, key@)
                    && key_index(self@, key@) == at,
                None => !has_key(self@, key@),
            },
    {
        proof {
            use_type_invariant(self);
        }
        let mut i: usize = 0;
        while i < self.pairs.len()
            invariant
                i <= self.pairs.len(),
                keys_distinct(pairs_view(self.pairs@)),
                forall|j: int| 0 <= j < i ==> (#[trigger] pairs_view(self.pairs@)[j]).0 != key@,
            decreases self.pairs.len() - i,
        {
            if same_text(self.pairs[i].0.as_str(), key) {
                proof {
                    lemma_key_index_is_unique(pairs_view(self.pairs@), key@, i as int);
                }
                return Some(i);
            }
            i += 1;
        }
        None
    }

    /// The value of `key`, where it has one.
    pub fn get(&self, key: &str) -> (value: Option<&str>)
        ensures
            match value {
                Some(value) => value_of(self@, key@) == Some(value@),
                None => value_of(self@, key@) is None,
            },
    {
        match self.position(key) {
            Some(at) => Some(self.pairs[at].1.as_str()),
            None => None,
        }
    }

    /// Empties the map and hands its pairs out, so that they can be edited
    /// and put back.
    fn take_pairs(&mut self) -> (pairs: Vec<(String, String)>)
        ensures
            pairs_view(pairs@) == old(self)@,
            keys_distinct(old(self)@),
    {
        let mut taken = QueryMap::new();
        std::mem::swap(self, &mut taken);
        proof {
            use_type_invariant(&taken);
        }
        taken.pairs
    }

    /// Gives `key` the value `value`, and hands back the value it had.
    pub fn insert(&mut self, key: String, value: String) -> (before: Option<String>)
        ensures
            final(self)@ == with_pair(old(self)@, key@, value@),
            keys_distinct(final(self)@),
            opt_text(before) == value_of(old(self)@, key@),
    {
        let at = self.position(key.as_str());
        let mut pairs = self.take_pairs();
        proof {
            lemma_with_pair(old(self)@, key@, value@, key@);
        }
        let before = match at {
            Some(at) => {
                let before = pairs[at].1.clone();
                pairs.set(at, (key, value));
                Some(before)
            },
            None => {
                pairs.push((key, value));
                None
            },
        };
        proof {
            assert(pairs_view(pairs@) == with_pair(old(self)@, key@, value@));
        }
        self.pairs = pairs;
        before
    }

    /// Takes `key` out, and hands back the value it had.
    pub fn remove(&mut self, key: &str) -> (before: Option<String>)
        ensures
            final(self)@ == without_key(old(self)@, key@),
            keys_distinct(final(self)@),
            opt_text(before) == value_of(old(self)@, key@),
    {
        let at = self.position(key);
        let mut pairs = self.take_pairs();
        proof {
            lemma_without_key(old(self)@, key@, key@);
        }
        let before = match at {
            Some(at) => {
                let taken = pairs.remove(at);
                Some(taken.1)
            },
            None => None,
        };
        proof {
            assert(pairs_view(pairs@) == without_key(old(self)@, key@));
        }
        self.pairs = pairs;
        before
    }

    /// The pairs, in their order.
    pub fn into_inner(self) -> (pairs: Vec<(String, String)>)
        ensures
            pairs_view(pairs@) == self@,
            keys_distinct(self@),
    {
        proof {
            use_type_invariant(&self);
        }
        self.pairs
    }
}

/// Gives `key` the value `value`, or takes `key` out where there is no value.
pub fn update_query(query_map: &mut QueryMap, key: String, value: Option<String>)
    ensures
        final(query_map)@ == updated(old(query_map)@, key@, opt_text(value)),
        keys_distinct(final(query_map)@),
{
    match value {
        Some(val) => {
            let _ = query_map.insert(key, val);
        },
        None => {
            let _ = query_map.remove(key.as_str());
        },
    }
}

/// Puts every pair of `target_query_map` into `query_map`, first to last.
pub fn update_query_map(query_map: &mut QueryMap, target_query_map: Vec<(String, String)>)
    ensures
        final(query_map)@ == with_pairs(old(query_map)@, pairs_view(target_query_map@)),
        keys_distinct(final(query_map)@),
{
    let ghost more = pairs_view(target_query_map@);
    let mut i: usize = 0;
    proof {
        use_type_invariant(&*query_map);
    }
    while i < target_query_map.len()
        invariant
            i <= target_query_map.len(),
            more == pairs_view(target_query_map@),
            query_map@ == with_pairs(old(query_map)@, more.take(i as int)),
            keys_distinct(query_map@),
        decreases target_query_map.len() - i,
    {
        let key = target_query_map[i].0.clone();
        let value = target_query_map[i].1.clone();
        proof {
            assert(more.take(i + 1).drop_last() == more.take(i as int));
            assert(more.take(i + 1).last() == (key@, value@));
        }
        update_query(query_map, key, Some(value));
        i += 1;
    }
    proof {
        assert(more.take(i as int) == more);
    }
}

/// Takes every key of `keys` out of `query_map`.
pub fn remove_query(query_map: &mut QueryMap, keys: Vec<String>)
    ensures
        final(query_map)@ == without_keys(old(query_map)@, strings_view(keys@)),
        keys_distinct(final(query_map)@),
{
    let ghost gone = strings_view(keys@);
    let mut i: usize = 0;
    proof {
        use_type_invariant(&*query_map);
    }
    while i < keys.len()
        invariant
            i <= keys.len(),
            gone == strings_view(keys@),
            query_map@ == without_keys(old(query_map)@, gone.take(i as int)),
            keys_distinct(query_map@),
        decreases keys.len() - i,
    {
        proof {
            assert(gone.take(i + 1).drop_last() == gone.take(i as int));
            assert(gone.take(i + 1).last() == keys@[i as int]@);
        }
        let _ = query_map.remove(keys[i].as_str());
        i += 1;
    }
    proof {
        assert(gone.take(i as int) == gone);
    }
}

/// What `serde_urlencoded::to_string` makes of a list of pairs: the query
/// string that holds them, or the sentence with which it refuses them.
pub uninterp spec fn form_urlencoded(pairs: Seq<(Seq<char>, Seq<char>)>) -> Result<
    Seq<char>,
    Seq<char>,
>;

/// What `serde_urlencoded::from_str` reads out of a query string as a list
/// of pairs, or the sentence with which it refuses the string.
pub uninterp spec fn form_urldecoded(query: Seq<char>) -> Result<
    Seq<(Seq<char>, Seq<char>)>,
    Seq<char>,
>;

/// The characters of a text, or of the sentence that stands for its failure.
pub open spec fn text_result(r: Result<String, InternalAppError>) -> Result<Seq<char>, Seq<char>> {
    match r {
        Ok(text) => Ok(text@),
        Err(error) => Err(error@),
    }
}

/// `serde_urlencoded::to_string` on a list of pairs of strings, with the
/// error turned into what it displays.
#[verifier::external_body]
fn urlencode(pairs: &Vec<(String, String)>) -> (encoded: Result<String, String>)
    ensures
        match encoded {
            Ok(text) => form_urlencoded(pairs_view(pairs@)) == Ok::<Seq<char>, Seq<char>>(text@),
            Err(refusal) => form_urlencoded(pairs_view(pairs@)) == Err::<Seq<char>, Seq<char>>(
                refusal@,
            ),
        },
{
    serde_urlencoded::to_string(pairs).map_err(|error| error.to_string())
}

/// `serde_urlencoded::from_str` into a list of pairs of strings, with the
/// error turned into what it displays.
#[verifier::external_body]
fn urldecode(query: &str) -> (decoded: Result<Vec<(String, String)>, String>)
    ensures
        match decoded {
            Ok(pairs) => form_urldecoded(query@) == Ok::<
                Seq<(Seq<char>, Seq<char>)>,
                Seq<char>,
            >(pairs_view(pairs@)),
            Err(refusal) => form_urldecoded(query@) == Err::<
                Seq<(Seq<char>, Seq<char>)>,
                Seq<char>,
            >(refusal@),
        },
{
    serde_urlencoded::from_str::<Vec<(String, String)>>(query).map_err(|error| error.to_string())
}

/// The query string that holds the parameters of `input`.
pub fn query_to_string(input: QueryMap) -> (r: Result<String, InternalAppError>)
    ensures
        text_result(r) == form_urlencoded(input@),
{
    let pairs = input.into_inner();
    match urlencode(&pairs) {
        Ok(text) => Ok(text),
        Err(refusal) => Err(InternalAppError { description: refusal }),
    }
}

/// The parameters that a decoded query string holds: where a key came more
/// than once, its last value, at the place where the key came first.
pub open spec fn query_parameters(
    decoded: Result<Seq<(Seq<char>, Seq<char>)>, Seq<char>>,
) -> Result<Seq<(Seq<char>, Seq<char>)>, Seq<char>> {
    match decoded {
        Ok(pairs) => Ok(with_pairs(Seq::empty(), pairs)),
        Err(refusal) => Err(refusal),
    }
}

/// The parameters of a map, or the sentence that stands for its failure.
pub open spec fn map_result(r: Result<QueryMap, InternalAppError>) -> Result<
    Seq<(Seq<char>, Seq<char>)>,
    Seq<char>,
> {
    match r {
        Ok(query_map) => Ok(query_map@),
        Err(error) => Err(error@),
    }
}

/// Reads the parameters out of a query string; without a query string
/// there are none.
pub fn parse_query(query: Option<&str>) -> (r: Result<QueryMap, InternalAppError>)
    ensures
        map_result(r) == match query {
            Some(query) => query_parameters(form_urldecoded(query@)),
            None => Ok(Seq::empty()),
        },
{
    let mut query_map = QueryMap::new();
    match query {
        Some(query) => {
            match urldecode(query) {
                Ok(pairs) => {
                    update_query_map(&mut query_map, pairs);
                    Ok(query_map)
                },
                Err(refusal) => Err(InternalAppError { description: refusal }),
            }
        },
        None => Ok(query_map),
    }
}

} // verus!
