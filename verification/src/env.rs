use vstd::prelude::*;

use crate::text::{from_chars, split, strings_view, to_chars, trim_bounds, trimmed};

verus! {

/// Why a configuration value could not be produced.
pub enum EnvError {
    /// The variable could not be read at all; the reader's own words.
    Read { message: String },
    /// A required variable is not set.
    Missing { key: String },
    /// The variable's content was not accepted by the parser.
    Parse { key: String },
    /// One item of a list variable was not accepted by the parser.
    ParseValue { key: String, value: String },
}

/// An error with the characters of its texts.
pub enum EnvErrorView {
    Read { message: Seq<char> },
    Missing { key: Seq<char> },
    Parse { key: Seq<char> },
    ParseValue { key: Seq<char>, value: Seq<char> },
}

impl View for EnvError {
    type V = EnvErrorView;

    open spec fn view(&self) -> EnvErrorView {
        match self {
            EnvError::Read { message } => EnvErrorView::Read { message: message@ },
            EnvError::Missing { key } => EnvErrorView::Missing { key: key@ },
            EnvError::Parse { key } => EnvErrorView::Parse { key: key@ },
            EnvError::ParseValue { key, value } => EnvErrorView::ParseValue {
                key: key@,
                value: value@,
            },
        }
    }
}

impl EnvErrorView {
    /// The sentence that reports this error.
    pub open spec fn message(self) -> Seq<char> {
        match self {
            EnvErrorView::Read { message } => message,
            EnvErrorView::Missing { key } => "Failed to find required "@ + key
                + " environment variable."@,
            EnvErrorView::Parse { key } => "Failed to parse "@ + key + " environment variable."@,
            EnvErrorView::ParseValue { key, value } => "Failed to parse value \""@ + value
                + "\" of "@ + key + " environment variable."@,
        }
    }
}

impl EnvError {
    /// The sentence that reports this error.
    pub fn message(&self) -> (text: String)
        ensures
            text@ == self@.message(),
    {
        match self {
            EnvError::Read { message } => message.clone(),
            EnvError::Missing { key } => {
                let mut text = String::from_str("Failed to find required ");
                text.append(key.as_str());
                text.append(" environment variable.");
                text
            },
            EnvError::Parse { key } => {
                let mut text = String::from_str("Failed to parse ");
                text.append(key.as_str());
                text.append(" environment variable.");
                text
            },
            EnvError::ParseValue { key, value } => {
                let mut text = String::from_str("Failed to parse value \"");
                text.append(value.as_str());
                text.append("\" of ");
                text.append(key.as_str());
                text.append(" environment variable.");
                text
            },
        }
    }
}

/// Turns an absent value into the error that names the missing variable.
pub fn required<T>(res: Result<Option<T>, EnvError>, key: &str) -> (r: Result<T, EnvError>)
    ensures
        match res {
            Ok(Some(value)) => r == Ok::<T, EnvError>(value),
            Ok(None) => r matches Err(e) && e@ == (EnvErrorView::Missing { key: key@ }),
            Err(error) => r == Err::<T, EnvError>(error),
        },
{
    match res {
        Ok(Some(value)) => Ok(value),
        Ok(None) => Err(EnvError::Missing { key: key.to_owned() }),
        Err(error) => Err(error),
    }
}

/// What `parse` made of `content`: `Ok` with a value it returned for that
/// text, or the parse error for `key` where it refused the text.
pub open spec fn parsed_as<R, E, F: Fn(&str) -> Result<R, E>>(
    parse: F,
    key: Seq<char>,
    content: Seq<char>,
    r: Result<R, EnvError>,
) -> bool {
    match r {
        Ok(value) => exists|s: &str| s@ == content && parse.ensures((s,), Ok(value)),
        Err(error) => error@ == (EnvErrorView::Parse { key })
            && exists|s: &str, refusal: E| s@ == content && parse.ensures((s,), Err(refusal)),
    }
}

/// Parses the content of the variable `key`, where it is set.
///
/// `value` is what reading the variable gave. A read error is handed on, an
/// unset variable is `Ok(None)`, and a set one is given to `parse`.
pub fn var_parsed<R, E, F>(key: &str, value: Result<Option<String>, EnvError>, parse: F) -> (r:
    Result<Option<R>, EnvError>)
    where F: Fn(&str) -> Result<R, E>
    requires
        forall|s: &str| parse.requires((s,)),
    ensures
        match value {
            Err(error) => r == Err::<Option<R>, EnvError>(error),
            Ok(None) => r == Ok::<Option<R>, EnvError>(None),
            Ok(Some(content)) => match r {
                Ok(Some(parsed)) => parsed_as(parse, key@, content@, Ok(parsed)),
                Ok(None) => false,
                Err(error) => parsed_as(parse, key@, content@, Err::<R, EnvError>(error)),
            },
        },
{
    match value {
        Err(error) => Err(error),
        Ok(None) => Ok(None),
        Ok(Some(content)) => {
            match parse(content.as_str()) {
                Ok(parsed) => Ok(Some(parsed)),
                Err(_) => Err(EnvError::Parse { key: key.to_owned() }),
            }
        },
    }
}

/// The content of the variable `key`, which must be set.
pub fn required_var(key: &str, value: Result<Option<String>, EnvError>) -> (r: Result<
    String,
    EnvError,
>)
    ensures
        match value {
            Ok(Some(content)) => r == Ok::<String, EnvError>(content),
            Ok(None) => r matches Err(e) && e@ == (EnvErrorView::Missing { key: key@ }),
            Err(error) => r == Err::<String, EnvError>(error),
        },
{
    required(value, key)
}

/// The parsed content of the variable `key`, which must be set.
pub fn required_var_parsed<R, E, F>(
    key: &str,
    value: Result<Option<String>, EnvError>,
    parse: F,
) -> (r: Result<R, EnvError>)
    where F: Fn(&str) -> Result<R, E>
    requires
        forall|s: &str| parse.requires((s,)),
    ensures
        match value {
            Err(error) => r == Err::<R, EnvError>(error),
            Ok(None) => r matches Err(e) && e@ == (EnvErrorView::Missing { key: key@ }),
            Ok(Some(content)) => parsed_as(parse, key@, content@, r),
        },
{
    required(var_parsed(key, value, parse), key)
}

/// The items of a list variable with the given content: the pieces between
/// its commas, each without the white space around it. An empty variable
/// has no items.
pub open spec fn items(content: Seq<char>) -> Seq<Seq<char>> {
    if content.len() == 0 {
        Seq::empty()
    } else {
        Seq::new(split(content, ',').len(), |i: int| trimmed(split(content, ',')[i]))
    }
}

/// The items of a list variable, where it is set; a variable that is not
/// set has none.
///
/// `value` is what reading the variable gave. A read error is handed on.
pub fn list(value: Result<Option<String>, EnvError>) -> (r: Result<Vec<String>, EnvError>)
    ensures
        match value {
            Err(error) => r == Err::<Vec<String>, EnvError>(error),
            Ok(None) => r matches Ok(values) && values@.len() == 0,
            Ok(Some(content)) => r matches Ok(values) && strings_view(values@) == items(
                content@,
            ),
        },
{
    let content = match value {
        Err(error) => {
            return Err(error);
        },
        Ok(None) => {
            return Ok(Vec::new());
        },
        Ok(Some(content)) => content,
    };
    let mut values: Vec<String> = Vec::new();
    if content.as_str().is_empty() {
        proof {
            assert(strings_view(values@) == items(content@));
        }
        return Ok(values);
    }
    let chars = to_chars(content.as_str());
    let ghost mut done: Seq<Seq<char>> = Seq::empty();
    let mut start: usize = 0;
    let mut i: usize = 0;
    proof {
        assert(chars@.take(0) == Seq::<char>::empty());
        assert(chars@.subrange(0, 0) == Seq::<char>::empty());
        assert(split(chars@.take(0), ',') == done.push(chars@.subrange(0, 0)));
    }
    while i < chars.len()
        invariant
            start <= i <= chars.len(),
            split(chars@.take(i as int), ',') == done.push(chars@.subrange(start as int, i as int)),
            values@.len() == done.len(),
            forall|k: int| 0 <= k < done.len() ==> (#[trigger] values@[k])@ == trimmed(done[k]),
        decreases chars.len() - i,
    {
        proof {
            assert(chars@.take(i + 1).drop_last() == chars@.take(i as int));
            let pieces = done.push(chars@.subrange(start as int, i as int));
            assert(pieces.drop_last() == done);
        }
        if chars[i] == ',' {
            let (from, to) = trim_bounds(&chars, start, i);
            values.push(from_chars(&chars, from, to));
            proof {
                done = done.push(chars@.subrange(start as int, i as int));
                assert(chars@.subrange(i + 1, i + 1) == Seq::<char>::empty());
            }
            start = i + 1;
        } else {
            proof {
                assert(chars@.subrange(start as int, i as int).push(chars@[i as int])
                    == chars@.subrange(start as int, i + 1));
            }
        }
        i += 1;
    }
    let (from, to) = trim_bounds(&chars, start, i);
    values.push(from_chars(&chars, from, to));
    proof {
        assert(chars@.take(i as int) == chars@);
        let pieces = done.push(chars@.subrange(start as int, i as int));
        assert(strings_view(values@) == items(content@));
    }
    Ok(values)
}

/// `parse` accepts the item and makes `value` of it.
pub open spec fn accepts<R, E, F: Fn(&str) -> Result<R, E>>(parse: F, item: Seq<char>, value: R)
    -> bool {
    exists|s: &str| s@ == item && parse.ensures((s,), Ok(value))
}

/// `parse` refuses the item.
pub open spec fn refuses<R, E, F: Fn(&str) -> Result<R, E>>(parse: F, item: Seq<char>) -> bool {
    exists|s: &str, refusal: E| s@ == item && parse.ensures((s,), Err(refusal))
}

/// `parse` accepts the item.
pub open spec fn accepts_any<R, E, F: Fn(&str) -> Result<R, E>>(parse: F, item: Seq<char>) -> bool {
    exists|value: R| accepts(parse, item, value)
}

/// The item at `k` is the first of `items` that `parse` refuses.
pub open spec fn refuses_first<R, E, F: Fn(&str) -> Result<R, E>>(
    parse: F,
    items: Seq<Seq<char>>,
    k: int,
) -> bool {
    &&& 0 <= k < items.len()
    &&& refuses(parse, items[k])
    &&& forall|j: int| 0 <= j < k ==> accepts_any(parse, #[trigger] items[j])
}

/// The parsed items of a list variable, where it is set; a variable that is
/// not set has none.
///
/// `value` is what reading the variable gave. A read error is handed on.
/// The items are given to `f` first to last; the first one that `f` refuses
/// ends the work and is named in the error.
pub fn list_parsed<R, E, F>(key: &str, value: Result<Option<String>, EnvError>, f: F) -> (r:
    Result<Vec<R>, EnvError>)
    where F: Fn(&str) -> Result<R, E>
    requires
        forall|s: &str| f.requires((s,)),
    ensures
        match value {
            Err(error) => r == Err::<Vec<R>, EnvError>(error),
            Ok(None) => r matches Ok(values) && values@.len() == 0,
            Ok(Some(content)) => match r {
                Ok(values) => {
                    &&& values@.len() == items(content@).len()
                    &&& forall|k: int|
                        0 <= k < values@.len() ==> accepts(
                            f,
                            #[trigger] items(content@)[k],
                            values@[k],
                        )
                },
                Err(error) => exists|k: int|
                    #[trigger] refuses_first(f, items(content@), k) && error@
                        == (EnvErrorView::ParseValue { key: key@, value: items(content@)[k] }),
            },
        },
{
    let pieces = match list(value) {
        Ok(pieces) => pieces,
        Err(error) => {
            return Err(error);
        },
    };
    let mut values: Vec<R> = Vec::new();
    let mut i: usize = 0;
    while i < pieces.len()
        invariant
            i <= pieces.len(),
            forall|s: &str| f.requires((s,)),
            match value {
                Err(_) => false,
                Ok(None) => pieces@.len() == 0,
                Ok(Some(content)) => strings_view(pieces@) == items(content@),
            },
            values@.len() == i,
            forall|k: int|
                0 <= k < i ==> accepts(f, #[trigger] strings_view(pieces@)[k], values@[k]),
        decreases pieces.len() - i,
    {
        match f(pieces[i].as_str()) {
            Ok(parsed) => {
                values.push(parsed);
            },
            Err(_) => {
                proof {
                    let all = strings_view(pieces@);
                    assert(refuses(f, all[i as int]));
                    assert forall|j: int| 0 <= j < i implies accepts_any(f, #[trigger] all[j]) by {
                        assert(accepts(f, all[j], values@[j]));
                    }
                    assert(refuses_first(f, all, i as int));
                }
                return Err(
                    EnvError::ParseValue { key: key.to_owned(), value: pieces[i].clone() },
                );
            },
        }
        i += 1;
    }
    Ok(values)
}

} // verus!
