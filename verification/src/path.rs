//! The two transforms that bring a request path into canonical form: runs of
//! slashes are merged into one slash, and slashes at the end are removed.

use vstd::prelude::*;

use crate::text::{from_chars, same_text, to_chars};

verus! {

/// The landing page: the empty path and `/`.
pub open spec fn is_root(path: Seq<char>) -> bool {
    path.len() == 0 || path == seq!['/']
}

/// Two slashes stand next to each other somewhere in `path`.
pub open spec fn has_slash_run(path: Seq<char>) -> bool {
    exists|i: int| 0 <= i < path.len() - 1 && path[i] == '/' && #[trigger] path[i + 1] == '/'
}

/// `path` without every slash that directly follows a slash.
pub open spec fn merge_slashes(path: Seq<char>) -> Seq<char>
    decreases path.len(),
{
    if path.len() == 0 {
        path
    } else if path.len() >= 2 && path.last() == '/' && path[path.len() - 2] == '/' {
        merge_slashes(path.drop_last())
    } else {
        merge_slashes(path.drop_last()).push(path.last())
    }
}

/// The longest prefix of `path` that does not end in a slash.
pub open spec fn strip_trailing_slashes(path: Seq<char>) -> Seq<char>
    decreases path.len(),
{
    if path.len() > 0 && path.last() == '/' {
        strip_trailing_slashes(path.drop_last())
    } else {
        path
    }
}

/// `path` with every slash taken out.
pub open spec fn without_slashes(path: Seq<char>) -> Seq<char> {
    path.filter(|c: char| c != '/')
}

/// The canonical form of `path`: slash runs merged where `merge` asks for it,
/// then the slashes at the end removed; a path that this empties is `/`.
pub open spec fn canonical_path(path: Seq<char>, merge: bool) -> Seq<char> {
    let merged = if merge {
        merge_slashes(path)
    } else {
        path
    };
    let stripped = strip_trailing_slashes(merged);
    if stripped.len() == 0 && merged.len() > 0 {
        seq!['/']
    } else {
        stripped
    }
}

/// Merging keeps the last character, so a merged path ends as the path did.
pub proof fn lemma_merge_keeps_end(path: Seq<char>)
    requires
        path.len() > 0,
    ensures
        merge_slashes(path).len() > 0,
        merge_slashes(path).last() == path.last(),
        merge_slashes(path).len() <= path.len(),
    decreases path.len(),
{
    if path.len() >= 2 {
        lemma_merge_keeps_end(path.drop_last());
    } else {
        assert(merge_slashes(path.drop_last()).len() == 0);
    }
}

/// After merging, no two slashes stand next to each other.
pub proof fn lemma_merge_leaves_no_run(path: Seq<char>)
    ensures
        !has_slash_run(merge_slashes(path)),
    decreases path.len(),
{
    if path.len() > 0 {
        let front = path.drop_last();
        lemma_merge_leaves_no_run(front);
        let merged_front = merge_slashes(front);
        let merged = merge_slashes(path);
        if front.len() > 0 {
            lemma_merge_keeps_end(front);
        }
        assert forall|i: int|
            0 <= i < merged.len() - 1 && merged[i] == '/' implies #[trigger] merged[i + 1]
            != '/' by {
            if i + 1 < merged_front.len() {
                assert(merged_front[i] == merged[i]);
                assert(merged_front[i + 1] == merged[i + 1]);
            }
        }
    }
}

/// A path in which no two slashes stand next to each other is left as it is:
/// every single slash stays where it was.
pub proof fn lemma_merge_keeps_single_slashes(path: Seq<char>)
    requires
        !has_slash_run(path),
    ensures
        merge_slashes(path) == path,
    decreases path.len(),
{
    if path.len() > 0 {
        let front = path.drop_last();
        assert forall|i: int| 0 <= i < front.len() - 1 && front[i] == '/' implies #[trigger] front[i
            + 1] != '/' by {
            assert(path[i] == front[i]);
            assert(path[i + 1] == front[i + 1]);
        }
        lemma_merge_keeps_single_slashes(front);
        if path.len() >= 2 && path.last() == '/' {
            let k = path.len() - 2;
            assert(path[k + 1] == '/');
        }
        assert(front.push(path.last()) == path);
    }
}

/// Merging removes slashes only: the other characters stay, in their order.
pub proof fn lemma_merge_removes_only_slashes(path: Seq<char>)
    ensures
        without_slashes(merge_slashes(path)) == without_slashes(path),
    decreases path.len(),
{
    if path.len() > 0 {
        let front = path.drop_last();
        lemma_merge_removes_only_slashes(front);
        reveal(Seq::filter);
        let kept = merge_slashes(front).push(path.last());
        assert(kept.drop_last() == merge_slashes(front));
    }
}

/// What is left after stripping is a prefix of the path, and does not end in a
/// slash.
pub proof fn lemma_strip_is_prefix(path: Seq<char>)
    ensures
        strip_trailing_slashes(path).len() <= path.len(),
        strip_trailing_slashes(path) == path.take(strip_trailing_slashes(path).len() as int),
        strip_trailing_slashes(path).len() > 0 ==> strip_trailing_slashes(path).last() != '/',
        forall|i: int|
            strip_trailing_slashes(path).len() <= i < path.len() ==> #[trigger] path[i] == '/',
    decreases path.len(),
{
    if path.len() > 0 && path.last() == '/' {
        let front = path.drop_last();
        lemma_strip_is_prefix(front);
        let n = strip_trailing_slashes(front).len() as int;
        assert(front.take(n) == path.take(n));
        assert forall|i: int| n <= i < path.len() implies #[trigger] path[i] == '/' by {
            if i < front.len() {
                assert(front[i] == path[i]);
            }
        }
    } else {
        assert(path.take(path.len() as int) == path);
    }
}

/// The canonical form has no slash at its end, unless it is `/` itself.
pub proof fn lemma_canonical_has_no_trailing_slash(path: Seq<char>, merge: bool)
    ensures
        canonical_path(path, merge).len() > 0 && canonical_path(path, merge).last() == '/'
            ==> canonical_path(path, merge) == seq!['/'],
{
    let merged = if merge {
        merge_slashes(path)
    } else {
        path
    };
    lemma_strip_is_prefix(merged);
}

/// With merging asked for, the canonical form has no two slashes next to
/// each other.
pub proof fn lemma_canonical_has_no_run(path: Seq<char>)
    ensures
        !has_slash_run(canonical_path(path, true)),
{
    let merged = merge_slashes(path);
    let stripped = strip_trailing_slashes(merged);
    let canonical = canonical_path(path, true);
    lemma_merge_leaves_no_run(path);
    lemma_strip_is_prefix(merged);
    assert forall|i: int|
        0 <= i < canonical.len() - 1 && canonical[i] == '/' implies #[trigger] canonical[i + 1]
        != '/' by {
        assert(stripped[i] == merged[i]);
        assert(stripped[i + 1] == merged[i + 1]);
    }
}

/// The canonical form of a canonical form is that form again.
pub proof fn lemma_canonical_is_idempotent(path: Seq<char>, merge: bool)
    ensures
        canonical_path(canonical_path(path, merge), merge) == canonical_path(path, merge),
{
    let canonical = canonical_path(path, merge);
    lemma_canonical_has_no_trailing_slash(path, merge);
    if merge {
        lemma_canonical_has_no_run(path);
        lemma_merge_keeps_single_slashes(canonical);
    }
    if canonical == seq!['/'] {
        assert(canonical.drop_last().len() == 0);
        assert(strip_trailing_slashes(canonical.drop_last()) == canonical.drop_last());
    }
}

/// A path differs from its canonical form exactly where it holds a slash run
/// that is to be merged, or ends in a slash without being `/`.
pub proof fn lemma_canonical_changes(path: Seq<char>, merge: bool)
    ensures
        canonical_path(path, merge) == path <==> !(merge && has_slash_run(path)) && (path.len()
            > 0 && path.last() == '/' ==> path == seq!['/']),
{
    let merged = if merge {
        merge_slashes(path)
    } else {
        path
    };
    lemma_strip_is_prefix(merged);
    lemma_canonical_has_no_trailing_slash(path, merge);
    if merge {
        lemma_canonical_has_no_run(path);
        if !has_slash_run(path) {
            lemma_merge_keeps_single_slashes(path);
        }
    }
    if path == seq!['/'] {
        assert(path.drop_last().len() == 0);
        assert(strip_trailing_slashes(path.drop_last()) == path.drop_last());
        assert(!has_slash_run(path));
    }
}

/// Merges every run of slashes in `path` into one slash.
pub fn merge_interior_slashes(path: &str) -> (merged: String)
    ensures
        merged@ == merge_slashes(path@),
{
    let chars = to_chars(path);
    let mut kept: Vec<char> = Vec::new();
    let mut i: usize = 0;
    while i < chars.len()
        invariant
            i <= chars.len(),
            kept@ == merge_slashes(chars@.take(i as int)),
        decreases chars.len() - i,
    {
        proof {
            assert(chars@.take(i + 1).drop_last() == chars@.take(i as int));
        }
        if !(i > 0 && chars[i] == '/' && chars[i - 1] == '/') {
            kept.push(chars[i]);
        }
        i += 1;
    }
    proof {
        assert(chars@.take(i as int) == chars@);
    }
    let n = kept.len();
    let merged = from_chars(&kept, 0, n);
    proof {
        assert(kept@.subrange(0, n as int) == kept@);
    }
    merged
}

/// Removes every slash at the end of `path`.
pub fn trim_trailing_slashes(path: &str) -> (trimmed: String)
    ensures
        trimmed@ == strip_trailing_slashes(path@),
{
    let chars = to_chars(path);
    let mut end: usize = chars.len();
    proof {
        assert(chars@.take(end as int) == chars@);
    }
    while end > 0 && chars[end - 1] == '/'
        invariant
            end <= chars.len(),
            strip_trailing_slashes(chars@) == strip_trailing_slashes(chars@.take(end as int)),
        decreases end,
    {
        proof {
            assert(chars@.take(end as int).drop_last() == chars@.take(end - 1));
        }
        end -= 1;
    }
    proof {
        assert(chars@.take(end as int) == chars@.subrange(0, end as int));
    }
    from_chars(&chars, 0, end)
}

/// Brings `path` into canonical form and says whether that changed it.
pub fn canonicalize(path: &str, merge: bool) -> (r: (String, bool))
    ensures
        r.0@ == canonical_path(path@, merge),
        r.1 == (r.0@ != path@),
{
    let merged = if merge {
        merge_interior_slashes(path)
    } else {
        path.to_owned()
    };
    let stripped = trim_trailing_slashes(merged.as_str());
    let canonical = if stripped.as_str().is_empty() && !merged.as_str().is_empty() {
        proof {
            reveal_strlit("/");
            assert("/"@ == seq!['/']);
        }
        "/".to_owned()
    } else {
        stripped
    };
    let changed = !same_text(canonical.as_str(), path);
    (canonical, changed)
}

} // verus!
