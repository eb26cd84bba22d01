//! The path normaliser: it runs before routing and brings the path of a
//! request into canonical form, by rewriting the request or by redirecting
//! the client.

use vstd::prelude::*;

use crate::error::InternalAppError;
use crate::path::{
    canonical_path,
    canonicalize,
    has_slash_run,
    is_root,
    lemma_canonical_changes,
    lemma_canonical_has_no_run,
    lemma_canonical_has_no_trailing_slash,
    lemma_canonical_is_idempotent,
};
use crate::response::{
    is_header_value,
    invalid_header_value_message,
    redirect,
    HttpResponse,
    OriginalUrl,
    StatusCode,
};
use crate::text::{opt_text, same_text};
use crate::uri::{check_uri, is_uri, join_query, uri_refusal, with_query, Uri};

verus! {

/// How runs of slashes inside a path are treated.
#[derive(Clone, Copy, Debug, PartialEq, Eq, Structural)]
pub enum NormalizeReqPathInteriorSlashOpsMode {
    /// Every run becomes one slash.
    MergeMultiple,
}

impl Default for NormalizeReqPathInteriorSlashOpsMode {
    fn default() -> (mode: Self)
        ensures
            mode == NormalizeReqPathInteriorSlashOpsMode::MergeMultiple,
    {
        NormalizeReqPathInteriorSlashOpsMode::MergeMultiple
    }
}

/// Whether runs of slashes inside a path are touched at all.
#[derive(Clone, Copy, Debug, PartialEq, Eq, Structural)]
pub enum NormalizeReqPathInteriorSlashOps {
    LetItGo,
    NeedOperation { mode: NormalizeReqPathInteriorSlashOpsMode },
}

impl Default for NormalizeReqPathInteriorSlashOps {
    fn default() -> (ops: Self)
        ensures
            ops == NormalizeReqPathInteriorSlashOps::LetItGo,
    {
        NormalizeReqPathInteriorSlashOps::LetItGo
    }
}

/// What the normaliser does with slashes.
#[derive(Clone, Copy, Debug, PartialEq, Eq, Structural)]
pub enum NormalizeReqPathSlashMode {
    /// Paths are left as they are.
    LetItGo,
    /// Slashes at the end are removed; the rest is as the fields say.
    NeedOperation {
        use_redirect: bool,
        redirect_status: Option<StatusCode>,
        interior_slash_ops: Option<NormalizeReqPathInteriorSlashOps>,
    },
}

impl Default for NormalizeReqPathSlashMode {
    fn default() -> (mode: Self)
        ensures
            mode == NormalizeReqPathSlashMode::LetItGo,
    {
        NormalizeReqPathSlashMode::LetItGo
    }
}

/// The normaliser with its policy, which is fixed once the server runs.
#[derive(Clone, Copy, Debug)]
pub struct NormalizeReqPath {
    slash_mode: NormalizeReqPathSlashMode,
}

impl Default for NormalizeReqPath {
    fn default() -> (normalizer: Self)
        ensures
            normalizer.mode() == NormalizeReqPathSlashMode::LetItGo,
    {
        NormalizeReqPath { slash_mode: NormalizeReqPathSlashMode::LetItGo }
    }
}

/// What the normaliser decided for one request.
#[derive(Debug)]
pub enum Normalized {
    /// The request goes on to the router as it came.
    PassThrough,
    /// The request goes on to the router with `uri` in place of its own, and
    /// carries `original_url`.
    Rewrite { uri: String, original_url: OriginalUrl },
    /// The client is answered with `response` and the router is not asked.
    Redirect { response: HttpResponse },
}

/// The path and query that a changed request is sent on to: the canonical
/// path, and behind it the query where that is not empty.
pub open spec fn rewritten(path: Seq<char>, query: Option<Seq<char>>) -> Seq<char> {
    match query {
        Some(query) if query.len() > 0 => with_query(path, Some(query)),
        _ => path,
    }
}

impl NormalizeReqPath {
    /// The policy.
    pub closed spec fn mode(&self) -> NormalizeReqPathSlashMode {
        self.slash_mode
    }

    /// Slashes at the end of a path are removed.
    pub open spec fn operates(&self) -> bool {
        self.mode() is NeedOperation
    }

    /// A changed path is answered with a redirect.
    pub open spec fn redirects(&self) -> bool {
        self.mode() matches NormalizeReqPathSlashMode::NeedOperation { use_redirect, .. }
            && use_redirect
    }

    /// The status asked for redirects.
    pub open spec fn status(&self) -> Option<StatusCode> {
        match self.mode() {
            NormalizeReqPathSlashMode::NeedOperation { redirect_status, .. } => redirect_status,
            NormalizeReqPathSlashMode::LetItGo => None,
        }
    }

    /// What is set for runs of slashes inside a path.
    pub open spec fn interior(&self) -> Option<NormalizeReqPathInteriorSlashOps> {
        match self.mode() {
            NormalizeReqPathSlashMode::NeedOperation { interior_slash_ops, .. } => {
                interior_slash_ops
            },
            NormalizeReqPathSlashMode::LetItGo => None,
        }
    }

    /// Runs of slashes are merged.
    pub open spec fn merges(&self) -> bool {
        self.mode() matches NormalizeReqPathSlashMode::NeedOperation {
            interior_slash_ops: Some(NormalizeReqPathInteriorSlashOps::NeedOperation { .. }),
            ..
        }
    }

    /// The path that a request with `path` is routed by.
    pub open spec fn routed_path(&self, path: Seq<char>) -> Seq<char> {
        if is_root(path) || !self.operates() {
            path
        } else {
            canonical_path(path, self.merges())
        }
    }

    /// Turns the removal of slashes at the end on.
    pub fn use_slash_operation(self) -> (normalizer: Self)
        ensures
            normalizer.mode() == match self.mode() {
                NormalizeReqPathSlashMode::LetItGo => NormalizeReqPathSlashMode::NeedOperation {
                    use_redirect: false,
                    redirect_status: None,
                    interior_slash_ops: None,
                },
                mode => mode,
            },
    {
        match self.slash_mode {
            NormalizeReqPathSlashMode::LetItGo => NormalizeReqPath {
                slash_mode: NormalizeReqPathSlashMode::NeedOperation {
                    use_redirect: false,
                    redirect_status: None,
                    interior_slash_ops: None,
                },
            },
            _ => self,
        }
    }

    /// Says whether a changed path is answered with a redirect. This turns
    /// the removal of slashes at the end on.
    pub fn set_slash_redirect(self, use_redirect: bool) -> (normalizer: Self)
        ensures
            normalizer.mode() == match self.mode() {
                NormalizeReqPathSlashMode::LetItGo => NormalizeReqPathSlashMode::NeedOperation {
                    use_redirect,
                    redirect_status: None,
                    interior_slash_ops: None,
                },
                NormalizeReqPathSlashMode::NeedOperation {
                    redirect_status,
                    interior_slash_ops,
                    ..
                } => NormalizeReqPathSlashMode::NeedOperation {
                    use_redirect,
                    redirect_status,
                    interior_slash_ops,
                },
            },
    {
        NormalizeReqPath {
            slash_mode: match self.slash_mode {
                NormalizeReqPathSlashMode::LetItGo => NormalizeReqPathSlashMode::NeedOperation {
                    use_redirect,
                    redirect_status: None,
                    interior_slash_ops: None,
                },
                NormalizeReqPathSlashMode::NeedOperation {
                    redirect_status,
                    interior_slash_ops,
                    ..
                } => NormalizeReqPathSlashMode::NeedOperation {
                    use_redirect,
                    redirect_status,
                    interior_slash_ops,
                },
            },
        }
    }

    /// Sets the status of redirects. A number that is no status code leaves
    /// the policy as it is; on a normaliser that left paths alone, a status
    /// code turns redirects on.
    pub fn set_redirect_status(self, redirect_status: u16) -> (normalizer: Self)
        ensures
            if 100 <= redirect_status <= 999 {
                &&& normalizer.operates()
                &&& normalizer.redirects() == (!self.operates() || self.redirects())
                &&& normalizer.status() is Some
                &&& normalizer.status().unwrap().value() == redirect_status
                &&& normalizer.interior() == self.interior()
            } else {
                normalizer.mode() == self.mode()
            },
    {
        match StatusCode::from_u16(redirect_status) {
            Some(status) => NormalizeReqPath {
                slash_mode: match self.slash_mode {
                    NormalizeReqPathSlashMode::LetItGo => {
                        NormalizeReqPathSlashMode::NeedOperation {
                            use_redirect: true,
                            redirect_status: Some(status),
                            interior_slash_ops: None,
                        }
                    },
                    NormalizeReqPathSlashMode::NeedOperation {
                        use_redirect,
                        interior_slash_ops,
                        ..
                    } => NormalizeReqPathSlashMode::NeedOperation {
                        use_redirect,
                        redirect_status: Some(status),
                        interior_slash_ops,
                    },
                },
            },
            None => self,
        }
    }

    /// Turns the merging of slash runs on, where slashes at the end are
    /// removed already; otherwise the policy stays as it is.
    pub fn enable_interior_slash_ops(self) -> (normalizer: Self)
        ensures
            normalizer.mode() == match self.mode() {
                NormalizeReqPathSlashMode::NeedOperation {
                    use_redirect,
                    redirect_status,
                    interior_slash_ops,
                } if !(interior_slash_ops matches Some(
                    NormalizeReqPathInteriorSlashOps::NeedOperation { .. },
                )) => NormalizeReqPathSlashMode::NeedOperation {
                    use_redirect,
                    redirect_status,
                    interior_slash_ops: Some(
                        NormalizeReqPathInteriorSlashOps::NeedOperation {
                            mode: NormalizeReqPathInteriorSlashOpsMode::MergeMultiple,
                        },
                    ),
                },
                mode => mode,
            },
    {
        match self.slash_mode {
            NormalizeReqPathSlashMode::NeedOperation {
                use_redirect,
                redirect_status,
                interior_slash_ops,
            } => {
                match interior_slash_ops {
                    Some(NormalizeReqPathInteriorSlashOps::NeedOperation { .. }) => self,
                    _ => NormalizeReqPath {
                        slash_mode: NormalizeReqPathSlashMode::NeedOperation {
                            use_redirect,
                            redirect_status,
                            interior_slash_ops: Some(
                                NormalizeReqPathInteriorSlashOps::NeedOperation {
                                    mode: NormalizeReqPathInteriorSlashOpsMode::default(),
                                },
                            ),
                        },
                    },
                }
            },
            NormalizeReqPathSlashMode::LetItGo => self,
        }
    }

    pub fn slash_operation_enabled(&self) -> (enabled: bool)
        ensures
            enabled == self.operates(),
    {
        match self.slash_mode {
            NormalizeReqPathSlashMode::LetItGo => false,
            _ => true,
        }
    }

    pub fn slash_redirect(&self) -> (redirect: bool)
        ensures
            redirect == self.redirects(),
    {
        match self.slash_mode {
            NormalizeReqPathSlashMode::NeedOperation { use_redirect, .. } => use_redirect,
            _ => false,
        }
    }

    pub fn redirect_status(&self) -> (status: Option<StatusCode>)
        ensures
            status == self.status(),
    {
        match self.slash_mode {
            NormalizeReqPathSlashMode::NeedOperation { redirect_status, .. } => redirect_status,
            _ => None,
        }
    }

    pub fn interior_slash_ops_enabled(&self) -> (enabled: bool)
        ensures
            enabled == self.merges(),
    {
        match self.slash_mode {
            NormalizeReqPathSlashMode::NeedOperation {
                interior_slash_ops: Some(NormalizeReqPathInteriorSlashOps::NeedOperation { .. }),
                ..
            } => true,
            _ => false,
        }
    }

    pub fn interior_slash_ops(&self) -> (mode: Option<NormalizeReqPathInteriorSlashOpsMode>)
        ensures
            mode is Some == self.merges(),
            mode == match self.mode() {
                NormalizeReqPathSlashMode::NeedOperation {
                    interior_slash_ops: Some(
                        NormalizeReqPathInteriorSlashOps::NeedOperation { mode },
                    ),
                    ..
                } => Some(mode),
                _ => None,
            },
    {
        match self.slash_mode {
            NormalizeReqPathSlashMode::NeedOperation {
                interior_slash_ops: Some(NormalizeReqPathInteriorSlashOps::NeedOperation { mode }),
                ..
            } => Some(mode),
            _ => None,
        }
    }
}

impl NormalizeReqPath {
    /// The request is not routed by the path it came with.
    pub open spec fn changes(&self, path: Seq<char>) -> bool {
        self.routed_path(path) != path
    }

    /// The number of the status that redirects go out with.
    pub open spec fn redirect_code(&self) -> int {
        match self.status() {
            Some(status) => status.value() as int,
            None => 302,
        }
    }

    /// `r` is what the normaliser decides for a request for `uri`.
    pub open spec fn decides(&self, uri: &Uri, r: Result<Normalized, InternalAppError>) -> bool {
        let target = rewritten(self.routed_path(uri.path@), opt_text(uri.query));
        match r {
            Ok(Normalized::PassThrough) => !self.changes(uri.path@),
            Ok(Normalized::Rewrite { uri: sent_on, original_url }) => {
                &&& self.changes(uri.path@)
                &&& !self.redirects()
                &&& is_uri(target)
                &&& sent_on@ == target
                &&& original_url@ == uri.text()
            },
            Ok(Normalized::Redirect { response }) => {
                &&& self.changes(uri.path@)
                &&& self.redirects()
                &&& is_header_value(target)
                &&& response.is_redirect(self.redirect_code(), target, Some(uri.text()))
            },
            Err(error) => {
                &&& self.changes(uri.path@)
                &&& if self.redirects() {
                    !is_header_value(target) && error@ == invalid_header_value_message()
                } else {
                    uri_refusal(target) == Some(error@)
                }
            },
        }
    }

    /// Decides what is done with a request for `uri`.
    ///
    /// The landing page, and every request while paths are left alone, pass
    /// through. So does a request whose path is canonical already. Any other
    /// request is sent on with the canonical path and its query, if that is
    /// not empty: to the client as a redirect where the policy says so, and
    /// otherwise to the router. Either way the URI that came goes along as
    /// the original URL. The redirect fails where no header can hold the
    /// new URI, the rewrite where the URI parser refuses it.
    pub fn normalize(&self, uri: &Uri) -> (r: Result<Normalized, InternalAppError>)
        ensures
            self.decides(uri, r),
    {
        let path = uri.path();
        if is_landing_page(path) || !self.slash_operation_enabled() {
            return Ok(Normalized::PassThrough);
        }
        let (canonical, changed) = canonicalize(path, self.interior_slash_ops_enabled());
        if !changed {
            return Ok(Normalized::PassThrough);
        }
        let target = match uri.query() {
            Some(query) if !query.is_empty() => join_query(canonical.as_str(), Some(query)),
            _ => canonical,
        };
        let origin = uri.to_string();
        if self.slash_redirect() {
            let status = match self.redirect_status() {
                Some(status) => Some(status.as_u16()),
                None => None,
            };
            match redirect(target.as_str(), Some(origin), status) {
                Ok(response) => Ok(Normalized::Redirect { response }),
                Err(error) => Err(error),
            }
        } else {
            match check_uri(target.as_str()) {
                Ok(_) => Ok(
                    Normalized::Rewrite { uri: target, original_url: OriginalUrl::new(origin) },
                ),
                Err(refusal) => Err(InternalAppError { description: refusal }),
            }
        }
    }

    /// A request is changed exactly where its path is not the landing page,
    /// the removal of slashes is turned on, and the path ends in a slash or
    /// holds a run of slashes that is to be merged.
    pub proof fn lemma_changes(&self, path: Seq<char>)
        ensures
            self.changes(path) <==> !is_root(path) && self.operates() && (path.last() == '/'
                || self.merges() && has_slash_run(path)),
    {
        lemma_canonical_changes(path, self.merges());
    }

    /// The landing page passes through, whatever the policy and whatever
    /// the query.
    pub proof fn lemma_landing_page_passes(
        &self,
        uri: &Uri,
        r: Result<Normalized, InternalAppError>,
    )
        requires
            self.decides(uri, r),
            is_root(uri.path@),
        ensures
            r == Ok::<Normalized, InternalAppError>(Normalized::PassThrough),
    {
    }

    /// With the removal of slashes turned on, the path that a request is
    /// routed by has no slash at its end, unless it is `/` itself.
    pub proof fn lemma_routed_path_has_no_trailing_slash(&self, path: Seq<char>)
        requires
            self.operates(),
        ensures
            self.routed_path(path).len() > 0 && self.routed_path(path).last() == '/'
                ==> self.routed_path(path) == seq!['/'],
    {
        lemma_canonical_has_no_trailing_slash(path, self.merges());
    }

    /// With the merging of slash runs turned on, the path that a request is
    /// routed by has no two slashes next to each other.
    pub proof fn lemma_routed_path_has_no_slash_run(&self, path: Seq<char>)
        requires
            self.merges(),
        ensures
            !has_slash_run(self.routed_path(path)),
    {
        lemma_canonical_has_no_run(path);
        if path == seq!['/'] {
            assert(!has_slash_run(path));
        }
    }

    /// The path that a request is routed by is settled: routing by it
    /// again changes nothing.
    pub proof fn lemma_routed_path_is_settled(&self, path: Seq<char>)
        ensures
            !self.changes(self.routed_path(path)),
            self.routed_path(self.routed_path(path)) == self.routed_path(path),
    {
        lemma_canonical_is_idempotent(path, self.merges());
    }

    /// A request for the path that another request was routed by passes
    /// through: what the normaliser sent on, it does not send on again, so
    /// no redirect leads to another.
    pub proof fn lemma_normalized_requests_pass(
        &self,
        path: Seq<char>,
        uri: &Uri,
        r: Result<Normalized, InternalAppError>,
    )
        requires
            self.decides(uri, r),
            uri.path@ == self.routed_path(path),
        ensures
            r == Ok::<Normalized, InternalAppError>(Normalized::PassThrough),
    {
        self.lemma_routed_path_is_settled(path);
    }
}

/// Whether `path` is the landing page.
fn is_landing_page(path: &str) -> (root: bool)
    ensures
        root == is_root(path@),
{
    proof {
        reveal_strlit("/");
        assert("/"@ == seq!['/']);
    }
    path.is_empty() || same_text(path, "/")
}

} // verus!
