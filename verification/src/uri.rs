//! URIs as the proxy rewrites them: an HTTP/3 client call aims each request
//! at the channel's target, and the TCP connector redirects every
//! connection to its fixed address. A URI is held as its three optional
//! components; `http` validates and assembles them.

use vstd::prelude::*;

verus! {

/// The components of a URI, each as its text.
pub struct UriParts {
    pub scheme: Option<String>,
    pub authority: Option<String>,
    pub path_and_query: Option<String>,
}

/// The view of an optional text.
pub open spec fn opt_view(o: Option<String>) -> Option<Seq<char>> {
    match o {
        Some(s) => Some(s@),
        None => None,
    }
}

/// The components of a URI as sequences of characters.
pub struct UriView {
    pub scheme: Option<Seq<char>>,
    pub authority: Option<Seq<char>>,
    pub path_and_query: Option<Seq<char>>,
}

impl View for UriParts {
    type V = UriView;

    open spec fn view(&self) -> UriView {
        UriView {
            scheme: opt_view(self.scheme),
            authority: opt_view(self.authority),
            path_and_query: opt_view(self.path_and_query),
        }
    }
}

/// The text of the URI that `http` assembles from these components (scheme,
/// authority, path and query), or `None` where its builder refuses them.
pub uninterp spec fn uri_from_parts(
    scheme: Option<Seq<char>>,
    authority: Option<Seq<char>>,
    path_and_query: Option<Seq<char>>,
) -> Option<Seq<char>>;

/// Copies an optional text.
fn clone_opt(o: &Option<String>) -> (r: Option<String>)
    ensures
        opt_view(r) == opt_view(*o),
{
    match o {
        Some(s) => Some(s.clone()),
        None => None,
    }
}

/// Assembles a URI from its components with `http::Uri::builder()`, setting
/// each component that is present, and renders it with `to_string`.
///
/// The builder parses each component, so the result is named
/// (`uri_from_parts`); beside that, the contract states what
/// `http::Uri::from_parts` checks: a scheme needs an authority and a path,
/// and an authority with a path needs a scheme.
#[verifier::external_body]
fn build_uri(
    scheme: Option<&str>,
    authority: Option<&str>,
    path_and_query: Option<&str>,
) -> (r: Option<String>)
    ensures
        opt_view(r) == uri_from_parts(
            opt_str_view(scheme),
            opt_str_view(authority),
            opt_str_view(path_and_query),
        ),
        scheme is Some && authority is None ==> r is None,
        scheme is Some && path_and_query is None ==> r is None,
        scheme is None && authority is Some && path_and_query is Some ==> r is None,
{
    let mut b = http::Uri::builder();
    if let Some(s) = scheme {
        b = b.scheme(s);
    }
    if let Some(a) = authority {
        b = b.authority(a);
    }
    if let Some(p) = path_and_query {
        b = b.path_and_query(p);
    }
    b.build().ok().map(|u| u.to_string())
}

/// The view of an optional string slice.
pub open spec fn opt_str_view(o: Option<&str>) -> Option<Seq<char>> {
    match o {
        Some(s) => Some(s@),
        None => None,
    }
}

/// Borrows an optional text.
fn as_opt_str(o: &Option<String>) -> (r: Option<&str>)
    ensures
        opt_str_view(r) == opt_view(*o),
{
    match o {
        Some(s) => Some(s.as_str()),
        None => None,
    }
}

impl UriParts {
    /// Assembles the URI text of these components.
    pub fn build(&self) -> (r: Option<String>)
        ensures
            opt_view(r) == uri_from_parts(
                self@.scheme,
                self@.authority,
                self@.path_and_query,
            ),
            self.scheme is Some && self.authority is None ==> r is None,
            self.scheme is Some && self.path_and_query is None ==> r is None,
    {
        build_uri(
            as_opt_str(&self.scheme),
            as_opt_str(&self.authority),
            as_opt_str(&self.path_and_query),
        )
    }
}

/// The components of a request URI aimed at the target of an HTTP/3
/// channel: the target's scheme and authority with the request's path and
/// query, or `None` when one of them is missing.
pub open spec fn spec_h3_request_parts(target: UriView, request: UriView) -> Option<UriView> {
    if target.scheme is Some && target.authority is Some && request.path_and_query is Some {
        Some(
            UriView {
                scheme: target.scheme,
                authority: target.authority,
                path_and_query: request.path_and_query,
            },
        )
    } else {
        None
    }
}

/// The request URI of an HTTP/3 call is aimed at the channel's target:
/// the target's scheme and authority with the request's own path and
/// query, whatever scheme or authority the request named; a missing one
/// of these three gives none.
pub proof fn lemma_h3_request_aims_at_target(target: UriView, request: UriView)
    ensures
        spec_h3_request_parts(target, request) matches Some(p) ==> p.scheme == target.scheme
            && p.authority == target.authority && p.path_and_query == request.path_and_query,
        spec_h3_request_parts(target, request) is Some <==> (target.scheme is Some
            && target.authority is Some && request.path_and_query is Some),
{
}

/// The components of a request URI aimed at the target of an HTTP/3
/// channel (see `spec_h3_request_parts`).
pub fn h3_request_parts(target: &UriParts, request: &UriParts) -> (r: Option<UriParts>)
    ensures
        match r {
            Some(p) => spec_h3_request_parts(target@, request@) == Some(p@),
            None => spec_h3_request_parts(target@, request@) is None,
        },
{
    if target.scheme.is_some() && target.authority.is_some() && request.path_and_query.is_some() {
        Some(
            UriParts {
                scheme: clone_opt(&target.scheme),
                authority: clone_opt(&target.authority),
                path_and_query: clone_opt(&request.path_and_query),
            },
        )
    } else {
        None
    }
}

/// The URI with which an HTTP/3 client call sends a request: the target's
/// scheme and authority with the request's path and query, assembled by
/// `http`. The target must have a scheme and an authority, and the request
/// a path; `None` when `http` refuses the components.
pub fn h3_request_uri(target: &UriParts, request: &UriParts) -> (r: Option<String>)
    requires
        target@.scheme is Some,
        target@.authority is Some,
        request@.path_and_query is Some,
    ensures
        opt_view(r) == uri_from_parts(target@.scheme, target@.authority, request@.path_and_query),
{
    match h3_request_parts(target, request) {
        Some(p) => p.build(),
        None => None,
    }
}

/// A URI with its authority replaced.
pub open spec fn spec_with_authority(u: UriView, authority: Seq<char>) -> UriView {
    UriView { scheme: u.scheme, authority: Some(authority), path_and_query: u.path_and_query }
}

/// Replaces the authority of a URI, keeping its scheme, path and query.
pub fn with_authority(u: &UriParts, authority: &str) -> (r: UriParts)
    ensures
        r@ == spec_with_authority(u@, authority@),
{
    UriParts {
        scheme: clone_opt(&u.scheme),
        authority: Some(authority.to_string()),
        path_and_query: clone_opt(&u.path_and_query),
    }
}

/// Replacing the authority twice is replacing it once, with the second:
/// a connector that redirects to a fixed address may redirect a URI it has
/// already redirected.
pub proof fn lemma_with_authority_last_wins(u: UriView, a: Seq<char>, b: Seq<char>)
    ensures
        spec_with_authority(spec_with_authority(u, a), b) == spec_with_authority(u, b),
        spec_with_authority(spec_with_authority(u, a), a) == spec_with_authority(u, a),
        spec_with_authority(u, a).scheme == u.scheme,
        spec_with_authority(u, a).path_and_query == u.path_and_query,
        spec_with_authority(u, a).authority == Some(a),
{
}

} // verus!
