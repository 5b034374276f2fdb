//! Server side of the Inertia page-exchange protocol.
//!
//! A browser issues normal navigations; the server answers the first load
//! with a full HTML document and later in-protocol navigations with a JSON
//! page object, keeping the two in sync through an asset-version
//! fingerprint and supporting partial re-fetch of a subset of page data.
//!
//! The flow per request: [`request::Request::from_header_bytes`] turns the
//! raw header bytes into protocol facts; [`Inertia::from_request`]
//! reconciles the client's asset version against the configured one and
//! either short-circuits with a forced-reload conflict or lets the handler
//! run; the handler picks a component and props and calls
//! [`Inertia::render`]; [`response::Response::into_http`] assembles the
//! JSON or HTML envelope. A host adapter owns the wire: it hands in plain
//! values and sends the finished [`response::HttpResponse`].

use vstd::prelude::*;

pub mod config;
pub mod json;
pub mod page;
pub mod partial;
pub mod props;
pub mod request;
pub mod response;
pub mod text;
pub mod vite;

use crate::config::InertiaConfig;
use crate::page::Page;
use crate::props::Props;
use crate::request::Request;
use crate::response::{conflict_response, header_views, BodyKind, HttpResponse, Response};

verus! {

/// The view of an optional string.
pub open spec fn opt_string_view(v: Option<String>) -> Option<Seq<char>> {
    match v {
        None => None,
        Some(s) => Some(s@),
    }
}

/// Whether two optional strings hold the same text.
pub(crate) fn opt_string_eq(a: &Option<String>, b: &Option<String>) -> (r: bool)
    ensures
        r == (opt_string_view(*a) == opt_string_view(*b)),
{
    match (a, b) {
        (None, None) => true,
        (Some(x), Some(y)) => crate::text::str_eq(x.as_str(), y.as_str()),
        _ => false,
    }
}

/// The version gate: a read of an in-protocol page is forced to reload iff
/// the server has a version configured and the client's held version is
/// not it (a client holding none counts as mismatched). Requests that are
/// not GETs, or not in-protocol, always pass.
pub open spec fn version_conflict(
    method_is_get: bool,
    is_xhr: bool,
    client: Option<Seq<char>>,
    server: Option<Seq<char>>,
) -> bool {
    method_is_get && is_xhr && server is Some && client != server
}

/// A handler's entry point: the request facts paired with the
/// configuration, after the version gate has let the request through.
pub struct Inertia {
    pub request: Request,
    pub config: InertiaConfig,
}

impl Inertia {
    pub fn new(request: Request, config: InertiaConfig) -> (r: Inertia)
        ensures
            r.request == request,
            r.config == config,
    {
        Inertia { request, config }
    }

    /// Runs the version gate before any handler logic. On conflict the
    /// request is answered at once with the forced-reload signal: a 409
    /// whose `X-Inertia-Location` header holds the request path; no
    /// handler ever sees it. Otherwise the request proceeds unchanged.
    pub fn from_request(method_is_get: bool, request: Request, config: InertiaConfig) -> (r:
        Result<Inertia, HttpResponse>)
        ensures
            version_conflict(
                method_is_get,
                request.is_xhr,
                opt_string_view(request.version),
                opt_string_view(config.version),
            ) ==> (r matches Err(resp) && resp.status == 409 && header_views(resp.headers@)
                == seq![("X-Inertia-Location"@, request.url@)] && resp.kind is Empty
                && resp.body@ == Seq::<char>::empty()),
            !version_conflict(
                method_is_get,
                request.is_xhr,
                opt_string_view(request.version),
                opt_string_view(config.version),
            ) ==> (r matches Ok(i) && i.request == request && i.config == config),
    {
        let server_has_version = match &config.version {
            Some(_) => true,
            None => false,
        };
        if method_is_get && request.is_xhr && server_has_version && !opt_string_eq(
            &request.version,
            &config.version,
        ) {
            let resp = conflict_response(request.url.as_str());
            Err(resp)
        } else {
            Ok(Inertia { request, config })
        }
    }

    /// Renders an Inertia response: resolves the props under the request's
    /// partial-reload facts and pairs the page -- the handler's component,
    /// the resolved props, the request path, the configured version --
    /// with what the assembler needs. A serialization failure is carried
    /// through to surface as an internal error, never swallowed.
    pub fn render<P: Props>(self, component: &str, props: P) -> (r: Response)
        ensures
            r.request == self.request,
            r.config == self.config,
            match props.resolved(self.request.partial) {
                Ok(v) => r.page matches Ok(p) && p.component@ == component@ && p.props == v
                    && p.url == self.request.url && p.version == self.config.version,
                Err(e) => r.page matches Err(e2) && e2 == e,
            },
    {
        let url = self.request.url.clone();
        let version = match &self.config.version {
            None => None,
            Some(v) => Some(v.clone()),
        };
        let page = match props.serialize(&self.request.partial) {
            Ok(v) => Ok(Page { component: component.to_owned(), props: v, url, version }),
            Err(e) => Err(e),
        };
        Response { request: self.request, page, config: self.config }
    }
}

/// The reconciler accepts whenever the two fingerprints coincide.
pub proof fn lemma_matching_versions_never_conflict(
    method_is_get: bool,
    is_xhr: bool,
    client: Option<Seq<char>>,
    server: Option<Seq<char>>,
)
    requires
        client == server,
    ensures
        !version_conflict(method_is_get, is_xhr, client, server),
{
}

/// An in-protocol GET whose held version differs from a configured one --
/// a missing held version too -- is a conflict.
pub proof fn lemma_conflict_on_version_mismatch(client: Option<Seq<char>>, server: Option<Seq<char>>)
    requires
        server is Some,
        client != server,
    ensures
        version_conflict(true, true, client, server),
{
}

/// Without a configured server version there is never a conflict, whatever
/// the client sent.
pub proof fn lemma_no_conflict_without_server_version(
    method_is_get: bool,
    is_xhr: bool,
    client: Option<Seq<char>>,
)
    ensures
        !version_conflict(method_is_get, is_xhr, client, None),
{
}

} // verus!
