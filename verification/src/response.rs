//! The response assembler: given the page, the request facts and the
//! configuration, produce the outbound representation -- the JSON page
//! object for in-protocol requests, the layout-wrapped HTML document for
//! full loads -- with the protocol headers, and the short-circuit
//! responses for version conflicts and malformed headers.

use vstd::prelude::*;

use crate::config::{layout_text, InertiaConfig};
use crate::page::{page_text, Page};
use crate::props::SerializationError;
use crate::request::Request;
use crate::text::{html_escaped, html_unescaped, lemma_html_escape_round_trip, push_str};

verus! {

/// What kind of body a finished response carries.
#[derive(Debug)]
pub enum BodyKind {
    Empty,
    Json,
    Html,
}

/// A finished response, in plain values a host adapter can send: status,
/// headers in order, and the body with its kind.
#[derive(Debug)]
pub struct HttpResponse {
    pub status: u16,
    pub headers: Vec<(String, String)>,
    pub kind: BodyKind,
    pub body: String,
}

/// The views of a header list.
pub open spec fn header_views(h: Seq<(String, String)>) -> Seq<(Seq<char>, Seq<char>)> {
    h.map_values(|p: (String, String)| (p.0@, p.1@))
}

/// The version header carried by every assembled page response, when a
/// version is configured.
pub open spec fn version_header_views(version: Option<String>) -> Seq<(Seq<char>, Seq<char>)> {
    match version {
        None => Seq::empty(),
        Some(v) => seq![("X-Inertia-Version"@, v@)],
    }
}

/// An Inertia response: the page produced by the handler (or the
/// serialization failure), with the request facts and configuration that
/// decide its envelope.
pub struct Response {
    pub request: Request,
    pub page: Result<Page, SerializationError>,
    pub config: InertiaConfig,
}

/// Exactly what `into_http` returns: on a serialization failure a bare
/// internal error; otherwise status 200, the version header when
/// configured, and either the page JSON under an `X-Inertia: true` header
/// or the layout-wrapped HTML document. Both branches carry the same page
/// text; only the envelope differs.
pub open spec fn http_response_spec(resp: Response, r: HttpResponse) -> bool {
    match resp.page {
        Err(_) => {
            &&& r.status == 500
            &&& header_views(r.headers@) == Seq::<(Seq<char>, Seq<char>)>::empty()
            &&& r.kind is Empty
            &&& r.body@ == Seq::<char>::empty()
        },
        Ok(page) => {
            &&& r.status == 200
            &&& if resp.request.is_xhr {
                &&& header_views(r.headers@) == version_header_views(resp.config.version) + seq![
                    ("X-Inertia"@, "true"@),
                ]
                &&& r.kind is Json
                &&& r.body@ == page_text(page)
            } else {
                &&& header_views(r.headers@) == version_header_views(resp.config.version)
                &&& r.kind is Html
                &&& r.body@ == layout_text(resp.config.layout, page_text(page))
            }
        },
    }
}

impl Response {
    /// Assembles the final representation.
    pub fn into_http(self) -> (r: HttpResponse)
        ensures
            http_response_spec(self, r),
    {
        match self.page {
            Err(_) => {
                let headers: Vec<(String, String)> = Vec::new();
                proof {
                    assert(header_views(headers@) =~= Seq::<(Seq<char>, Seq<char>)>::empty());
                }
                HttpResponse { status: 500, headers, kind: BodyKind::Empty, body: String::new() }
            },
            Ok(page) => {
                let mut headers: Vec<(String, String)> = Vec::new();
                match &self.config.version {
                    None => {},
                    Some(v) => {
                        headers.push(("X-Inertia-Version".to_owned(), v.clone()));
                    },
                }
                proof {
                    assert(header_views(headers@) =~= version_header_views(self.config.version));
                }
                if self.request.is_xhr {
                    headers.push(("X-Inertia".to_owned(), "true".to_owned()));
                    proof {
                        assert(header_views(headers@) =~= version_header_views(self.config.version)
                            + seq![("X-Inertia"@, "true"@)]);
                    }
                    let body = page.to_json_string();
                    HttpResponse { status: 200, headers, kind: BodyKind::Json, body }
                } else {
                    let page_json = page.to_json_string();
                    let body = self.config.layout.render(page_json.as_str());
                    HttpResponse { status: 200, headers, kind: BodyKind::Html, body }
                }
            },
        }
    }
}

/// The forced-reload signal: a 409 whose `X-Inertia-Location` header names
/// the request path, telling the client to navigate by full browser load.
pub fn conflict_response(location: &str) -> (r: HttpResponse)
    ensures
        r.status == 409,
        header_views(r.headers@) == seq![("X-Inertia-Location"@, location@)],
        r.kind is Empty,
        r.body@ == Seq::<char>::empty(),
{
    let mut headers: Vec<(String, String)> = Vec::new();
    let mut value = String::new();
    push_str(&mut value, location);
    headers.push(("X-Inertia-Location".to_owned(), value));
    proof {
        assert(header_views(headers@) =~= seq![("X-Inertia-Location"@, location@)]);
    }
    HttpResponse { status: 409, headers, kind: BodyKind::Empty, body: String::new() }
}

/// The response to a malformed protocol header: a bare 400.
pub fn bad_request_response() -> (r: HttpResponse)
    ensures
        r.status == 400,
        header_views(r.headers@) == Seq::<(Seq<char>, Seq<char>)>::empty(),
        r.kind is Empty,
        r.body@ == Seq::<char>::empty(),
{
    let headers: Vec<(String, String)> = Vec::new();
    proof {
        assert(header_views(headers@) =~= Seq::<(Seq<char>, Seq<char>)>::empty());
    }
    HttpResponse { status: 400, headers, kind: BodyKind::Empty, body: String::new() }
}

/// Envelope symmetry: for one page, the JSON branch's body is the page
/// text, the HTML branch embeds exactly its HTML-escape between the
/// layout's fixed prelude and epilogue, and unescaping that embedded
/// payload gives back the JSON body byte for byte.
pub proof fn lemma_envelope_symmetry(
    json_resp: Response,
    html_resp: Response,
    rj: HttpResponse,
    rh: HttpResponse,
)
    requires
        json_resp.page == html_resp.page,
        json_resp.page is Ok,
        json_resp.request.is_xhr,
        !html_resp.request.is_xhr,
        http_response_spec(json_resp, rj),
        http_response_spec(html_resp, rh),
    ensures
        rj.body@ == page_text(json_resp.page->Ok_0),
        rh.body@ == html_resp.config.layout.prelude@ + html_escaped(rj.body@)
            + html_resp.config.layout.epilogue@,
        html_unescaped(html_escaped(rj.body@)) == rj.body@,
{
    lemma_html_escape_round_trip(rj.body@);
}

} // verus!
