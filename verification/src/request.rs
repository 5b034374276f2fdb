//! Inertia-related information in the request: the protocol marker, the
//! client's asset version, the request path, and any partial-reload
//! headers. Header values arrive as raw bytes; a value with a byte outside
//! visible ASCII is a malformed header.

use vstd::prelude::*;

use crate::partial::{string_views, Partial};
use crate::text::{
    ascii_chars, decode_header_bytes, push_char, push_str, str_eq, visible_ascii_all,
};

verus! {

/// A protocol header is present but its bytes are not valid header text.
/// Surfaced by the host as a 400 response.
#[derive(Debug)]
pub struct MalformedHeader {}

/// The protocol facts of one request, derived once and then read-only.
pub struct Request {
    pub is_xhr: bool,
    pub version: Option<String>,
    pub url: String,
    pub partial: Option<Partial>,
}

/// An absent header decodes trivially; a present one decodes when all its
/// bytes are visible ASCII.
pub open spec fn header_decodes(h: Option<Vec<u8>>) -> bool {
    match h {
        None => true,
        Some(b) => visible_ascii_all(b@),
    }
}

/// The text of an optional header value.
pub open spec fn header_text(h: Option<Vec<u8>>) -> Option<Seq<char>> {
    match h {
        None => None,
        Some(b) => Some(ascii_chars(b@)),
    }
}

/// The pieces of `s` between commas, in order, duplicates and empty pieces
/// kept; a text without commas is one piece, so the result is never empty.
pub open spec fn split_commas(s: Seq<char>) -> Seq<Seq<char>>
    decreases s.len(),
{
    if s.len() == 0 {
        seq![Seq::<char>::empty()]
    } else if s[0] == ',' {
        seq![Seq::<char>::empty()] + split_commas(s.drop_first())
    } else {
        let rest = split_commas(s.drop_first());
        seq![seq![s[0]] + rest[0]] + rest.drop_first()
    }
}

pub proof fn lemma_split_commas_len(s: Seq<char>)
    ensures
        split_commas(s).len() >= 1,
    decreases s.len(),
{
    if s.len() != 0 {
        lemma_split_commas_len(s.drop_first());
    }
}

/// Splits on commas, as the partial-data header asks: no trimming, no
/// deduplication.
pub(crate) fn split_commas_exec(s: &str) -> (r: Vec<String>)
    ensures
        string_views(r@) == split_commas(s@),
        r@.len() >= 1,
    decreases s@.len(),
{
    proof {
        lemma_split_commas_len(s@);
    }
    let n = s.unicode_len();
    if n == 0 {
        let mut out: Vec<String> = Vec::new();
        out.push(String::new());
        proof {
            assert(string_views(out@) =~= split_commas(s@));
        }
        out
    } else {
        let c = s.get_char(0);
        let rest_str = s.substring_char(1, n);
        proof {
            assert(rest_str@ =~= s@.drop_first());
        }
        let mut rest = split_commas_exec(rest_str);
        if c == ',' {
            rest.insert(0, String::new());
            proof {
                assert(string_views(rest@) =~= split_commas(s@));
            }
            rest
        } else {
            let head = rest.remove(0);
            let mut first = String::new();
            push_char(&mut first, c);
            push_str(&mut first, head.as_str());
            rest.insert(0, first);
            proof {
                assert(first@ =~= seq![s@[0]] + split_commas(s@.drop_first())[0]);
                assert(string_views(rest@) =~= split_commas(s@));
            }
            rest
        }
    }
}

impl Request {
    /// Classifies a request from its path and the raw bytes of the four
    /// protocol headers. Fails exactly when a present header holds a byte
    /// outside visible ASCII. The partial fields are kept only when both
    /// partial headers are present; one alone is ignored, not an error.
    pub fn from_header_bytes(
        url: String,
        marker: Option<Vec<u8>>,
        version: Option<Vec<u8>>,
        partial_data: Option<Vec<u8>>,
        partial_component: Option<Vec<u8>>,
    ) -> (r: Result<Request, MalformedHeader>)
        ensures
            r is Ok <==> header_decodes(marker) && header_decodes(version) && header_decodes(
                partial_data,
            ) && header_decodes(partial_component),
            r matches Ok(req) ==> {
                &&& req.url == url
                &&& req.is_xhr == (header_text(marker) == Some("true"@))
                &&& match version {
                    None => req.version is None,
                    Some(b) => req.version matches Some(v) && v@ == ascii_chars(b@),
                }
                &&& match (partial_data, partial_component) {
                    (Some(d), Some(c)) => req.partial matches Some(p) && string_views(p.props@)
                        == split_commas(ascii_chars(d@)) && p.component@ == ascii_chars(c@),
                    _ => req.partial is None,
                }
            },
    {
        let is_xhr = match &marker {
            None => false,
            Some(b) => match decode_header_bytes(b) {
                None => {
                    return Err(MalformedHeader {  });
                },
                Some(s) => str_eq(s.as_str(), "true"),
            },
        };
        let version_text = match &version {
            None => None,
            Some(b) => match decode_header_bytes(b) {
                None => {
                    return Err(MalformedHeader {  });
                },
                Some(s) => Some(s),
            },
        };
        let data_text = match &partial_data {
            None => None,
            Some(b) => match decode_header_bytes(b) {
                None => {
                    return Err(MalformedHeader {  });
                },
                Some(s) => Some(s),
            },
        };
        let component_text = match &partial_component {
            None => None,
            Some(b) => match decode_header_bytes(b) {
                None => {
                    return Err(MalformedHeader {  });
                },
                Some(s) => Some(s),
            },
        };
        let partial = match (data_text, component_text) {
            (Some(d), Some(c)) => Some(
                Partial { props: split_commas_exec(d.as_str()), component: c },
            ),
            _ => None,
        };
        Ok(Request { is_xhr, version: version_text, url, partial })
    }

    /// A ready-made in-protocol request, for exercising the pipeline
    /// without a host server.
    pub fn test_request() -> (r: Request)
        ensures
            r.is_xhr,
            r.version is None,
            r.url@ == "/foo/bar"@,
            r.partial is None,
    {
        Request { is_xhr: true, version: None, url: "/foo/bar".to_owned(), partial: None }
    }
}

} // verus!
