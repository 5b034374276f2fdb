//! The canonical page object: the wire payload shared by both response
//! representations. It serializes to a JSON object with exactly the four
//! keys `component`, `props`, `url` and `version`, in that order.

use vstd::prelude::*;

use crate::json::{json_text, write_json, JsonValue};
use crate::text::{json_escaped, push_json_escaped, push_str};

verus! {

/// Data for the Inertia page object.
///
/// Sent as the payload of in-protocol responses, or embedded in the
/// `data-page` attribute of the initial HTML page.
pub struct Page {
    pub component: String,
    pub props: JsonValue,
    pub url: String,
    pub version: Option<String>,
}

/// The JSON text of the version field: the version string, or null when
/// none is configured.
pub open spec fn version_json_text(v: Option<String>) -> Seq<char> {
    match v {
        None => "null"@,
        Some(s) => seq!['"'] + json_escaped(s@) + seq!['"'],
    }
}

/// The exact JSON text of a page: an object with the four protocol keys.
pub open spec fn page_text(p: Page) -> Seq<char> {
    "{\"component\":\""@ + json_escaped(p.component@) + "\",\"props\":"@ + json_text(p.props)
        + ",\"url\":\""@ + json_escaped(p.url@) + "\",\"version\":"@ + version_json_text(p.version)
        + seq!['}']
}

impl Page {
    /// The serialized page object.
    pub fn to_json_string(&self) -> (r: String)
        ensures
            r@ == page_text(*self),
    {
        let mut out = String::new();
        push_str(&mut out, "{\"component\":\"");
        push_json_escaped(&mut out, self.component.as_str());
        push_str(&mut out, "\",\"props\":");
        write_json(&self.props, &mut out);
        push_str(&mut out, ",\"url\":\"");
        push_json_escaped(&mut out, self.url.as_str());
        push_str(&mut out, "\",\"version\":");
        match &self.version {
            None => push_str(&mut out, "null"),
            Some(v) => {
                crate::text::push_char(&mut out, '"');
                push_json_escaped(&mut out, v.as_str());
                crate::text::push_char(&mut out, '"');
            },
        }
        crate::text::push_char(&mut out, '}');
        proof {
            assert(out@ =~= page_text(*self));
        }
        out
    }
}

} // verus!
