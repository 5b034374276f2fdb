//! Server-wide Inertia configuration: the current asset version and the
//! HTML document that wraps the serialized page object on a full load. A
//! layout is plain data -- the document text before and after the embedded
//! page -- so rendering is the one escape-and-splice operation the
//! protocol needs.

use vstd::prelude::*;

use crate::text::{html_escaped, push_html_escaped, push_str};

verus! {

/// The HTML document around the page object: `prelude`, then the
/// HTML-escaped page JSON (normally inside a `data-page` attribute), then
/// `epilogue`.
pub struct Layout {
    pub prelude: String,
    pub epilogue: String,
}

/// The full document a layout produces for one serialized page.
pub open spec fn layout_text(l: Layout, page_json: Seq<char>) -> Seq<char> {
    l.prelude@ + html_escaped(page_json) + l.epilogue@
}

impl Layout {
    /// Renders the initial-load document for one serialized page object.
    pub fn render(&self, page_json: &str) -> (r: String)
        ensures
            r@ == layout_text(*self, page_json@),
    {
        let mut out = self.prelude.clone();
        push_html_escaped(&mut out, page_json);
        push_str(&mut out, self.epilogue.as_str());
        out
    }
}

/// Inertia configuration: constructed once at startup and read by every
/// request; never mutated afterwards.
pub struct InertiaConfig {
    pub version: Option<String>,
    pub layout: Layout,
}

impl InertiaConfig {
    /// Constructs a new InertiaConfig object.
    ///
    /// `layout` describes how to render the initial page load. See the
    /// [crate::vite] module for ready-made layouts.
    pub fn new(version: Option<String>, layout: Layout) -> (r: InertiaConfig)
        ensures
            r.version == version,
            r.layout == layout,
    {
        InertiaConfig { version, layout }
    }

    /// Returns a copy of the optional version string.
    pub fn version(&self) -> (r: Option<String>)
        ensures
            r == self.version,
    {
        match &self.version {
            None => None,
            Some(v) => Some(v.clone()),
        }
    }

    /// Returns a reference to the layout.
    pub fn layout(&self) -> (r: &Layout)
        ensures
            *r == self.layout,
    {
        &self.layout
    }
}

} // verus!
