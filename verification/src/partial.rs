//! Partial reload data.
//!
//! Clients can request a subset of the props if a page component is
//! being refreshed. They must also send the component they believe they
//! are refreshing -- the server may respond with a different end
//! component, which will carry a full response.

use vstd::prelude::*;

verus! {

/// The partial-reload request: the prop names asked for, in header order
/// with duplicates kept, and the component the client is refreshing.
pub struct Partial {
    pub props: Vec<String>,
    pub component: String,
}

/// The views of a list of strings.
pub open spec fn string_views(list: Seq<String>) -> Seq<Seq<char>> {
    list.map_values(|s: String| s@)
}

} // verus!
