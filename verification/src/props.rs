//! Props resolution: anything that can turn itself into a JSON value may be
//! used as page props. The resolver passes the partial-reload request
//! along; the plain `JsonValue` impl deliberately ignores it and returns
//! its full shape -- honoring the partial subset is an opt-in capability of
//! richer props types, which `filter_props` supports.

use vstd::prelude::*;

use crate::json::JsonValue;
use crate::partial::{string_views, Partial};
use crate::text::str_eq;

verus! {

/// An application value could not be turned into JSON.
#[derive(Debug)]
pub struct SerializationError {
    pub message: String,
}

/// Values usable as Inertia props.
///
/// `resolved` names the outcome of serialization so callers' contracts can
/// speak of it; `serialize` must return exactly that outcome.
pub trait Props: Sized {
    /// What serialization yields for this value under the given
    /// partial-reload request.
    spec fn resolved(self, partial: Option<Partial>) -> Result<JsonValue, SerializationError>;

    /// Serialize to JSON, given data about partial reloads.
    fn serialize(self, partial: &Option<Partial>) -> (r: Result<JsonValue, SerializationError>)
        ensures
            r == self.resolved(*partial),
    ;
}

impl Props for JsonValue {
    /// A plain JSON value serializes to itself, whatever the partial
    /// request says.
    open spec fn resolved(self, partial: Option<Partial>) -> Result<
        JsonValue,
        SerializationError,
    > {
        Ok(self)
    }

    fn serialize(self, partial: &Option<Partial>) -> (r: Result<JsonValue, SerializationError>) {
        Ok(self)
    }
}

/// Whether `list` holds a string whose text is `s`.
pub(crate) fn contains_str(list: &Vec<String>, s: &str) -> (r: bool)
    ensures
        r == string_views(list@).contains(s@),
{
    let n = list.len();
    let mut i: usize = 0;
    while i < n
        invariant
            n == list@.len(),
            i <= n,
            forall|j: int| 0 <= j < i ==> string_views(list@)[j] != s@,
        decreases n - i,
    {
        if str_eq(list[i].as_str(), s) {
            assert(string_views(list@)[i as int] == s@);
            return true;
        }
        i = i + 1;
    }
    false
}

/// The object fields whose key is among the requested names, in field
/// order; fields not requested are dropped, never nulled.
pub open spec fn filtered_fields(
    fields: Seq<(String, JsonValue)>,
    requested: Seq<Seq<char>>,
) -> Seq<(String, JsonValue)>
    decreases fields.len(),
{
    if fields.len() == 0 {
        Seq::empty()
    } else if requested.contains(fields[0].0@) {
        seq![fields[0]] + filtered_fields(fields.drop_first(), requested)
    } else {
        filtered_fields(fields.drop_first(), requested)
    }
}

/// Prunes a JSON object to the requested keys, for props types that honor
/// partial reloads. A value that is not an object is returned whole.
pub fn filter_props(props: JsonValue, requested: &Vec<String>) -> (r: JsonValue)
    ensures
        match props {
            JsonValue::Obj(fields) => r matches JsonValue::Obj(kept) && kept@ == filtered_fields(
                fields@,
                string_views(requested@),
            ),
            _ => r == props,
        },
{
    match props {
        JsonValue::Obj(fields) => {
            let ghost orig = fields@;
            let mut rest = fields;
            let mut kept: Vec<(String, JsonValue)> = Vec::new();
            while rest.len() > 0
                invariant
                    filtered_fields(orig, string_views(requested@)) == kept@ + filtered_fields(
                        rest@,
                        string_views(requested@),
                    ),
                decreases rest@.len(),
            {
                let ghost before = rest@;
                let f = rest.remove(0);
                proof {
                    assert(before.remove(0) =~= before.drop_first());
                }
                let wanted = contains_str(requested, f.0.as_str());
                if wanted {
                    kept.push(f);
                    proof {
                        assert(kept@ + filtered_fields(rest@, string_views(requested@))
                            =~= filtered_fields(orig, string_views(requested@)));
                    }
                }
            }
            proof {
                assert(kept@ + filtered_fields(rest@, string_views(requested@)) =~= kept@);
            }
            JsonValue::Obj(kept)
        },
        _ => props,
    }
}

} // verus!
