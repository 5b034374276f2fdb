//! The JSON values the protocol serializes: page props and the page object
//! itself. The model covers null, booleans, integers, strings, arrays and
//! objects; object fields keep their insertion order. `json_text` defines
//! the exact compact rendering, and `write_json` produces it.

use vstd::prelude::*;

use crate::text::{int_text, json_escaped, push_char, push_i64_dec, push_json_escaped};

verus! {

/// A JSON value, as application props and the page object use them.
pub enum JsonValue {
    Null,
    Bool(bool),
    Int(i64),
    Str(String),
    Arr(Vec<JsonValue>),
    Obj(Vec<(String, JsonValue)>),
}

/// The compact text of a JSON value: no spaces, fields and items in the
/// order they are held.
pub open spec fn json_text(v: JsonValue) -> Seq<char>
    decreases v,
{
    match v {
        JsonValue::Null => "null"@,
        JsonValue::Bool(b) => if b {
            "true"@
        } else {
            "false"@
        },
        JsonValue::Int(i) => int_text(i as int),
        JsonValue::Str(s) => seq!['"'] + json_escaped(s@) + seq!['"'],
        JsonValue::Arr(items) => seq!['['] + items_text(items@) + seq![']'],
        JsonValue::Obj(fields) => seq!['{'] + fields_text(fields@) + seq!['}'],
    }
}

/// The comma-separated items of an array.
pub open spec fn items_text(items: Seq<JsonValue>) -> Seq<char>
    decreases items,
{
    if items.len() == 0 {
        Seq::empty()
    } else {
        json_text(items[0]) + items_tail_text(items.drop_first())
    }
}

/// The items after the first, each preceded by a comma.
pub open spec fn items_tail_text(items: Seq<JsonValue>) -> Seq<char>
    decreases items,
{
    if items.len() == 0 {
        Seq::empty()
    } else {
        seq![','] + json_text(items[0]) + items_tail_text(items.drop_first())
    }
}

/// One object field: quoted escaped key, a colon, the value.
pub open spec fn field_text(f: (String, JsonValue)) -> Seq<char>
    decreases f,
{
    seq!['"'] + json_escaped(f.0@) + seq!['"', ':'] + json_text(f.1)
}

/// The comma-separated fields of an object.
pub open spec fn fields_text(fields: Seq<(String, JsonValue)>) -> Seq<char>
    decreases fields,
{
    if fields.len() == 0 {
        Seq::empty()
    } else {
        field_text(fields[0]) + fields_tail_text(fields.drop_first())
    }
}

/// The fields after the first, each preceded by a comma.
pub open spec fn fields_tail_text(fields: Seq<(String, JsonValue)>) -> Seq<char>
    decreases fields,
{
    if fields.len() == 0 {
        Seq::empty()
    } else {
        seq![','] + field_text(fields[0]) + fields_tail_text(fields.drop_first())
    }
}

/// Appends the compact rendering of `v`.
pub(crate) fn write_json(v: &JsonValue, out: &mut String)
    ensures
        final(out)@ == old(out)@ + json_text(*v),
    decreases *v,
{
    let ghost base = out@;
    match v {
        JsonValue::Null => {
            crate::text::push_str(out, "null");
        },
        JsonValue::Bool(b) => {
            if *b {
                crate::text::push_str(out, "true");
            } else {
                crate::text::push_str(out, "false");
            }
        },
        JsonValue::Int(i) => {
            push_i64_dec(*i, out);
        },
        JsonValue::Str(s) => {
            push_char(out, '"');
            push_json_escaped(out, s.as_str());
            push_char(out, '"');
            proof {
                assert(out@ =~= base + json_text(*v));
            }
        },
        JsonValue::Arr(items) => {
            push_char(out, '[');
            let n = items.len();
            if n > 0 {
                proof {
                    assert(decreases_to!(*v => *items));
                    assert(decreases_to!(*items => items@[0]));
                }
                write_json(&items[0], out);
                let mut j: usize = 1;
                while j < n
                    invariant
                        n == items@.len(),
                        1 <= j <= n,
                        *v == (JsonValue::Arr(*items)),
                        out@ + items_tail_text(items@.skip(j as int)) == base + seq!['[']
                            + items_text(items@),
                    decreases n - j,
                {
                    push_char(out, ',');
                    proof {
                        assert(items@.skip(j as int)[0] == items@[j as int]);
                        assert(items@.skip(j as int).drop_first() =~= items@.skip(j + 1));
                        assert((*v)->Arr_0 == *items);
                        assert(decreases_to!(*v => (*v)->Arr_0));
                        assert(decreases_to!(*items => items@[j as int]));
                    }
                    write_json(&items[j], out);
                    j = j + 1;
                }
                proof {
                    assert(items@.skip(n as int) =~= Seq::<JsonValue>::empty());
                }
            }
            push_char(out, ']');
            proof {
                assert(out@ =~= base + json_text(*v));
            }
        },
        JsonValue::Obj(fields) => {
            push_char(out, '{');
            let n = fields.len();
            if n > 0 {
                proof {
                    assert(decreases_to!(*v => *fields));
                    assert(decreases_to!(*fields => fields@[0]));
                }
                write_field(&fields[0], out);
                let mut j: usize = 1;
                while j < n
                    invariant
                        n == fields@.len(),
                        1 <= j <= n,
                        *v == (JsonValue::Obj(*fields)),
                        out@ + fields_tail_text(fields@.skip(j as int)) == base + seq!['{']
                            + fields_text(fields@),
                    decreases n - j,
                {
                    push_char(out, ',');
                    proof {
                        assert(fields@.skip(j as int)[0] == fields@[j as int]);
                        assert(fields@.skip(j as int).drop_first() =~= fields@.skip(j + 1));
                        assert((*v)->Obj_0 == *fields);
                        assert(decreases_to!(*v => (*v)->Obj_0));
                        assert(decreases_to!(*fields => fields@[j as int]));
                    }
                    write_field(&fields[j], out);
                    j = j + 1;
                }
                proof {
                    assert(fields@.skip(n as int) =~= Seq::<(String, JsonValue)>::empty());
                }
            }
            push_char(out, '}');
            proof {
                assert(out@ =~= base + json_text(*v));
            }
        },
    }
}

/// Appends one object field.
fn write_field(f: &(String, JsonValue), out: &mut String)
    ensures
        final(out)@ == old(out)@ + field_text(*f),
    decreases *f,
{
    let ghost base = out@;
    push_char(out, '"');
    push_json_escaped(out, f.0.as_str());
    push_char(out, '"');
    push_char(out, ':');
    proof {
        assert(decreases_to!(*f => f.1));
    }
    write_json(&f.1, out);
    proof {
        assert(out@ =~= base + field_text(*f));
    }
}

impl JsonValue {
    /// The compact JSON text of this value.
    pub fn to_json_string(&self) -> (r: String)
        ensures
            r@ == json_text(*self),
    {
        let mut out = String::new();
        write_json(self, &mut out);
        out
    }
}

} // verus!
