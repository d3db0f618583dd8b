//! Flattening an operation's request-body schema into a probe input
//! shape.
//!
//! Only a top-level `Object` schema with a non-empty property map yields a
//! flat field list; every other declared body collapses to a single
//! opaque JSON value, and an operation without a request body takes no
//! body-derived input at all.  Symbolic references are resolved against
//! the document's definition tables; a dangling reference, or one whose
//! target is itself a reference, is fatal.

use vstd::prelude::*;
use crate::casing::{snake_of, to_snake_case};
use crate::model::{BodyRef, RequestBody, Schema};
use crate::probe::{BodyShape, ShapeView};
use crate::text::{spec_underscore_dots, str_eq, underscore_dots};

verus! {

// ---------------------------------------------------------------------------
// Association-list lookup
// ---------------------------------------------------------------------------

/// The first entry of `entries` whose key holds the characters of `key`.
pub open spec fn spec_lookup<V>(entries: Seq<(String, V)>, key: Seq<char>) -> Option<V>
    decreases entries.len(),
{
    if entries.len() == 0 {
        Option::None
    } else if entries[0].0@ == key {
        Option::Some(entries[0].1)
    } else {
        spec_lookup(entries.drop_first(), key)
    }
}

fn lookup<'a, V>(entries: &'a Vec<(String, V)>, key: &str) -> (r: Option<&'a V>)
    ensures
        r matches Some(v) ==> (spec_lookup(entries@, key@) matches Some(sv) && *v == sv),
        r is None ==> spec_lookup(entries@, key@) is None,
{
    let n: usize = entries.len();
    assert(entries@.skip(0) =~= entries@);
    let mut i: usize = 0;
    while i < n
        invariant
            n == entries@.len(),
            0 <= i <= n,
            spec_lookup(entries@, key@) == spec_lookup(entries@.skip(i as int), key@),
        decreases n - i,
    {
        let ghost rem = entries@.skip(i as int);
        assert(rem[0] == entries@[i as int]);
        assert(rem.drop_first() =~= entries@.skip(i as int + 1));
        if str_eq(entries[i].0.as_str(), key) {
            return Some(&entries[i].1);
        }
        i = i + 1;
    }
    assert(entries@.skip(n as int) =~= Seq::<(String, V)>::empty());
    None
}

// ---------------------------------------------------------------------------
// Reference resolution
// ---------------------------------------------------------------------------

/// Resolve a request body: inline bodies stand for themselves, references
/// are looked up among the document's body definitions.
pub open spec fn spec_resolve_body(b: BodyRef, bdefs: Seq<(String, RequestBody)>) -> Result<
    RequestBody,
    Seq<char>,
> {
    match b {
        BodyRef::Inline(rb) => Ok(rb),
        BodyRef::Reference(name) => match spec_lookup(bdefs, name@) {
            Option::Some(rb) => Ok(rb),
            Option::None => Err(name@),
        },
    }
}

/// Resolve the top level of a schema: a reference is replaced by its
/// definition; a missing definition, or a definition that is itself a
/// reference, cannot be resolved.
pub open spec fn spec_resolve_schema(s: Schema, sdefs: Seq<(String, Schema)>) -> Result<
    Schema,
    Seq<char>,
> {
    match s {
        Schema::Ref(r) => match spec_lookup(sdefs, r.reference@) {
            Option::Some(t) => if t is Ref {
                Err(r.reference@)
            } else {
                Ok(t)
            },
            Option::None => Err(r.reference@),
        },
        _ => Ok(s),
    }
}

// ---------------------------------------------------------------------------
// Field naming
// ---------------------------------------------------------------------------

/// The flattened field name a body property key produces: dots become
/// path separators, then the key is case-normalized.
pub open spec fn spec_field_name(key: Seq<char>) -> Seq<char> {
    snake_of(spec_underscore_dots(key))
}

/// The flattened field names of an object schema's property list, in
/// declaration order.
pub open spec fn spec_field_names(props: Seq<(String, Schema)>) -> Seq<Seq<char>> {
    props.map_values(|p: (String, Schema)| spec_field_name(p.0@))
}

fn field_names(props: &Vec<(String, Schema)>) -> (r: Vec<String>)
    ensures
        r.deep_view() == spec_field_names(props@),
{
    let n: usize = props.len();
    let mut r: Vec<String> = Vec::new();
    let mut i: usize = 0;
    while i < n
        invariant
            n == props@.len(),
            0 <= i <= n,
            r.deep_view() == spec_field_names(props@.take(i as int)),
        decreases n - i,
    {
        let underscored = underscore_dots(props[i].0.as_str());
        let name = to_snake_case(underscored.as_str());
        let ghost prev = r.deep_view();
        r.push(name);
        proof {
            let old_s = props@.take(i as int);
            let new_s = props@.take(i as int + 1);
            assert(forall|k: int| 0 <= k < i as int ==> old_s[k] == props@[k]);
            assert(forall|k: int| 0 <= k <= i as int ==> new_s[k] == props@[k]);
            assert(r.deep_view() =~= prev.push(name@));
            assert(r.deep_view() =~= spec_field_names(new_s));
        }
        i = i + 1;
    }
    assert(props@.take(n as int) =~= props@);
    r
}

// ---------------------------------------------------------------------------
// The flattener
// ---------------------------------------------------------------------------

/// The input shape a resolved request body yields: a field list for an
/// object schema with properties, an opaque JSON value otherwise.
pub open spec fn spec_shape_of_body(rb: RequestBody, sdefs: Seq<(String, Schema)>) -> Result<
    ShapeView,
    Seq<char>,
> {
    match spec_lookup(rb.content@, "application/json"@) {
        Option::None => Ok(ShapeView::Opaque),
        Option::Some(mo) => match mo.schema {
            Option::None => Ok(ShapeView::Opaque),
            Option::Some(schema) => match spec_resolve_schema(schema, sdefs) {
                Err(e) => Err(e),
                Ok(resolved) => match resolved {
                    Schema::Object(obj) => if obj.properties@.len() > 0 {
                        Ok(ShapeView::Fields(spec_field_names(obj.properties@)))
                    } else {
                        Ok(ShapeView::Opaque)
                    },
                    _ => Ok(ShapeView::Opaque),
                },
            },
        },
    }
}

/// The input shape of an operation's declared request body, or the
/// dangling reference that makes the operation uncompilable.
pub open spec fn spec_flatten(
    body: Option<BodyRef>,
    bdefs: Seq<(String, RequestBody)>,
    sdefs: Seq<(String, Schema)>,
) -> Result<ShapeView, Seq<char>> {
    match body {
        Option::None => Ok(ShapeView::NoBody),
        Option::Some(b) => match spec_resolve_body(b, bdefs) {
            Err(e) => Err(e),
            Ok(rb) => spec_shape_of_body(rb, sdefs),
        },
    }
}

/// Flatten an operation's request body into its input shape.  An `Err`
/// carries the reference that did not resolve.
pub fn flatten_body(
    body: &Option<BodyRef>,
    bdefs: &Vec<(String, RequestBody)>,
    sdefs: &Vec<(String, Schema)>,
) -> (r: Result<BodyShape, String>)
    ensures
        r matches Ok(sh) ==> (spec_flatten(*body, bdefs@, sdefs@) matches Ok(v) && sh@ == v),
        r matches Err(name) ==> (spec_flatten(*body, bdefs@, sdefs@) matches Err(e) && name@
            == e),
{
    let rb: &RequestBody = match body {
        Option::None => {
            return Ok(BodyShape::NoBody);
        },
        Option::Some(BodyRef::Inline(rb)) => rb,
        Option::Some(BodyRef::Reference(name)) => match lookup(bdefs, name.as_str()) {
            Option::Some(rb) => rb,
            Option::None => {
                return Err(name.clone());
            },
        },
    };
    let mo = match lookup(&rb.content, "application/json") {
        Option::None => {
            return Ok(BodyShape::Opaque);
        },
        Option::Some(mo) => mo,
    };
    let schema: &Schema = match &mo.schema {
        Option::None => {
            return Ok(BodyShape::Opaque);
        },
        Option::Some(schema) => schema,
    };
    let resolved: &Schema = match schema {
        Schema::Ref(r) => match lookup(sdefs, r.reference.as_str()) {
            Option::Some(t) => match t {
                Schema::Ref(_) => {
                    return Err(r.reference.clone());
                },
                _ => t,
            },
            Option::None => {
                return Err(r.reference.clone());
            },
        },
        _ => schema,
    };
    match resolved {
        Schema::Object(obj) => {
            if obj.properties.len() > 0 {
                Ok(BodyShape::Fields(field_names(&obj.properties)))
            } else {
                Ok(BodyShape::Opaque)
            }
        },
        _ => Ok(BodyShape::Opaque),
    }
}

} // verus!
