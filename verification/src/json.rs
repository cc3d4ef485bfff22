//! A structural model of JSON values, and the deep-object flattening of a
//! JSON object into query parameters.

use crate::render::{i64_dec, i64_to_string, u64_dec, u64_to_string};
use vstd::prelude::*;

verus! {

/// A JSON value. Numbers are modelled as signed integers: the deep-object
/// flattening only renders them, and the parameters this library builds never
/// carry fractional numbers.
#[derive(Debug, PartialEq)]
pub enum JsonValue {
    Null,
    Bool(bool),
    Number(i64),
    String(String),
    Array(Vec<JsonValue>),
    Object(Vec<(String, JsonValue)>),
}

/// The text a scalar value contributes to a parameter list.
pub open spec fn scalar_text(v: JsonValue) -> Seq<char> {
    match v {
        JsonValue::Null => "null"@,
        JsonValue::Bool(b) => if b {
            "true"@
        } else {
            "false"@
        },
        JsonValue::Number(n) => i64_dec(n as int),
        JsonValue::String(s) => s@,
        _ => Seq::empty(),
    }
}

/// `prefix[k]`.
pub open spec fn bracket_key(prefix: Seq<char>, k: Seq<char>) -> Seq<char> {
    prefix + "["@ + k + "]"@
}

/// The values the deep-object flattening accepts: an object whose members
/// are scalars, accepted objects, or arrays of accepted objects.
pub open spec fn deep_ok(v: JsonValue) -> bool
    decreases v, 0int,
{
    match v {
        JsonValue::Object(members) => members_ok(members@),
        _ => false,
    }
}

/// Every member value of an object is acceptable.
pub open spec fn members_ok(ms: Seq<(String, JsonValue)>) -> bool
    decreases ms, 0int,
{
    ms.len() == 0 || (member_ok(ms[0].1) && members_ok(ms.drop_first()))
}

/// One member value is acceptable.
pub open spec fn member_ok(m: JsonValue) -> bool
    decreases m, 1int,
{
    match m {
        JsonValue::Object(_) => deep_ok(m),
        JsonValue::Array(arr) => items_ok(arr@),
        _ => true,
    }
}

/// Every array item is an acceptable object.
pub open spec fn items_ok(items: Seq<JsonValue>) -> bool
    decreases items, 0int,
{
    items.len() == 0 || (deep_ok(items[0]) && items_ok(items.drop_first()))
}

/// The flattened parameters of an accepted object under `prefix`.
pub open spec fn deep_params(prefix: Seq<char>, v: JsonValue) -> Seq<(Seq<char>, Seq<char>)>
    decreases v, 0int,
{
    match v {
        JsonValue::Object(members) => members_params(prefix, members@),
        _ => Seq::empty(),
    }
}

/// The parameters contributed by a run of object members.
pub open spec fn members_params(prefix: Seq<char>, ms: Seq<(String, JsonValue)>) -> Seq<
    (Seq<char>, Seq<char>),
>
    decreases ms, 0int,
{
    if ms.len() == 0 {
        Seq::empty()
    } else {
        member_params(bracket_key(prefix, ms[0].0@), ms[0].1) + members_params(
            prefix,
            ms.drop_first(),
        )
    }
}

/// The parameters contributed by one member under its bracketed key: nested
/// objects and arrays flatten recursively, scalars become one parameter.
pub open spec fn member_params(key: Seq<char>, m: JsonValue) -> Seq<(Seq<char>, Seq<char>)>
    decreases m, 1int,
{
    match m {
        JsonValue::Object(_) => deep_params(key, m),
        JsonValue::Array(arr) => items_params(key, arr@, 0),
        _ => seq![(key, scalar_text(m))],
    }
}

/// The parameters contributed by the items of an array member, each under
/// its index-bracketed key.
pub open spec fn items_params(key: Seq<char>, items: Seq<JsonValue>, idx: int) -> Seq<
    (Seq<char>, Seq<char>),
>
    decreases items, 0int,
{
    if items.len() == 0 {
        Seq::empty()
    } else {
        deep_params(bracket_key(key, u64_dec(idx)), items[0]) + items_params(
            key,
            items.drop_first(),
            idx + 1,
        )
    }
}

proof fn lemma_members_ok_index(ms: Seq<(String, JsonValue)>, i: int)
    requires
        members_ok(ms),
        0 <= i < ms.len(),
    ensures
        member_ok(ms[i].1),
    decreases i,
{
    if i > 0 {
        lemma_members_ok_index(ms.drop_first(), i - 1);
    }
}

proof fn lemma_items_ok_index(items: Seq<JsonValue>, i: int)
    requires
        items_ok(items),
        0 <= i < items.len(),
    ensures
        deep_ok(items[i]),
    decreases i,
{
    if i > 0 {
        lemma_items_ok_index(items.drop_first(), i - 1);
    }
}

/// `prefix[k]`, built at run time.
fn build_key(prefix: &str, k: &str) -> (key: String)
    ensures
        key@ == bracket_key(prefix@, k@),
{
    let mut key = String::from_str(prefix);
    key.append("[");
    key.append(k);
    key.append("]");
    key
}

/// Flatten an object into `style=deepObject` query parameters: each member
/// becomes `prefix[key]`, nested objects and arrays of objects recurse with
/// bracketed keys and indices, and scalar members render as text.
pub fn parse_deep_object(prefix: &str, value: &JsonValue) -> (params: Vec<(String, String)>)
    requires
        deep_ok(*value),
    ensures
        params.deep_view() == deep_params(prefix@, *value),
    decreases *value,
{
    let mut params: Vec<(String, String)> = Vec::new();
    match value {
        JsonValue::Object(members) => {
            proof {
                assert(members@.skip(0) =~= members@);
                assert(params.deep_view() =~= Seq::<(Seq<char>, Seq<char>)>::empty());
                assert(params.deep_view() + members_params(prefix@, members@) =~= members_params(
                    prefix@,
                    members@,
                ));
            }
            let mut i: usize = 0;
            while i < members.len()
                invariant
                    i <= members.len(),
                    members_ok(members@),
                    deep_ok(*value),
                    *value == JsonValue::Object(*members),
                    members_params(prefix@, members@) == params.deep_view() + members_params(
                        prefix@,
                        members@.skip(i as int),
                    ),
                decreases members.len() - i,
            {
                proof {
                    lemma_members_ok_index(members@, i as int);
                    assert(members@.skip(i as int).drop_first() =~= members@.skip(i + 1 as int));
                    assert(members@.skip(i as int)[0] == members@[i as int]);
                }
                let key = build_key(prefix, members[i].0.as_str());
                let ghost params0 = params.deep_view();
                let m = &members[i].1;
                proof {
                    assert(decreases_to!(*value => *members));
                    assert(decreases_to!(*members => members@));
                    assert(decreases_to!(members@ => members@[i as int]));
                    assert(decreases_to!(members@[i as int] => members@[i as int].1));
                }
                match m {
                    JsonValue::Object(_) => {
                        let mut sub = parse_deep_object(key.as_str(), m);
                        proof {
                            assert(sub.deep_view() == member_params(key@, *m));
                        }
                        params.append(&mut sub);
                        proof {
                            assert(params.deep_view() =~= params0 + member_params(key@, *m));
                        }
                    },
                    JsonValue::Array(arr) => {
                        proof {
                            assert(decreases_to!(*m => m->Array_0));
                            assert(decreases_to!(*arr => arr@));
                            assert(decreases_to!(*value => arr@));
                            assert(arr@.skip(0) =~= arr@);
                        }
                        let mut j: usize = 0;
                        while j < arr.len()
                            invariant
                                j <= arr.len(),
                                items_ok(arr@),
                                decreases_to!(*value => arr@),
                                params0 + items_params(key@, arr@, 0) == params.deep_view()
                                    + items_params(key@, arr@.skip(j as int), j as int),
                            decreases arr.len() - j,
                        {
                            proof {
                                lemma_items_ok_index(arr@, j as int);
                                assert(arr@.skip(j as int)[0] == arr@[j as int]);
                                assert(arr@.skip(j as int).drop_first() =~= arr@.skip(
                                    j + 1 as int,
                                ));
                                assert(decreases_to!(arr@ => arr@[j as int]));
                            }
                            let idx = u64_to_string(j as u64);
                            let jkey = build_key(key.as_str(), idx.as_str());
                            let ghost params1 = params.deep_view();
                            let mut sub = parse_deep_object(jkey.as_str(), &arr[j]);
                            params.append(&mut sub);
                            proof {
                                assert(params.deep_view() =~= params1 + deep_params(
                                    bracket_key(key@, u64_dec(j as int)),
                                    arr@[j as int],
                                ));
                            }
                            j += 1;
                        }
                        proof {
                            assert(arr@.skip(arr@.len() as int) =~= Seq::<JsonValue>::empty());
                            assert(params.deep_view() =~= params0 + member_params(key@, *m));
                        }
                    },
                    JsonValue::String(s) => {
                        params.push((key, s.clone()));
                        proof {
                            assert(params.deep_view() =~= params0 + member_params(
                                bracket_key(prefix@, members@[i as int].0@),
                                *m,
                            ));
                        }
                    },
                    JsonValue::Null => {
                        params.push((key, String::from_str("null")));
                        proof {
                            assert(params.deep_view() =~= params0 + member_params(key@, *m));
                        }
                    },
                    JsonValue::Bool(b) => {
                        let text = if *b {
                            String::from_str("true")
                        } else {
                            String::from_str("false")
                        };
                        params.push((key, text));
                        proof {
                            assert(params.deep_view() =~= params0 + member_params(key@, *m));
                        }
                    },
                    JsonValue::Number(n) => {
                        params.push((key, i64_to_string(*n)));
                        proof {
                            assert(params.deep_view() =~= params0 + member_params(key@, *m));
                        }
                    },
                }
                i += 1;
            }
            proof {
                assert(members@.skip(members@.len() as int) =~= Seq::empty());
                assert(params.deep_view() =~= members_params(prefix@, members@));
            }
        },
        _ => {
            // excluded by `deep_ok`
            unreached::<()>()
        },
    }
    params
}

} // verus!
