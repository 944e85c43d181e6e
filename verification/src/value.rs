//! The loosely-typed payload model.
//!
//! A command's raw argument payload, and the persisted form of the scene
//! document, are both trees of [`Value`]s: the JSON-shaped data that crosses
//! the boundary between the engine and the outside world.  Numbers are
//! fixed-point milli-units (see [`crate::geom`]); the embedding application
//! converts external number syntax to and from this form.

use vstd::prelude::*;
use crate::geom::{Milli, Vec2, Vec3};

verus! {

/// A JSON-shaped value.  Object members keep their order; a key is matched
/// by its first occurrence.
#[derive(Debug, PartialEq)]
pub enum Value {
    Null,
    Bool(bool),
    Int(i64),
    Str(String),
    Arr(Vec<Value>),
    Obj(Vec<(String, Value)>),
}

/// The first value bound to `key` among `pairs`, if any.
pub open spec fn spec_get(pairs: Seq<(String, Value)>, key: Seq<char>) -> Option<Value>
    decreases pairs.len(),
{
    if pairs.len() == 0 {
        None
    } else if pairs[0].0@ == key {
        Some(pairs[0].1)
    } else {
        spec_get(pairs.drop_first(), key)
    }
}

/// String equality by contents.
pub fn str_eq(a: &str, b: &str) -> (r: bool)
    ensures
        r == (a@ == b@),
{
    let sa: String = a.to_owned();
    let sb: String = b.to_owned();
    sa == sb
}

/// Looks a key up in an object's member list: the first binding wins.
pub fn obj_get<'a>(pairs: &'a Vec<(String, Value)>, key: &str) -> (r: Option<&'a Value>)
    ensures
        match r {
            Some(v) => spec_get(pairs@, key@) == Some(*v),
            None => spec_get(pairs@, key@) is None,
        },
{
    let mut i: usize = 0;
    proof {
        assert(pairs@.skip(0) =~= pairs@);
    }
    while i < pairs.len()
        invariant
            0 <= i <= pairs@.len(),
            spec_get(pairs@, key@) == spec_get(pairs@.skip(i as int), key@),
        decreases pairs@.len() - i,
    {
        proof {
            assert(pairs@.skip(i as int)[0] == pairs@[i as int]);
        }
        if str_eq(pairs[i].0.as_str(), key) {
            return Some(&pairs[i].1);
        }
        proof {
            assert(pairs@.skip(i as int).drop_first() =~= pairs@.skip(i + 1));
        }
        i = i + 1;
    }
    proof {
        assert(pairs@.skip(i as int).len() == 0);
    }
    None
}

/// What an integer payload value denotes.
pub open spec fn spec_as_int(v: Value) -> Option<Milli> {
    match v {
        Value::Int(n) => Some(n),
        _ => None,
    }
}

/// What a string payload value denotes.
pub open spec fn spec_as_string(v: Value) -> Option<String> {
    match v {
        Value::Str(s) => Some(s),
        _ => None,
    }
}

/// What a three-element number array denotes.
pub open spec fn spec_as_vec3(v: Value) -> Option<Vec3> {
    match v {
        Value::Arr(items) => {
            if items@.len() == 3 {
                match (spec_as_int(items@[0]), spec_as_int(items@[1]), spec_as_int(items@[2])) {
                    (Some(x), Some(y), Some(z)) => Some(Vec3 { x, y, z }),
                    _ => None,
                }
            } else {
                None
            }
        },
        _ => None,
    }
}

/// What a two-element number array denotes.
pub open spec fn spec_as_vec2(v: Value) -> Option<Vec2> {
    match v {
        Value::Arr(items) => {
            if items@.len() == 2 {
                match (spec_as_int(items@[0]), spec_as_int(items@[1])) {
                    (Some(x), Some(y)) => Some(Vec2 { x, y }),
                    _ => None,
                }
            } else {
                None
            }
        },
        _ => None,
    }
}

/// What a whole-number payload value denotes as a count: the milli-unit
/// value must be a non-negative whole number that fits in `u32`.
pub open spec fn spec_as_count(v: Value) -> Option<u32> {
    match v {
        Value::Int(n) => {
            if n >= 0 && n % 1000 == 0 && n / 1000 <= u32::MAX as i64 {
                Some((n / 1000) as u32)
            } else {
                None
            }
        },
        _ => None,
    }
}

/// Reads an integer payload value.
pub fn as_int(v: &Value) -> (r: Option<Milli>)
    ensures
        r == spec_as_int(*v),
{
    match v {
        Value::Int(n) => Some(*n),
        _ => None,
    }
}

/// Reads a string payload value, copying its contents.
pub fn as_string(v: &Value) -> (r: Option<String>)
    ensures
        r == spec_as_string(*v),
{
    match v {
        Value::Str(s) => Some(s.clone()),
        _ => None,
    }
}

/// Reads a three-element number array.
pub fn as_vec3(v: &Value) -> (r: Option<Vec3>)
    ensures
        r == spec_as_vec3(*v),
{
    match v {
        Value::Arr(items) => {
            if items.len() == 3 {
                match (as_int(&items[0]), as_int(&items[1]), as_int(&items[2])) {
                    (Some(x), Some(y), Some(z)) => Some(Vec3 { x, y, z }),
                    _ => None,
                }
            } else {
                None
            }
        },
        _ => None,
    }
}

/// Reads a two-element number array.
pub fn as_vec2(v: &Value) -> (r: Option<Vec2>)
    ensures
        r == spec_as_vec2(*v),
{
    match v {
        Value::Arr(items) => {
            if items.len() == 2 {
                match (as_int(&items[0]), as_int(&items[1])) {
                    (Some(x), Some(y)) => Some(Vec2 { x, y }),
                    _ => None,
                }
            } else {
                None
            }
        },
        _ => None,
    }
}

/// Reads a count (a non-negative whole number of units).
pub fn as_count(v: &Value) -> (r: Option<u32>)
    ensures
        r == spec_as_count(*v),
{
    match v {
        Value::Int(n) => {
            let n = *n;
            if n >= 0 {
                let m: u64 = n as u64;
                if m % 1000 == 0 && m / 1000 <= u32::MAX as u64 {
                    Some((m / 1000) as u32)
                } else {
                    None
                }
            } else {
                None
            }
        },
        _ => None,
    }
}

} // verus!
