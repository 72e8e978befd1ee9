//! JSON documents as the provider answers them, and reading a value at a path.

use vstd::prelude::*;

verus! {

/// A JSON value. A number keeps its text; an object keeps its members in order.
pub enum JsonValue {
    Null,
    Bool(bool),
    Number(String),
    Str(String),
    Array(Vec<JsonValue>),
    Object(Vec<(String, JsonValue)>),
}

/// One step of a path into a JSON value.
pub ghost enum Step {
    Key(Seq<char>),
    Index(int),
}

/// The value of the first member of `members` named `key`.
pub open spec fn find_member(members: Seq<(String, JsonValue)>, key: Seq<char>) -> Option<
    JsonValue,
>
    decreases members.len(),
{
    if members.len() == 0 {
        None
    } else if members[0].0@ == key {
        Some(members[0].1)
    } else {
        find_member(members.drop_first(), key)
    }
}

/// The value that one step leads to, or `None` where there is none: a key
/// reads a member of an object, an index an element of an array.
pub open spec fn child(v: Option<JsonValue>, step: Step) -> Option<JsonValue> {
    match (v, step) {
        (Some(JsonValue::Object(members)), Step::Key(key)) => find_member(members@, key),
        (Some(JsonValue::Array(items)), Step::Index(i)) => if 0 <= i < items@.len() {
            Some(items@[i])
        } else {
            None
        },
        _ => None,
    }
}

/// The value that `path` leads to from `v`, or `None` where it leads nowhere.
pub open spec fn value_at(v: Option<JsonValue>, path: Seq<Step>) -> Option<JsonValue>
    decreases path.len(),
{
    if path.len() == 0 {
        v
    } else {
        value_at(child(v, path[0]), path.drop_first())
    }
}

/// The value behind an optional reference.
pub open spec fn opt_value(v: Option<&JsonValue>) -> Option<JsonValue> {
    match v {
        Some(x) => Some(*x),
        None => None,
    }
}

/// The member `key` of `v`, where `v` is an object that has one.
pub fn member<'a>(v: Option<&'a JsonValue>, key: &str) -> (r: Option<&'a JsonValue>)
    ensures
        opt_value(r) == child(opt_value(v), Step::Key(key@)),
{
    match v {
        Some(JsonValue::Object(members)) => {
            let k = key.to_owned();
            let n = members.len();
            let mut i: usize = 0;
            assert(members@.subrange(0, n as int) =~= members@);
            while i < n
                invariant
                    n == members@.len(),
                    i <= n,
                    k@ == key@,
                    child(opt_value(v), Step::Key(key@)) == find_member(members@, key@),
                    find_member(members@, key@) == find_member(members@.subrange(i as int, n as int), key@),
                decreases n - i,
            {
                assert(members@.subrange(i as int, n as int).drop_first() =~= members@.subrange(
                    i + 1,
                    n as int,
                ));
                assert(members@.subrange(i as int, n as int)[0] == members@[i as int]);
                if members[i].0 == k {
                    return Some(&members[i].1);
                }
                i = i + 1;
            }
            None
        },
        _ => None,
    }
}

/// The element at `index` of `v`, where `v` is an array that long.
pub fn element<'a>(v: Option<&'a JsonValue>, index: usize) -> (r: Option<&'a JsonValue>)
    ensures
        opt_value(r) == child(opt_value(v), Step::Index(index as int)),
{
    match v {
        Some(JsonValue::Array(items)) => {
            if index < items.len() {
                Some(&items[index])
            } else {
                None
            }
        },
        _ => None,
    }
}

} // verus!
