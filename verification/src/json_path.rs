use vstd::prelude::*;
use crate::json::{Json, JsonView};
use crate::text::{split_all, split_on};
use crate::numbers::{parse_u64, parsed_u64};

verus! {

/// The value one step below `current`: a part that is a number names an
/// element of an array, any other part a member of an object.
pub open spec fn step(current: Json, part: Seq<char>) -> Option<Json> {
    match parsed_u64(part) {
        Some(index) => current.element(index as int),
        None => current.field(part),
    }
}

/// The value reached from `json` through `parts`, in order.
pub open spec fn follow(json: Json, parts: Seq<Seq<char>>) -> Option<Json>
    decreases parts.len(),
{
    if parts.len() == 0 {
        Some(json)
    } else {
        match follow(json, parts.drop_last()) {
            Some(current) => step(current, parts.last()),
            None => None,
        }
    }
}

/// The value at the path `path` below `json`, the parts of the path parted
/// by dots.
pub open spec fn at_path(json: Json, path: Seq<char>) -> Option<Json> {
    follow(json, split_all(path, '.'))
}

/// Finds the value at a dotted path, such as `data.user.result` or
/// `instructions.0`.
pub fn find_path<'a>(json: &'a Json, path: &str) -> (r: Option<&'a Json>)
    ensures
        match r {
            Some(j) => at_path(*json, path@) == Some(*j),
            None => at_path(*json, path@) is None,
        },
{
    let parts = split_on(path, '.');
    let ghost all = parts.deep_view();
    let mut current: &Json = json;
    let mut i: usize = 0;
    assert(all.subrange(0, 0) =~= Seq::empty());
    while i < parts.len()
        invariant
            i <= parts.len(),
            all == parts.deep_view(),
            all == split_all(path@, '.'),
            follow(*json, all.subrange(0, i as int)) == Some(*current),
        decreases parts.len() - i,
    {
        let ghost upto = all.subrange(0, i as int + 1);
        assert(upto.drop_last() =~= all.subrange(0, i as int));
        assert(upto.last() == parts@[i as int]@);
        let part = parts[i].as_str();
        let next = match parse_u64(part) {
            Some(index) => {
                if index <= usize::MAX as u64 {
                    current.at(index as usize)
                } else {
                    proof {
                        if *current is Array {
                            crate::seqs::lemma_len_fits(current->Array_0);
                        }
                    }
                    None
                }
            },
            None => current.get(part),
        };
        match next {
            Some(value) => {
                current = value;
            },
            None => {
                proof {
                    assert(step(*current, upto.last()) is None);
                    assert(follow(*json, upto) is None);
                    lemma_follow_stays_none(*json, all, i as int + 1);
                }
                return None;
            },
        }
        i += 1;
    }
    assert(all.subrange(0, all.len() as int) =~= all);
    Some(current)
}

proof fn lemma_follow_stays_none(json: Json, parts: Seq<Seq<char>>, n: int)
    requires
        0 <= n <= parts.len(),
        follow(json, parts.subrange(0, n)) is None,
    ensures
        follow(json, parts) is None,
    decreases parts.len() - n,
{
    if n < parts.len() {
        assert(parts.subrange(0, n + 1).drop_last() =~= parts.subrange(0, n));
        lemma_follow_stays_none(json, parts, n + 1);
    } else {
        assert(parts.subrange(0, n) =~= parts);
    }
}

/// The value at a dotted path, or `null` where there is none.
pub fn get_path(json: &Json, path: &str) -> (r: Json)
    ensures
        r@ == match at_path(*json, path@) {
            Some(j) => j@,
            None => JsonView::Null,
        },
{
    match find_path(json, path) {
        Some(j) => j.clone(),
        None => Json::Null,
    }
}

/// The text at a dotted path.
pub fn get_string(json: &Json, path: &str) -> (r: Option<String>)
    ensures
        r.deep_view() == match at_path(*json, path@) {
            Some(j) => j.text(),
            None => None,
        },
{
    match find_path(json, path) {
        Some(j) => match j.as_str() {
            Some(s) => Some(String::from_str(s)),
            None => None,
        },
        None => None,
    }
}

/// The integer at a dotted path.
pub fn get_i64(json: &Json, path: &str) -> (r: Option<i64>)
    ensures
        r == match at_path(*json, path@) {
            Some(j) => j.signed(),
            None => None,
        },
{
    match find_path(json, path) {
        Some(j) => j.as_i64(),
        None => None,
    }
}

/// The truth value at a dotted path.
pub fn get_bool(json: &Json, path: &str) -> (r: Option<bool>)
    ensures
        r == match at_path(*json, path@) {
            Some(j) => j.truth(),
            None => None,
        },
{
    match find_path(json, path) {
        Some(j) => j.as_bool(),
        None => None,
    }
}

/// The elements of the array at a dotted path.
pub fn get_array(json: &Json, path: &str) -> (r: Option<Vec<Json>>)
    ensures
        match at_path(*json, path@) {
            Some(Json::Array(items)) => r is Some && Json::Array(r->0)@ == Json::Array(items)@,
            _ => r is None,
        },
{
    match find_path(json, path) {
        Some(j) => match j.clone() {
            Json::Array(items) => {
                assert(j is Array);
                Some(items)
            },
            _ => None,
        },
        None => None,
    }
}

/// The members of the object at a dotted path.
pub fn get_object(json: &Json, path: &str) -> (r: Option<Vec<(String, Json)>>)
    ensures
        match at_path(*json, path@) {
            Some(Json::Object(members)) => r is Some && Json::Object(r->0)@ == Json::Object(members)@,
            _ => r is None,
        },
{
    match find_path(json, path) {
        Some(j) => match j.clone() {
            Json::Object(members) => {
                assert(j is Object);
                Some(members)
            },
            _ => None,
        },
        None => None,
    }
}

} // verus!
