use vstd::prelude::*;
use crate::json::{text_in, text_of, Json, JsonView};
use crate::text::same_text;

verus! {

/// Whether an object has the member `field` with the text `value`.
pub open spec fn hit(data: Json, field: Seq<char>, value: Seq<char>) -> bool {
    data is Object && text_of(data.field(field)) == Some(value)
}

/// The objects in and below `data` that have the member `field` with the
/// text `value`: `data` itself first, then those below its members in
/// order. Below a member that is an array only its elements that are
/// objects are searched; below an array that is searched itself, every
/// element.
pub open spec fn found(data: Json, field: Seq<char>, value: Seq<char>) -> Seq<Json>
    decreases data, usize::MAX + 1,
{
    match data {
        Json::Object(members) => {
            let own = if hit(data, field, value) {
                seq![data]
            } else {
                Seq::empty()
            };
            proof {
                crate::seqs::lemma_len_fits(members);
            }
            own + found_in_members(data, members@.len(), field, value)
        },
        Json::Array(items) => {
            proof {
                crate::seqs::lemma_len_fits(items);
            }
            found_in_items(data, items@.len(), false, field, value)
        },
        _ => Seq::empty(),
    }
}

/// What is found below the first `n` members of the object `data`.
pub open spec fn found_in_members(data: Json, n: nat, field: Seq<char>, value: Seq<char>) -> Seq<Json>
    decreases data, n,
{
    match data {
        Json::Object(members) => if 0 < n <= members@.len() {
            let member = members@[n - 1].1;
            proof {
                below_member(data, n - 1);
            }
            found_in_members(data, (n - 1) as nat, field, value) + found_below(member, field, value)
        } else {
            Seq::empty()
        },
        _ => Seq::empty(),
    }
}

/// What is found below a member's value: in and below it if it is an
/// object, in and below its elements that are objects if it is an array.
pub open spec fn found_below(member: Json, field: Seq<char>, value: Seq<char>) -> Seq<Json>
    decreases member, usize::MAX + 2,
{
    match member {
        Json::Object(_) => found(member, field, value),
        Json::Array(items) => {
            proof {
                crate::seqs::lemma_len_fits(items);
            }
            found_in_items(member, items@.len(), true, field, value)
        },
        _ => Seq::empty(),
    }
}

/// What is found in and below the first `n` elements of the array `data`;
/// with `objects_only`, elements that are no objects are passed over.
pub open spec fn found_in_items(
    data: Json,
    n: nat,
    objects_only: bool,
    field: Seq<char>,
    value: Seq<char>,
) -> Seq<Json>
    decreases data, n,
{
    match data {
        Json::Array(items) => if 0 < n <= items@.len() {
            let item = items@[n - 1];
            proof {
                below_item(data, n - 1);
            }
            found_in_items(data, (n - 1) as nat, objects_only, field, value) + if objects_only && !(item
                is Object) {
                Seq::empty()
            } else {
                found(item, field, value)
            }
        } else {
            Seq::empty()
        },
        _ => Seq::empty(),
    }
}

/// The value of a member lies below its object.
pub proof fn below_member(data: Json, i: int)
    requires
        data is Object,
        0 <= i < data->Object_0@.len(),
    ensures
        decreases_to!(data => data->Object_0@[i].1),
{
    broadcast use vstd::std_specs::vec::axiom_vec_index_decreases;

    let members = data->Object_0;
    assert(decreases_to!(data => members));
    assert(decreases_to!(members => members[i]));
    assert(decreases_to!(members[i] => members[i].1));
}

/// An element lies below its array.
pub proof fn below_item(data: Json, i: int)
    requires
        data is Array,
        0 <= i < data->Array_0@.len(),
    ensures
        decreases_to!(data => data->Array_0@[i]),
{
    broadcast use vstd::std_specs::vec::axiom_vec_index_decreases;

    let items = data->Array_0;
    assert(decreases_to!(data => items));
    assert(decreases_to!(items => items[i]));
}

/// The values of `list` as mathematical values.
pub open spec fn views(list: Seq<Json>) -> Seq<JsonView> {
    Seq::new(list.len(), |i: int| list[i]@)
}

fn is_hit(data: &Json, field: &str, value: &str) -> (b: bool)
    ensures
        b == hit(*data, field@, value@),
{
    if !data.is_object() {
        return false;
    }
    match text_in(data.get(field)) {
        Some(text) => same_text(text, value),
        None => false,
    }
}

/// Finds the objects in and below `data` that have the member `field` with
/// the text `value`.
pub fn find_by_filter(data: &Json, field: &str, value: &str) -> (r: Vec<Json>)
    ensures
        views(r@) == views(found(*data, field@, value@)),
    decreases data,
{
    let mut results: Vec<Json> = Vec::new();
    match data {
        Json::Object(members) => {
            if is_hit(data, field, value) {
                results.push(data.clone());
            }
            let ghost own = results@;
            assert(views(own) =~= views(
                if hit(*data, field@, value@) {
                    seq![*data]
                } else {
                    Seq::empty()
                },
            ));
            let mut i: usize = 0;
            while i < members.len()
                invariant
                    i <= members.len(),
                    *data == Json::Object(*members),
                    views(results@) == views(own) + views(
                        found_in_members(*data, i as nat, field@, value@),
                    ),
                decreases members.len() - i,
            {
                let ghost before = results@;
                let ghost sofar = found_in_members(*data, i as nat, field@, value@);
                proof {
                    below_member(*data, i as int);
                }
                let member = &members[i].1;
                let mut more = match member {
                    Json::Object(_) => find_by_filter(member, field, value),
                    Json::Array(items) => {
                        let mut inner: Vec<Json> = Vec::new();
                        let mut j: usize = 0;
                        assert(views(inner@) =~= views(
                            found_in_items(*member, 0, true, field@, value@),
                        ));
                        while j < items.len()
                            invariant
                                j <= items.len(),
                                *member == Json::Array(*items),
                                decreases_to!(*data => *member),
                                views(inner@) == views(
                                    found_in_items(*member, j as nat, true, field@, value@),
                                ),
                            decreases items.len() - j,
                        {
                            let ghost inner_before = inner@;
                            let ghost inner_sofar = found_in_items(
                                *member,
                                j as nat,
                                true,
                                field@,
                                value@,
                            );
                            proof {
                                below_item(*member, j as int);
                            }
                            if items[j].is_object() {
                                let mut part = find_by_filter(&items[j], field, value);
                                let ghost added = part@;
                                inner.append(&mut part);
                                assert(views(inner@) =~= views(inner_before) + views(added));
                                assert(views(inner_sofar + found(items@[j as int], field@, value@))
                                    =~= views(inner_sofar) + views(
                                    found(items@[j as int], field@, value@),
                                ));
                            } else {
                                assert(inner_sofar + Seq::<Json>::empty() =~= inner_sofar);
                            }
                            j += 1;
                        }
                        inner
                    },
                    _ => Vec::new(),
                };
                let ghost added = more@;
                let ghost expected = found_below(*member, field@, value@);
                assert(views(added) =~= views(expected));
                results.append(&mut more);
                assert(views(results@) =~= views(before) + views(added));
                assert(found_in_members(*data, (i + 1) as nat, field@, value@) == sofar + expected);
                assert(views(sofar + expected) =~= views(sofar) + views(expected));
                assert(views(results@) =~= views(own) + views(
                    found_in_members(*data, (i + 1) as nat, field@, value@),
                ));
                i += 1;
            }
            assert(views(results@) =~= views(found(*data, field@, value@))) by {
                let own_spec = if hit(*data, field@, value@) {
                    seq![*data]
                } else {
                    Seq::empty()
                };
                let rest = found_in_members(*data, members@.len(), field@, value@);
                assert(found(*data, field@, value@) == own_spec + rest);
                assert(views(own_spec + rest) =~= views(own_spec) + views(rest));
            }
        },
        Json::Array(items) => {
            let mut j: usize = 0;
            assert(views(results@) =~= views(found_in_items(*data, 0, false, field@, value@)));
            while j < items.len()
                invariant
                    j <= items.len(),
                    *data == Json::Array(*items),
                    views(results@) == views(found_in_items(*data, j as nat, false, field@, value@)),
                decreases items.len() - j,
            {
                let ghost before = results@;
                let ghost sofar = found_in_items(*data, j as nat, false, field@, value@);
                proof {
                    below_item(*data, j as int);
                }
                let mut part = find_by_filter(&items[j], field, value);
                let ghost added = part@;
                results.append(&mut part);
                assert(views(results@) =~= views(before) + views(added));
                assert(views(sofar + found(items@[j as int], field@, value@)) =~= views(sofar) + views(
                    found(items@[j as int], field@, value@),
                ));
                j += 1;
            }
        },
        _ => {
            assert(views(results@) =~= views(Seq::<Json>::empty()));
        },
    }
    results
}

} // verus!
