use vstd::prelude::*;

verus! {

/// The list turned round, so that its items can be moved out in their
/// order, one `pop` each.
pub fn reversed<T>(list: Vec<T>) -> (r: Vec<T>)
    ensures
        r@.len() == list@.len(),
        forall|j: int| 0 <= j < r@.len() ==> r@[j] == list@[list@.len() - 1 - j],
{
    let mut list = list;
    let ghost all = list@;
    let mut r: Vec<T> = Vec::new();
    while list.len() > 0
        invariant
            list@.len() + r@.len() == all.len(),
            list@ =~= all.subrange(0, list@.len() as int),
            forall|j: int| 0 <= j < r@.len() ==> r@[j] == all[all.len() - 1 - j],
        decreases list.len(),
    {
        let item = list.pop().unwrap();
        r.push(item);
    }
    r
}

/// A list is no longer than the machine can count.
pub proof fn lemma_len_fits<T>(v: Vec<T>)
    ensures
        v@.len() <= usize::MAX,
{
    vstd::std_specs::vec::axiom_spec_len(&v);
    assert(v.len() == v@.len());
}

} // verus!
