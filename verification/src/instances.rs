//! Lists of the protocol objects that clients have bound. An object is known by a number that
//! the compositor gives it.

use vstd::prelude::*;

verus! {

/// The number of a protocol object.
pub type InstanceId = u64;

/// The objects without the one numbered `gone`.
pub open spec fn without(ids: Seq<InstanceId>, gone: InstanceId) -> Seq<InstanceId> {
    ids.filter(|id: InstanceId| id != gone)
}

/// An object that comes and goes leaves no trace.
pub proof fn adding_and_removing_cancel(ids: Seq<InstanceId>, id: InstanceId)
    requires
        !ids.contains(id),
    ensures
        without(ids.push(id), id) == ids,
{
    reveal(Seq::filter);
    assert(ids.push(id).drop_last() =~= ids);
    without_absent(ids, id);
}

/// Removing goes over the objects one by one: it takes away the one that is gone, wherever it
/// stands, and leaves the others in their order.
pub proof fn removing_goes_one_by_one(
    a: Seq<InstanceId>,
    b: Seq<InstanceId>,
    one: InstanceId,
    gone: InstanceId,
)
    ensures
        without(a + b, gone) == without(a, gone) + without(b, gone),
        without(seq![gone], gone).len() == 0,
        one != gone ==> without(seq![one], gone) == seq![one],
    decreases b.len(),
{
    reveal(Seq::filter);
    assert(seq![one].drop_last() =~= Seq::empty());
    assert(seq![gone].drop_last() =~= Seq::empty());
    assert(without(Seq::empty(), gone) =~= Seq::empty());
    if b.len() == 0 {
        assert(a + b =~= a);
        assert(without(b, gone) =~= Seq::empty());
    } else {
        assert((a + b).drop_last() =~= a + b.drop_last());
        removing_goes_one_by_one(a, b.drop_last(), one, gone);
    }
}

proof fn without_absent(ids: Seq<InstanceId>, id: InstanceId)
    requires
        !ids.contains(id),
    ensures
        without(ids, id) == ids,
    decreases ids.len(),
{
    reveal(Seq::filter);
    if ids.len() > 0 {
        let init = ids.drop_last();
        assert(ids[ids.len() - 1] != id);
        assert forall|i: int| 0 <= i < init.len() implies init[i] != id by {
            assert(ids[i] == init[i]);
        }
        without_absent(init, id);
        assert(init.push(ids.last()) =~= ids);
    }
}

/// Removes every occurrence of `gone`.
pub fn remove_instance_id(ids: &mut Vec<InstanceId>, gone: InstanceId)
    ensures
        final(ids)@ == without(old(ids)@, gone),
{
    let ghost all = ids@;
    let mut rest: Vec<InstanceId> = Vec::new();
    let mut i: usize = 0;
    while i < ids.len()
        invariant
            all == ids@,
            i <= all.len(),
            rest@ == without(all.take(i as int), gone),
        decreases all.len() - i,
    {
        assert(all.take(i + 1).drop_last() =~= all.take(i as int));
        reveal(Seq::filter);
        let id: InstanceId = ids[i];
        if id != gone {
            rest.push(id);
        }
        i += 1;
    }
    assert(all.take(i as int) =~= all);
    *ids = rest;
}

} // verus!
