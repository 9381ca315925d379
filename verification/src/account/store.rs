//! Lists of accounts, each account known by its identifier.

use vstd::prelude::*;

verus! {

/// Something that is known by a 128-bit identifier.
pub trait Identified {
    /// The identifier.
    spec fn spec_id(&self) -> u128;

    /// The identifier.
    fn id(&self) -> (r: u128)
        ensures
            r == self.spec_id(),
    ;
}

/// `items` without the entries that have the identifier `id`.
pub open spec fn without<T: Identified>(items: Seq<T>, id: u128) -> Seq<T>
    decreases items.len(),
{
    if items.len() == 0 {
        Seq::empty()
    } else if items.last().spec_id() == id {
        without(items.drop_last(), id)
    } else {
        without(items.drop_last(), id).push(items.last())
    }
}

/// The first entry of `items` that has the identifier `id`.
pub open spec fn first_with<T: Identified>(items: Seq<T>, id: u128) -> Option<T>
    decreases items.len(),
{
    if items.len() == 0 {
        None
    } else if items[0].spec_id() == id {
        Some(items[0])
    } else {
        first_with(items.drop_first(), id)
    }
}

/// No entry of `items` has the identifier `id`.
pub open spec fn absent<T: Identified>(items: Seq<T>, id: u128) -> bool {
    forall|i: int| 0 <= i < items.len() ==> (#[trigger] items[i]).spec_id() != id
}

/// Taking out an identifier that no entry has changes nothing.
pub proof fn lemma_without_absent<T: Identified>(items: Seq<T>, id: u128)
    requires
        absent(items, id),
    ensures
        without(items, id) == items,
    decreases items.len(),
{
    if items.len() > 0 {
        let head = items.drop_last();
        assert forall|i: int| 0 <= i < head.len() implies (#[trigger] head[i]).spec_id() != id by {
            assert(head[i] == items[i]);
        }
        lemma_without_absent(head, id);
        assert(items.last() == items[items.len() - 1]);
        assert(head.push(items.last()) =~= items);
    }
}

/// An entry that is added and then taken out by its identifier leaves the
/// list as it was, as long as no other entry had that identifier.
pub proof fn lemma_add_then_delete<T: Identified>(items: Seq<T>, item: T)
    requires
        absent(items, item.spec_id()),
    ensures
        without(items.push(item), item.spec_id()) == items,
{
    let added = items.push(item);
    assert(added.drop_last() =~= items);
    assert(added.last() == item);
    lemma_without_absent(items, item.spec_id());
}

/// Nothing that is left after a removal has the removed identifier.
pub proof fn lemma_without_is_absent<T: Identified>(items: Seq<T>, id: u128)
    ensures
        absent(without(items, id), id),
    decreases items.len(),
{
    if items.len() > 0 {
        lemma_without_is_absent(items.drop_last(), id);
        let rest = without(items.drop_last(), id);
        if items.last().spec_id() != id {
            let all = rest.push(items.last());
            assert forall|i: int| 0 <= i < all.len() implies (#[trigger] all[i]).spec_id()
                != id by {
                if i < rest.len() {
                    assert(all[i] == rest[i]);
                }
            }
        }
    }
}

/// Takes the entries with the identifier `id` out of the list.
pub fn remove_by_id<T: Identified>(items: &mut Vec<T>, id: u128)
    ensures
        final(items)@ == without(old(items)@, id),
{
    let ghost all = items@;
    let mut i: usize = 0;
    let ghost mut seen: int = 0;
    proof {
        assert(all.take(0) =~= Seq::<T>::empty());
        assert(all.skip(0) =~= all);
    }
    while i < items.len()
        invariant
            i <= items@.len(),
            0 <= seen <= all.len(),
            items@.len() - i == all.len() - seen,
            items@.take(i as int) == without(all.take(seen), id),
            items@.skip(i as int) == all.skip(seen),
        decreases items@.len() - i,
    {
        proof {
            assert(items@[i as int] == items@.skip(i as int)[0]);
            assert(all.skip(seen)[0] == all[seen]);
            assert(all.take(seen + 1).drop_last() =~= all.take(seen));
            assert(all.take(seen + 1).last() == all[seen]);
        }
        let ghost before = items@;
        if items[i].id() == id {
            let _ = items.remove(i);
            proof {
                assert(items@.take(i as int) =~= before.take(i as int));
                assert(items@.skip(i as int) =~= before.skip(i as int).drop_first());
                assert(all.skip(seen).drop_first() =~= all.skip(seen + 1));
            }
        } else {
            proof {
                assert(before.take(i + 1) =~= before.take(i as int).push(before[i as int]));
                assert(before.skip(i + 1) =~= before.skip(i as int).drop_first());
                assert(all.skip(seen).drop_first() =~= all.skip(seen + 1));
            }
            i += 1;
        }
        proof {
            seen = seen + 1;
        }
    }
    proof {
        assert(all.take(all.len() as int) =~= all);
        assert(items@.take(items@.len() as int) =~= items@);
    }
}

/// The first entry with the identifier `id`.
pub fn find_by_id<T: Identified>(items: &Vec<T>, id: u128) -> (r: Option<&T>)
    ensures
        match r {
            Some(item) => first_with(items@, id) == Some(*item),
            None => first_with(items@, id) is None && absent(items@, id),
        },
{
    let mut i: usize = 0;
    proof {
        assert(items@.skip(0) =~= items@);
    }
    while i < items.len()
        invariant
            i <= items.len(),
            first_with(items@, id) == first_with(items@.skip(i as int), id),
            forall|j: int| 0 <= j < i ==> (#[trigger] items@[j]).spec_id() != id,
        decreases items.len() - i,
    {
        proof {
            assert(items@.skip(i as int).drop_first() =~= items@.skip(i + 1));
            assert(items@.skip(i as int)[0] == items@[i as int]);
        }
        if items[i].id() == id {
            return Some(&items[i]);
        }
        i += 1;
    }
    None
}

} // verus!
