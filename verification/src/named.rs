//! Values filed under names, kept in the order in which the names first
//! came. A list never files two values under one name.

use vstd::prelude::*;
use crate::text::str_eq;

verus! {

/// A value together with the name it is filed under.
#[derive(Debug)]
pub struct Named<V> {
    pub name: String,
    pub value: V,
}

/// The value of the first entry of `items` under `name`.
pub open spec fn find_named<V>(items: Seq<Named<V>>, name: Seq<char>) -> Option<V>
    decreases items.len(),
{
    if items.len() == 0 {
        None
    } else if items[0].name@ == name {
        Some(items[0].value)
    } else {
        find_named(items.drop_first(), name)
    }
}

/// No two entries of `items` have the same name.
pub open spec fn distinct_names<V>(items: Seq<Named<V>>) -> bool {
    forall|i: int, j: int|
        0 <= i < j < items.len() ==> (#[trigger] items[i]).name@ != (#[trigger] items[j]).name@
}

/// The position of the first entry under `name`, or the length of `items`.
pub open spec fn position_of<V>(items: Seq<Named<V>>, name: Seq<char>) -> int
    decreases items.len(),
{
    if items.len() == 0 {
        0
    } else if items[0].name@ == name {
        0
    } else {
        1 + position_of(items.drop_first(), name)
    }
}

/// `position_of` points at the entry that `find_named` returns.
pub proof fn lemma_position_of<V>(items: Seq<Named<V>>, name: Seq<char>)
    ensures
        0 <= position_of(items, name) <= items.len(),
        position_of(items, name) < items.len() ==> {
            &&& items[position_of(items, name)].name@ == name
            &&& find_named(items, name) == Some(items[position_of(items, name)].value)
        },
        position_of(items, name) == items.len() ==> find_named(items, name) is None,
        forall|i: int| 0 <= i < position_of(items, name) ==> (#[trigger] items[i]).name@ != name,
    decreases items.len(),
{
    if items.len() > 0 && items[0].name@ != name {
        let rest = items.drop_first();
        lemma_position_of(rest, name);
        assert forall|i: int| 0 <= i < position_of(items, name) implies (#[trigger] items[i]).name@
            != name by {
            if i > 0 {
                assert(items[i] == rest[i - 1]);
            }
        }
    }
}

/// An entry that is the first under its name is the one that is found.
pub proof fn lemma_find_at<V>(items: Seq<Named<V>>, name: Seq<char>, k: int)
    requires
        0 <= k < items.len(),
        items[k].name@ == name,
        forall|i: int| 0 <= i < k ==> (#[trigger] items[i]).name@ != name,
    ensures
        find_named(items, name) == Some(items[k].value),
    decreases k,
{
    if k > 0 {
        let rest = items.drop_first();
        assert forall|i: int| 0 <= i < k - 1 implies (#[trigger] rest[i]).name@ != name by {
            assert(rest[i] == items[i + 1]);
        }
        lemma_find_at(rest, name, k - 1);
    }
}

/// Where no entry has the name, nothing is found.
pub proof fn lemma_find_none<V>(items: Seq<Named<V>>, name: Seq<char>)
    requires
        forall|i: int| 0 <= i < items.len() ==> (#[trigger] items[i]).name@ != name,
    ensures
        find_named(items, name) is None,
    decreases items.len(),
{
    if items.len() > 0 {
        let rest = items.drop_first();
        assert forall|i: int| 0 <= i < rest.len() implies (#[trigger] rest[i]).name@ != name by {
            assert(rest[i] == items[i + 1]);
        }
        lemma_find_none(rest, name);
    }
}

/// The position of the first entry under `name`, if there is one.
pub fn index_of_name<V>(items: &Vec<Named<V>>, name: &str) -> (r: Option<usize>)
    ensures
        match r {
            Some(k) => k == position_of(items@, name@) && k < items@.len(),
            None => position_of(items@, name@) == items@.len(),
        },
{
    let mut i: usize = 0;
    proof {
        assert(items@.skip(0) == items@);
    }
    while i < items.len()
        invariant
            i <= items.len(),
            position_of(items@, name@) == i + position_of(items@.skip(i as int), name@),
        decreases items.len() - i,
    {
        proof {
            assert(items@.skip(i as int).drop_first() == items@.skip(i + 1));
        }
        if str_eq(items[i].name.as_str(), name) {
            return Some(i);
        }
        i += 1;
    }
    None
}

/// The value filed under `name`, if there is one.
pub fn lookup_named<'a, V>(items: &'a Vec<Named<V>>, name: &str) -> (r: Option<&'a V>)
    ensures
        match r {
            Some(v) => find_named(items@, name@) == Some(*v),
            None => find_named(items@, name@) is None,
        },
{
    proof {
        lemma_position_of(items@, name@);
    }
    match index_of_name(items, name) {
        Some(k) => Some(&items[k].value),
        None => None,
    }
}

/// Files `value` under `name`: in place of the value that was there, or at
/// the end where the name is new. Every other name keeps its value.
pub fn upsert_named<V>(items: &mut Vec<Named<V>>, name: String, value: V)
    ensures
        find_named(final(items)@, name@) == Some(value),
        forall|other: Seq<char>|
            other != name@ ==> find_named(final(items)@, other) == find_named(old(items)@, other),
        distinct_names(old(items)@) ==> distinct_names(final(items)@),
        final(items)@.len() == (if find_named(old(items)@, name@) is Some {
            old(items)@.len()
        } else {
            old(items)@.len() + 1
        }),
{
    let ghost before = items@;
    proof {
        lemma_position_of(before, name@);
    }
    let found = index_of_name(items, name.as_str());
    let ghost k = position_of(before, name@);
    match found {
        Some(idx) => {
            items.set(idx, Named { name, value });
        },
        None => {
            items.push(Named { name, value });
        },
    }
    proof {
        let after = items@;
        assert(after.len() > k);
        assert(after[k].name@ == name@);
        assert forall|i: int| 0 <= i < k implies (#[trigger] after[i]).name@ != name@ by {
            assert(after[i] == before[i]);
        }
        lemma_find_at(after, name@, k);
        assert forall|other: Seq<char>| other != name@ implies find_named(after, other)
            == find_named(before, other) by {
            lemma_position_of(before, other);
            let p = position_of(before, other);
            if p < before.len() {
                assert(p != k);
                assert(after[p] == before[p]);
                assert forall|i: int| 0 <= i < p implies (#[trigger] after[i]).name@ != other by {
                    if i != k {
                        assert(after[i] == before[i]);
                    }
                }
                lemma_find_at(after, other, p);
            } else {
                assert forall|i: int| 0 <= i < after.len() implies (#[trigger] after[i]).name@
                    != other by {
                    if i != k {
                        assert(after[i] == before[i]);
                    }
                }
                lemma_find_none(after, other);
            }
        }
        if distinct_names(before) {
            assert forall|i: int, j: int| 0 <= i < j < after.len() implies (#[trigger] after[i]).name@
                != (#[trigger] after[j]).name@ by {
                if i != k && j != k {
                    assert(after[i] == before[i]);
                    assert(after[j] == before[j]);
                } else if i == k {
                    if k < before.len() {
                        assert(after[j] == before[j]);
                        assert(before[k].name@ != before[j].name@);
                    }
                } else {
                    assert(after[i] == before[i]);
                    if k < before.len() {
                        assert(before[i].name@ != before[k].name@);
                    }
                }
            }
        }
    }
}

} // verus!
