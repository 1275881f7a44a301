//! The grouping of row fragments into households.
//!
//! Fragments are taken in row order.  A household appears where its key is
//! first seen and keeps that place; its residents keep the order of their
//! rows; where several rows claim to be the head, the last one stays.

use crate::household::{
    ResidentBundle,
    bundle_views, fragment_views, household_views, owner_view, BundleView, FragmentsView,
    Household, HouseholdView, RowFragments,
};
use crate::household_info::OwnerView;
use crate::text::{same_text, views};
use vstd::prelude::*;

verus! {

/// The keys of the fragments, each once, in the order of first appearance.
pub open spec fn keys_in_order(fragments: Seq<FragmentsView>) -> Seq<Seq<char>>
    decreases fragments.len(),
{
    if fragments.len() == 0 {
        Seq::empty()
    } else {
        let before = keys_in_order(fragments.drop_last());
        if before.contains(fragments.last().key) {
            before
        } else {
            before.push(fragments.last().key)
        }
    }
}

/// The residents of the fragments with the key given, in fragment order.
pub open spec fn residents_of(fragments: Seq<FragmentsView>, key: Seq<char>) -> Seq<BundleView>
    decreases fragments.len(),
{
    if fragments.len() == 0 {
        Seq::empty()
    } else {
        let before = residents_of(fragments.drop_last(), key);
        if fragments.last().key == key {
            before.push(fragments.last().bundle)
        } else {
            before
        }
    }
}

/// The owner that the last fragment with the key given and an owner
/// holds; nothing where no such fragment exists.
pub open spec fn owner_of(fragments: Seq<FragmentsView>, key: Seq<char>) -> Option<OwnerView>
    decreases fragments.len(),
{
    if fragments.len() == 0 {
        None
    } else if fragments.last().key == key && fragments.last().owner is Some {
        fragments.last().owner
    } else {
        owner_of(fragments.drop_last(), key)
    }
}

/// The household that the fragments give for a key.
pub open spec fn household_of(fragments: Seq<FragmentsView>, key: Seq<char>) -> HouseholdView {
    HouseholdView {
        key,
        owner: owner_of(fragments, key),
        residents: residents_of(fragments, key),
    }
}

/// The households of the fragments, in the order in which their keys first
/// appear.
pub open spec fn grouped(fragments: Seq<FragmentsView>) -> Seq<HouseholdView> {
    keys_in_order(fragments).map_values(|key: Seq<char>| household_of(fragments, key))
}

/// The keys of the households that are mismatches, in household order.
pub open spec fn mismatches_of(households: Seq<HouseholdView>) -> Seq<Seq<char>>
    decreases households.len(),
{
    if households.len() == 0 {
        Seq::empty()
    } else {
        let before = mismatches_of(households.drop_last());
        if households.last().is_mismatch() {
            before.push(households.last().key)
        } else {
            before
        }
    }
}

/// A key is among the keys in order exactly where a fragment carries it,
/// and no key stands there twice.
pub proof fn lemma_keys_in_order(fragments: Seq<FragmentsView>)
    ensures
        keys_in_order(fragments).no_duplicates(),
        forall|key: Seq<char>|
            keys_in_order(fragments).contains(key) <==> exists|i: int|
                0 <= i < fragments.len() && (#[trigger] fragments[i]).key == key,
    decreases fragments.len(),
{
    if fragments.len() > 0 {
        let front = fragments.drop_last();
        let before = keys_in_order(front);
        let after = keys_in_order(fragments);
        lemma_keys_in_order(front);
        assert forall|key: Seq<char>|
            after.contains(key) <==> exists|i: int|
                0 <= i < fragments.len() && (#[trigger] fragments[i]).key == key by {
            if after.contains(key) {
                if before.contains(key) {
                    let i = choose|i: int| 0 <= i < front.len() && (#[trigger] front[i]).key == key;
                    assert(fragments[i].key == key);
                } else {
                    assert(fragments[fragments.len() - 1].key == key);
                }
            }
            if exists|i: int| 0 <= i < fragments.len() && (#[trigger] fragments[i]).key == key {
                let i = choose|i: int|
                    0 <= i < fragments.len() && (#[trigger] fragments[i]).key == key;
                if i < front.len() {
                    assert(front[i].key == key);
                    assert(before.contains(key));
                    let j = choose|j: int| 0 <= j < before.len() && before[j] == key;
                    assert(after[j] == key);
                } else if !before.contains(key) {
                    assert(after[before.len() as int] == key);
                }
            }
        }
    }
}

/// Fragments that never carry a key give it no resident and no owner.
pub proof fn lemma_absent_key(fragments: Seq<FragmentsView>, key: Seq<char>)
    requires
        forall|i: int| 0 <= i < fragments.len() ==> (#[trigger] fragments[i]).key != key,
    ensures
        residents_of(fragments, key) == Seq::<BundleView>::empty(),
        owner_of(fragments, key) is None,
    decreases fragments.len(),
{
    if fragments.len() > 0 {
        lemma_absent_key(fragments.drop_last(), key);
    }
}

/// Whether a fragment with the key given exists.
pub open spec fn has_row(fragments: Seq<FragmentsView>, key: Seq<char>) -> bool {
    exists|i: int| 0 <= i < fragments.len() && (#[trigger] fragments[i]).key == key
}

/// Whether a fragment with the key given and an owner exists.
pub open spec fn has_owner_row(fragments: Seq<FragmentsView>, key: Seq<char>) -> bool {
    exists|i: int|
        0 <= i < fragments.len() && (#[trigger] fragments[i]).key == key && fragments[i].owner
            is Some
}

/// Number of fragments with the key given among the first `upto`: the
/// place that the resident of fragment `upto` takes in its household.
pub open spec fn rank(fragments: Seq<FragmentsView>, key: Seq<char>, upto: int) -> nat {
    residents_of(fragments.take(upto), key).len()
}

/// The residents found in a prefix of the fragments open the list found
/// in all of them.
pub proof fn lemma_residents_of_prefix(fragments: Seq<FragmentsView>, key: Seq<char>, upto: int)
    requires
        0 <= upto <= fragments.len(),
    ensures
        residents_of(fragments.take(upto), key).is_prefix_of(residents_of(fragments, key)),
    decreases fragments.len(),
{
    if upto == fragments.len() {
        assert(fragments.take(upto) == fragments);
    } else {
        let front = fragments.drop_last();
        assert(front.take(upto) == fragments.take(upto));
        lemma_residents_of_prefix(front, key, upto);
    }
}

/// Grouping is stable.  The resident of a row stands in the list of its
/// household at the place given by the number of earlier rows of that
/// household; so of two rows of one household the earlier row's resident
/// stands first.
pub proof fn lemma_grouping_is_stable(fragments: Seq<FragmentsView>, i: int, j: int)
    requires
        0 <= i < j < fragments.len(),
        fragments[i].key == fragments[j].key,
    ensures
        ({
            let key = fragments[i].key;
            let residents = household_of(fragments, key).residents;
            &&& rank(fragments, key, i) < rank(fragments, key, j) < residents.len()
            &&& residents[rank(fragments, key, i) as int] == fragments[i].bundle
            &&& residents[rank(fragments, key, j) as int] == fragments[j].bundle
        }),
{
    let key = fragments[i].key;
    let upto_i = fragments.take(i + 1);
    let upto_j = fragments.take(j + 1);
    assert(upto_i.drop_last() == fragments.take(i));
    assert(upto_j.drop_last() == fragments.take(j));
    assert(fragments.take(j).take(i + 1) == upto_i);
    lemma_residents_of_prefix(fragments.take(j), key, i + 1);
    lemma_residents_of_prefix(fragments, key, i + 1);
    lemma_residents_of_prefix(fragments, key, j + 1);
    let all = residents_of(fragments, key);
    let at_i = rank(fragments, key, i) as int;
    let at_j = rank(fragments, key, j) as int;
    let with_i = residents_of(upto_i, key);
    let with_j = residents_of(upto_j, key);
    assert(all.subrange(0, with_i.len() as int)[at_i] == with_i[at_i]);
    assert(all.subrange(0, with_j.len() as int)[at_j] == with_j[at_j]);
}

/// A key has residents exactly where a row carries it, and an owner
/// exactly where a head's row carries it.
pub proof fn lemma_household_of(fragments: Seq<FragmentsView>, key: Seq<char>)
    ensures
        household_of(fragments, key).residents.len() > 0 <==> has_row(fragments, key),
        household_of(fragments, key).owner is Some <==> has_owner_row(fragments, key),
    decreases fragments.len(),
{
    if fragments.len() > 0 {
        let front = fragments.drop_last();
        let last = fragments.len() - 1;
        lemma_household_of(front, key);
        if has_row(fragments, key) && fragments[last].key != key {
            let i = choose|i: int|
                0 <= i < fragments.len() && (#[trigger] fragments[i]).key == key;
            assert(front[i].key == key);
        }
        if has_owner_row(fragments, key) && !(fragments[last].key == key
            && fragments[last].owner is Some) {
            let i = choose|i: int|
                0 <= i < fragments.len() && (#[trigger] fragments[i]).key == key
                    && fragments[i].owner is Some;
            assert(front[i].key == key && front[i].owner is Some);
        }
    }
}

/// A key is among the mismatches exactly where a household that is a
/// mismatch carries it.
pub proof fn lemma_mismatches_of(households: Seq<HouseholdView>, key: Seq<char>)
    ensures
        mismatches_of(households).contains(key) <==> exists|j: int|
            0 <= j < households.len() && (#[trigger] households[j]).is_mismatch()
                && households[j].key == key,
    decreases households.len(),
{
    if households.len() > 0 {
        let front = households.drop_last();
        let before = mismatches_of(front);
        let all = mismatches_of(households);
        lemma_mismatches_of(front, key);
        if exists|j: int|
            0 <= j < households.len() && (#[trigger] households[j]).is_mismatch()
                && households[j].key == key {
            let j = choose|j: int|
                0 <= j < households.len() && (#[trigger] households[j]).is_mismatch()
                    && households[j].key == key;
            if j < front.len() {
                assert(front[j].is_mismatch() && front[j].key == key);
                let m = choose|m: int| 0 <= m < before.len() && before[m] == key;
                assert(all[m] == key);
            } else {
                assert(all[before.len() as int] == key);
            }
        }
    }
}

/// The mismatches are exactly the keys with at least one resident row and
/// no owner row; a key with both has a household with an owner.
pub proof fn lemma_mismatch_set(fragments: Seq<FragmentsView>, key: Seq<char>)
    ensures
        mismatches_of(grouped(fragments)).contains(key) <==> has_row(fragments, key)
            && !has_owner_row(fragments, key),
        has_row(fragments, key) && has_owner_row(fragments, key) ==> exists|j: int|
            0 <= j < grouped(fragments).len() && (#[trigger] grouped(fragments)[j]).key == key
                && grouped(fragments)[j].owner is Some,
{
    let keys = keys_in_order(fragments);
    let households = grouped(fragments);
    lemma_keys_in_order(fragments);
    lemma_mismatches_of(households, key);
    lemma_household_of(fragments, key);
    if has_row(fragments, key) {
        assert(keys.contains(key));
        let j = choose|j: int| 0 <= j < keys.len() && keys[j] == key;
        if !has_owner_row(fragments, key) {
            assert(households[j].is_mismatch() && households[j].key == key);
        }
    }
}

/// Number of residents in all the households together.
pub open spec fn total_residents(households: Seq<HouseholdView>) -> nat
    decreases households.len(),
{
    if households.len() == 0 {
        0
    } else {
        total_residents(households.drop_last()) + households.last().residents.len()
    }
}

/// Number of fragments that hold an owner.
pub open spec fn owner_rows(fragments: Seq<FragmentsView>) -> nat
    decreases fragments.len(),
{
    if fragments.len() == 0 {
        0
    } else {
        owner_rows(fragments.drop_last()) + if fragments.last().owner is Some {
            1nat
        } else {
            0nat
        }
    }
}

/// Number of residents that the fragments give to the keys listed.
pub open spec fn residents_under(fragments: Seq<FragmentsView>, keys: Seq<Seq<char>>) -> nat
    decreases keys.len(),
{
    if keys.len() == 0 {
        0
    } else {
        residents_under(fragments, keys.drop_last()) + residents_of(fragments, keys.last()).len()
    }
}

/// One more fragment gives one more resident to the keys listed where its
/// key is among them, and none where it is not.
pub proof fn lemma_residents_under_step(fragments: Seq<FragmentsView>, keys: Seq<Seq<char>>)
    requires
        fragments.len() > 0,
        keys.no_duplicates(),
    ensures
        residents_under(fragments, keys) == residents_under(fragments.drop_last(), keys)
            + if keys.contains(fragments.last().key) {
                1nat
            } else {
                0nat
            },
    decreases keys.len(),
{
    if keys.len() > 0 {
        let front = keys.drop_last();
        let key = fragments.last().key;
        lemma_residents_under_step(fragments, front);
        if keys.last() != key && keys.contains(key) {
            let j = choose|j: int| 0 <= j < keys.len() && keys[j] == key;
            assert(front[j] == key);
        }
    }
}

/// The residents of the households made for the keys listed are the
/// residents that the fragments give to those keys.
pub proof fn lemma_total_residents_of_keys(fragments: Seq<FragmentsView>, keys: Seq<Seq<char>>)
    ensures
        total_residents(keys.map_values(|key: Seq<char>| household_of(fragments, key)))
            == residents_under(fragments, keys),
    decreases keys.len(),
{
    if keys.len() > 0 {
        let households = keys.map_values(|key: Seq<char>| household_of(fragments, key));
        lemma_total_residents_of_keys(fragments, keys.drop_last());
        assert(households.drop_last() == keys.drop_last().map_values(
            |key: Seq<char>| household_of(fragments, key),
        ));
    }
}

/// No resident is lost and none is doubled: the households together hold
/// as many residents as there are rows.
pub proof fn lemma_every_row_is_grouped(fragments: Seq<FragmentsView>)
    ensures
        total_residents(grouped(fragments)) == fragments.len(),
        residents_under(fragments, keys_in_order(fragments)) == fragments.len(),
    decreases fragments.len(),
{
    lemma_total_residents_of_keys(fragments, keys_in_order(fragments));
    if fragments.len() > 0 {
        let front = fragments.drop_last();
        let keys = keys_in_order(front);
        let key = fragments.last().key;
        lemma_every_row_is_grouped(front);
        lemma_keys_in_order(front);
        lemma_residents_under_step(fragments, keys);
        if !keys.contains(key) {
            assert(keys_in_order(fragments).drop_last() == keys);
            lemma_absent_key(front, key);
        }
    }
}

/// Number of households that have an owner.
pub open spec fn total_owners(households: Seq<HouseholdView>) -> nat
    decreases households.len(),
{
    if households.len() == 0 {
        0
    } else {
        total_owners(households.drop_last()) + if households.last().owner is Some {
            1nat
        } else {
            0nat
        }
    }
}

/// Number of the keys listed to which the fragments give an owner.
pub open spec fn owners_under(fragments: Seq<FragmentsView>, keys: Seq<Seq<char>>) -> nat
    decreases keys.len(),
{
    if keys.len() == 0 {
        0
    } else {
        owners_under(fragments, keys.drop_last()) + if owner_of(fragments, keys.last()) is Some {
            1nat
        } else {
            0nat
        }
    }
}

/// One more fragment gives an owner to at most one more of the keys
/// listed, and to none unless it holds an owner.
pub proof fn lemma_owners_under_step(fragments: Seq<FragmentsView>, keys: Seq<Seq<char>>)
    requires
        fragments.len() > 0,
        keys.no_duplicates(),
    ensures
        owners_under(fragments, keys) <= owners_under(fragments.drop_last(), keys)
            + if fragments.last().owner is Some && keys.contains(fragments.last().key) {
                1nat
            } else {
                0nat
            },
    decreases keys.len(),
{
    if keys.len() > 0 {
        let front = keys.drop_last();
        let key = fragments.last().key;
        lemma_owners_under_step(fragments, front);
        if keys.last() == key {
            if front.contains(key) {
                let j = choose|j: int| 0 <= j < front.len() && front[j] == key;
                assert(keys[j] == keys[keys.len() - 1]);
            }
        } else if front.contains(key) {
            let j = choose|j: int| 0 <= j < front.len() && front[j] == key;
            assert(keys[j] == key);
        }
    }
}

/// The households made for the keys listed have the owners that the
/// fragments give to those keys.
pub proof fn lemma_total_owners_of_keys(fragments: Seq<FragmentsView>, keys: Seq<Seq<char>>)
    ensures
        total_owners(keys.map_values(|key: Seq<char>| household_of(fragments, key)))
            == owners_under(fragments, keys),
    decreases keys.len(),
{
    if keys.len() > 0 {
        let households = keys.map_values(|key: Seq<char>| household_of(fragments, key));
        lemma_total_owners_of_keys(fragments, keys.drop_last());
        assert(households.drop_last() == keys.drop_last().map_values(
            |key: Seq<char>| household_of(fragments, key),
        ));
    }
}

/// No owner comes from nowhere: the households with an owner are no more
/// than the rows that named a head.
pub proof fn lemma_owners_within_rows(fragments: Seq<FragmentsView>)
    ensures
        total_owners(grouped(fragments)) <= owner_rows(fragments),
        owners_under(fragments, keys_in_order(fragments)) <= owner_rows(fragments),
    decreases fragments.len(),
{
    lemma_total_owners_of_keys(fragments, keys_in_order(fragments));
    if fragments.len() > 0 {
        let front = fragments.drop_last();
        let keys = keys_in_order(front);
        let key = fragments.last().key;
        lemma_owners_within_rows(front);
        lemma_keys_in_order(front);
        lemma_owners_under_step(fragments, keys);
        if !keys.contains(key) {
            assert(keys_in_order(fragments).drop_last() == keys);
            lemma_absent_key(front, key);
        }
    }
}

/// The residents of the first households are no more than those of all.
pub proof fn lemma_total_residents_of_prefix(households: Seq<HouseholdView>, upto: int)
    requires
        0 <= upto <= households.len(),
    ensures
        total_residents(households.take(upto)) <= total_residents(households),
    decreases households.len(),
{
    if upto == households.len() {
        assert(households.take(upto) == households);
    } else {
        assert(households.drop_last().take(upto) == households.take(upto));
        lemma_total_residents_of_prefix(households.drop_last(), upto);
    }
}

/// Counts the fragments that hold an owner.
pub fn count_owner_rows(fragments: &Vec<RowFragments>) -> (n: usize)
    ensures
        n == owner_rows(fragment_views(fragments@)),
{
    let mut n: usize = 0;
    let mut i: usize = 0;
    while i < fragments.len()
        invariant
            i <= fragments.len(),
            n <= i,
            n == owner_rows(fragment_views(fragments@).take(i as int)),
        decreases fragments.len() - i,
    {
        let ghost next = fragment_views(fragments@).take(i + 1);
        proof {
            assert(next.drop_last() == fragment_views(fragments@).take(i as int));
        }
        if fragments[i].owner.is_some() {
            n = n + 1;
        }
        i = i + 1;
    }
    assert(fragment_views(fragments@).take(fragments.len() as int) == fragment_views(
        fragments@,
    ));
    n
}

/// The keys of the households that have residents and no head, in
/// household order.
pub fn mismatched_keys(households: &Vec<Household>) -> (keys: Vec<String>)
    ensures
        views(keys@) == mismatches_of(household_views(households@)),
{
    let mut keys: Vec<String> = Vec::new();
    let mut h: usize = 0;
    while h < households.len()
        invariant
            h <= households.len(),
            views(keys@) == mismatches_of(household_views(households@).take(h as int)),
        decreases households.len() - h,
    {
        let ghost done = household_views(households@).take(h as int);
        let ghost next = household_views(households@).take(h + 1);
        proof {
            assert(next.drop_last() == done);
        }
        if households[h].owner.is_none() && households[h].residents.len() > 0 {
            keys.push(households[h].key.clone());
        }
        h = h + 1;
    }
    assert(household_views(households@).take(households.len() as int) == household_views(
        households@,
    ));
    keys
}

/// The position of the household with the key given, if there is one.
pub fn find_household(households: &Vec<Household>, key: &str) -> (r: Option<usize>)
    ensures
        r matches Some(h) ==> h < households.len() && households@[h as int].key@ == key@,
        r is None ==> forall|j: int|
            0 <= j < households.len() ==> (#[trigger] households@[j]).key@ != key@,
{
    let mut h: usize = 0;
    while h < households.len()
        invariant
            h <= households.len(),
            forall|j: int| 0 <= j < h ==> (#[trigger] households@[j]).key@ != key@,
        decreases households.len() - h,
    {
        if same_text(households[h].key.as_str(), key) {
            return Some(h);
        }
        h = h + 1;
    }
    None
}

/// Groups the fragments into households.
pub fn group_households(fragments: Vec<RowFragments>) -> (households: Vec<Household>)
    ensures
        household_views(households@) == grouped(fragment_views(fragments@)),
{
    let ghost all = fragment_views(fragments@);
    let mut households: Vec<Household> = Vec::new();
    for fragment in it: fragments
        invariant
            all == fragment_views(fragments@),
            it.seq() == fragments@,
            household_views(households@) == grouped(all.take(it.index())),
    {
        let ghost done = all.take(it.index());
        let ghost next = all.take(it.index() + 1);
        let ghost old_views = household_views(households@);
        proof {
            assert(next.drop_last() == done);
            lemma_keys_in_order(done);
            assert(old_views.len() == keys_in_order(done).len());
        }
        let RowFragments { key, owner, bundle } = fragment;
        match find_household(&households, key.as_str()) {
            Some(h) => {
                households[h].residents.push(bundle);
                if owner.is_some() {
                    households[h].owner = owner;
                }
                proof {
                    let keys = keys_in_order(done);
                    assert(old_views[h as int].key == key@);
                    assert forall|j: int| 0 <= j < keys.len() implies household_views(
                        households@,
                    )[j] == household_of(next, keys[j]) by {
                        assert(old_views[j] == household_of(done, keys[j]));
                        if j == h {
                            assert(bundle_views(households@[j].residents@) =~= residents_of(
                                next,
                                keys[j],
                            ));
                        }
                    }
                }
            },
            None => {
                let mut residents: Vec<ResidentBundle> = Vec::new();
                residents.push(bundle);
                households.push(Household { key, owner, residents });
                proof {
                    let keys = keys_in_order(done);
                    assert(!keys.contains(key@)) by {
                        if keys.contains(key@) {
                            let j = choose|j: int| 0 <= j < keys.len() && keys[j] == key@;
                            assert(old_views[j].key == key@);
                        }
                    }
                    lemma_absent_key(done, key@);
                    assert forall|j: int| 0 <= j < keys.len() + 1 implies household_views(
                        households@,
                    )[j] == household_of(next, keys_in_order(next)[j]) by {
                        if j < keys.len() {
                            assert(old_views[j] == household_of(done, keys[j]));
                        } else {
                            assert(bundle_views(households@[j].residents@) =~= residents_of(
                                next,
                                key@,
                            ));
                        }
                    }
                }
            },
        }
    }
    assert(all.take(all.len() as int) == all);
    households
}

} // verus!
