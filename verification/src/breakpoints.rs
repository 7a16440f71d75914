//! The hardware breakpoint comparators of a core, and how a breakpoint
//! finds its comparator.
//!
//! A core has a fixed number of comparators. Read out, they are a list with
//! one entry per comparator: `Some(address)` where a breakpoint is set, `None`
//! where the comparator is free.

use vstd::prelude::*;
use crate::error::Error;
use crate::search::{first_index, is_first, lemma_first_index, lemma_is_first_unique};

verus! {

/// The comparator that holds a breakpoint at `address`: the first of them,
/// if there are several.
pub open spec fn comparator_of(slots: Seq<Option<u32>>, address: u32) -> Option<int> {
    first_index(slots, |slot: Option<u32>| slot == Some(address))
}

/// The first comparator that is free.
pub open spec fn free_comparator(slots: Seq<Option<u32>>) -> Option<int> {
    first_index(slots, |slot: Option<u32>| slot is None)
}

/// The comparator that a breakpoint at `address` is written to: the one that
/// holds the address already, else the first free one, else none.
pub open spec fn comparator_for(slots: Seq<Option<u32>>, address: u32) -> Option<int> {
    match comparator_of(slots, address) {
        Some(i) => Some(i),
        None => free_comparator(slots),
    }
}

/// How many comparators are in use.
pub open spec fn occupied(slots: Seq<Option<u32>>) -> nat
    decreases slots.len(),
{
    if slots.len() == 0 {
        0
    } else {
        occupied(slots.drop_last()) + if slots.last() is Some {
            1nat
        } else {
            0nat
        }
    }
}

/// The comparators after a breakpoint has been set at `address`; unchanged
/// where no comparator can take it.
pub open spec fn with_breakpoint(slots: Seq<Option<u32>>, address: u32) -> Seq<Option<u32>> {
    match comparator_for(slots, address) {
        Some(i) => slots.update(i, Some(address)),
        None => slots,
    }
}

/// The comparators after the breakpoint at `address` has been cleared;
/// unchanged where none holds it.
pub open spec fn without_breakpoint(slots: Seq<Option<u32>>, address: u32) -> Seq<Option<u32>> {
    match comparator_of(slots, address) {
        Some(i) => slots.update(i, None),
        None => slots,
    }
}

/// `count` comparators, all of them free.
pub open spec fn all_free(count: nat) -> Seq<Option<u32>> {
    Seq::new(count, |i: int| None::<u32>)
}

/// Finds the comparator that holds a breakpoint at `address`, the first in
/// index order.
pub fn find_breakpoint(slots: &Vec<Option<u32>>, address: u32) -> (found: Option<usize>)
    ensures
        match found {
            Some(i) => {
                &&& comparator_of(slots@, address) == Some(i as int)
                &&& i < slots@.len()
                &&& slots@[i as int] == Some(address)
                &&& forall|j: int| 0 <= j < i ==> slots@[j] != Some(address)
            },
            None => {
                &&& comparator_of(slots@, address) is None
                &&& forall|j: int| 0 <= j < slots@.len() ==> slots@[j] != Some(address)
            },
        },
{
    proof {
        lemma_comparator_of(slots@, address);
    }
    let ghost wanted = |slot: Option<u32>| slot == Some(address);
    let mut i: usize = 0;
    while i < slots.len()
        invariant
            i <= slots@.len(),
            wanted == (|slot: Option<u32>| slot == Some(address)),
            forall|j: int| 0 <= j < i ==> !wanted(#[trigger] slots@[j]),
        decreases slots@.len() - i,
    {
        let hit = match slots[i] {
            Some(set) => set == address,
            None => false,
        };
        if hit {
            proof {
                assert(is_first(slots@, wanted, i as int));
                lemma_is_first_unique(slots@, wanted, i as int);
            }
            return Some(i);
        }
        i += 1;
    }
    proof {
        lemma_first_index(slots@, wanted);
    }
    None
}

/// Finds the first free comparator in index order, and fails with
/// [`Error::NoAvailableBreakpoints`] when every comparator is in use.
pub fn find_free_comparator(slots: &Vec<Option<u32>>) -> (found: Result<usize, Error>)
    ensures
        match found {
            Ok(i) => {
                &&& free_comparator(slots@) == Some(i as int)
                &&& i < slots@.len()
                &&& slots@[i as int] is None
                &&& forall|j: int| 0 <= j < i ==> slots@[j] is Some
            },
            Err(e) => {
                &&& e == Error::NoAvailableBreakpoints
                &&& free_comparator(slots@) is None
                &&& forall|j: int| 0 <= j < slots@.len() ==> slots@[j] is Some
            },
        },
{
    proof {
        lemma_free_comparator(slots@);
    }
    let ghost wanted = |slot: Option<u32>| slot is None;
    let mut i: usize = 0;
    while i < slots.len()
        invariant
            i <= slots@.len(),
            wanted == (|slot: Option<u32>| slot is None),
            forall|j: int| 0 <= j < i ==> !wanted(#[trigger] slots@[j]),
        decreases slots@.len() - i,
    {
        if slots[i].is_none() {
            proof {
                assert(is_first(slots@, wanted, i as int));
                lemma_is_first_unique(slots@, wanted, i as int);
            }
            return Ok(i);
        }
        i += 1;
    }
    proof {
        lemma_first_index(slots@, wanted);
    }
    Err(Error::NoAvailableBreakpoints)
}

/// Finds the comparator to clear for `address`, and fails with
/// [`Error::BreakpointNotFound`] when no comparator holds that address.
pub fn locate_breakpoint(slots: &Vec<Option<u32>>, address: u32) -> (located: Result<usize, Error>)
    ensures
        match located {
            Ok(i) => comparator_of(slots@, address) == Some(i as int) && i < slots@.len(),
            Err(e) => comparator_of(slots@, address) is None && e == Error::BreakpointNotFound(
                address,
            ),
        },
{
    proof {
        lemma_comparator_of(slots@, address);
    }
    match find_breakpoint(slots, address) {
        Some(i) => Ok(i),
        None => Err(Error::BreakpointNotFound(address)),
    }
}

/// [`comparator_of`] names the first comparator that holds `address`, and
/// none exactly when no comparator holds it.
pub proof fn lemma_comparator_of(slots: Seq<Option<u32>>, address: u32)
    ensures
        match comparator_of(slots, address) {
            Some(i) => 0 <= i < slots.len() && slots[i] == Some(address) && forall|j: int|
                0 <= j < i ==> slots[j] != Some(address),
            None => forall|j: int| 0 <= j < slots.len() ==> slots[j] != Some(address),
        },
{
    lemma_first_index(slots, |slot: Option<u32>| slot == Some(address));
}

/// [`free_comparator`] names the first free comparator, and none exactly
/// when every comparator is in use.
pub proof fn lemma_free_comparator(slots: Seq<Option<u32>>)
    ensures
        match free_comparator(slots) {
            Some(i) => 0 <= i < slots.len() && slots[i] is None && forall|j: int|
                0 <= j < i ==> slots[j] is Some,
            None => forall|j: int| 0 <= j < slots.len() ==> slots[j] is Some,
        },
{
    lemma_first_index(slots, |slot: Option<u32>| slot is None);
}

/// The comparator chosen for an address is one of the core's, and there is
/// none exactly when the address is not set and no comparator is free.
pub proof fn lemma_comparator_for(slots: Seq<Option<u32>>, address: u32)
    ensures
        comparator_for(slots, address) matches Some(i) ==> 0 <= i < slots.len(),
        comparator_for(slots, address) is None <==> comparator_of(slots, address) is None
            && free_comparator(slots) is None,
{
    lemma_comparator_of(slots, address);
    lemma_free_comparator(slots);
}

/// Writing one comparator changes the number in use by what the entry
/// gains or loses.
pub proof fn lemma_occupied_update(slots: Seq<Option<u32>>, index: int, entry: Option<u32>)
    requires
        0 <= index < slots.len(),
    ensures
        occupied(slots.update(index, entry)) + (if slots[index] is Some {
            1nat
        } else {
            0nat
        }) == occupied(slots) + (if entry is Some {
            1nat
        } else {
            0nat
        }),
    decreases slots.len(),
{
    let written = slots.update(index, entry);
    if index == slots.len() - 1 {
        assert(written.drop_last() =~= slots.drop_last());
    } else {
        assert(written.drop_last() =~= slots.drop_last().update(index, entry));
        lemma_occupied_update(slots.drop_last(), index, entry);
    }
}

/// No more comparators are in use than there are, and all of them are in use
/// exactly when none is free.
pub proof fn lemma_occupied_full(slots: Seq<Option<u32>>)
    ensures
        occupied(slots) <= slots.len(),
        occupied(slots) == slots.len() <==> free_comparator(slots) is None,
    decreases slots.len(),
{
    lemma_free_comparator(slots);
    if slots.len() > 0 {
        let front = slots.drop_last();
        lemma_occupied_full(front);
        lemma_free_comparator(front);
        if free_comparator(front) is None && slots.last() is Some {
            assert forall|j: int| 0 <= j < slots.len() implies slots[j] is Some by {
                if j < front.len() {
                    assert(slots[j] == front[j]);
                }
            }
        }
        if free_comparator(slots) is None {
            assert forall|j: int| 0 <= j < front.len() implies front[j] is Some by {
                assert(front[j] == slots[j]);
            }
        }
    }
}

/// Where every comparator is free, none is in use.
pub proof fn lemma_all_free(count: nat)
    ensures
        occupied(all_free(count)) == 0,
        forall|address: u32| comparator_of(all_free(count), address) is None,
    decreases count,
{
    if count > 0 {
        assert(all_free(count).drop_last() =~= all_free((count - 1) as nat));
        lemma_all_free((count - 1) as nat);
    }
    assert forall|address: u32| comparator_of(all_free(count), address) is None by {
        lemma_comparator_of(all_free(count), address);
    }
}

/// Setting a breakpoint at an address that is set already takes no further
/// comparator: the comparators hold what they held, and as many are in use
/// as before.
pub proof fn lemma_set_again(slots: Seq<Option<u32>>, address: u32)
    requires
        comparator_of(slots, address) is Some,
    ensures
        with_breakpoint(slots, address) == slots,
        occupied(with_breakpoint(slots, address)) == occupied(slots),
{
    lemma_comparator_of(slots, address);
    assert(with_breakpoint(slots, address) =~= slots);
}

/// Setting a breakpoint a second time changes nothing the first time did
/// not.
pub proof fn lemma_set_twice(slots: Seq<Option<u32>>, address: u32)
    ensures
        with_breakpoint(with_breakpoint(slots, address), address) == with_breakpoint(
            slots,
            address,
        ),
{
    lemma_comparator_for(slots, address);
    match comparator_for(slots, address) {
        Some(i) => {
            let once = slots.update(i, Some(address));
            let wanted = |slot: Option<u32>| slot == Some(address);
            lemma_first_index(once, wanted);
            assert(wanted(once[i]));
            lemma_set_again(once, address);
        },
        None => {},
    }
}

/// A breakpoint can be set exactly when its address is set already or fewer
/// comparators are in use than the core has. A new address then takes one
/// more comparator, the first free one.
pub proof fn lemma_set_new(slots: Seq<Option<u32>>, address: u32)
    ensures
        comparator_for(slots, address) is Some <==> comparator_of(slots, address) is Some
            || occupied(slots) < slots.len(),
        comparator_of(slots, address) is None && occupied(slots) < slots.len() ==> {
            &&& occupied(with_breakpoint(slots, address)) == occupied(slots) + 1
            &&& comparator_of(with_breakpoint(slots, address), address) == free_comparator(slots)
        },
{
    lemma_comparator_for(slots, address);
    lemma_occupied_full(slots);
    lemma_free_comparator(slots);
    lemma_comparator_of(slots, address);
    if comparator_of(slots, address) is None && occupied(slots) < slots.len() {
        let i = free_comparator(slots).unwrap();
        let after = slots.update(i, Some(address));
        lemma_occupied_update(slots, i, Some(address));
        let wanted = |slot: Option<u32>| slot == Some(address);
        assert(is_first(after, wanted, i));
        lemma_is_first_unique(after, wanted, i);
    }
}

/// With every comparator in use and the address not among them, there is no
/// comparator for the breakpoint, and the comparators stay as they are.
pub proof fn lemma_set_exhausted(slots: Seq<Option<u32>>, address: u32)
    requires
        occupied(slots) == slots.len(),
        comparator_of(slots, address) is None,
    ensures
        comparator_for(slots, address) is None,
        with_breakpoint(slots, address) == slots,
{
    lemma_occupied_full(slots);
}

/// Clearing an address that no comparator holds leaves every comparator as
/// it is; clearing one that is held frees one comparator.
pub proof fn lemma_clear(slots: Seq<Option<u32>>, address: u32)
    ensures
        comparator_of(slots, address) is None ==> without_breakpoint(slots, address) == slots,
        comparator_of(slots, address) is Some ==> occupied(without_breakpoint(slots, address)) + 1
            == occupied(slots),
{
    lemma_comparator_of(slots, address);
    if let Some(i) = comparator_of(slots, address) {
        lemma_occupied_update(slots, i, None);
    }
}

/// The comparators after breakpoints have been set at each of `addresses`,
/// one after the other.
pub open spec fn with_breakpoints(slots: Seq<Option<u32>>, addresses: Seq<u32>) -> Seq<
    Option<u32>,
>
    decreases addresses.len(),
{
    if addresses.len() == 0 {
        slots
    } else {
        with_breakpoint(with_breakpoints(slots, addresses.drop_last()), addresses.last())
    }
}

/// Setting a breakpoint sets no other address: an address that no
/// comparator held before, and that is not the one being set, is held by none
/// afterwards.
pub proof fn lemma_set_keeps_others_unset(slots: Seq<Option<u32>>, address: u32, other: u32)
    requires
        other != address,
        comparator_of(slots, other) is None,
    ensures
        comparator_of(with_breakpoint(slots, address), other) is None,
{
    lemma_comparator_of(slots, other);
    lemma_comparator_for(slots, address);
    let after = with_breakpoint(slots, address);
    lemma_comparator_of(after, other);
    if let Some(j) = comparator_of(after, other) {
        assert(after[j] == Some(other));
        assert(slots[j] != Some(other));
    }
}

/// As many new breakpoints fit as comparators are free. Set one after the
/// other, addresses that differ from each other and from what is set already
/// each find a comparator, and each takes one more; once every comparator is
/// in use, a further new address finds none.
pub proof fn lemma_set_up_to_capacity(slots: Seq<Option<u32>>, addresses: Seq<u32>)
    requires
        addresses.no_duplicates(),
        forall|i: int|
            0 <= i < addresses.len() ==> comparator_of(slots, #[trigger] addresses[i]) is None,
        occupied(slots) + addresses.len() <= slots.len(),
    ensures
        with_breakpoints(slots, addresses).len() == slots.len(),
        occupied(with_breakpoints(slots, addresses)) == occupied(slots) + addresses.len(),
        forall|k: int|
            0 <= k < addresses.len() ==> comparator_for(
                #[trigger] with_breakpoints(slots, addresses.take(k)),
                addresses[k],
            ) is Some,
        forall|other: u32|
            comparator_of(slots, other) is None && !addresses.contains(other) ==> comparator_of(
                with_breakpoints(slots, addresses),
                other,
            ) is None,
        occupied(slots) + addresses.len() == slots.len() ==> forall|other: u32|
            comparator_of(slots, other) is None && !addresses.contains(other) ==> comparator_for(
                with_breakpoints(slots, addresses),
                other,
            ) is None,
    decreases addresses.len(),
{
    if addresses.len() > 0 {
        let front = addresses.drop_last();
        let last = addresses.last();
        let before = with_breakpoints(slots, front);
        assert forall|i: int| 0 <= i < front.len() implies comparator_of(
            slots,
            #[trigger] front[i],
        ) is None by {
            assert(front[i] == addresses[i]);
        }
        lemma_set_up_to_capacity(slots, front);
        assert(!front.contains(last)) by {
            if front.contains(last) {
                let i = choose|i: int| 0 <= i < front.len() && front[i] == last;
                assert(addresses[i] == addresses[addresses.len() - 1]);
            }
        }
        assert(comparator_of(slots, last) is None) by {
            assert(addresses[addresses.len() - 1] == last);
        }
        assert(comparator_of(before, last) is None);
        lemma_set_new(before, last);
        lemma_comparator_for(before, last);
        assert forall|k: int| 0 <= k < addresses.len() implies comparator_for(
            #[trigger] with_breakpoints(slots, addresses.take(k)),
            addresses[k],
        ) is Some by {
            if k < front.len() {
                assert(addresses.take(k) =~= front.take(k));
                assert(addresses[k] == front[k]);
            } else {
                assert(addresses.take(k) =~= front);
            }
        }
        assert forall|other: u32|
            comparator_of(slots, other) is None && !addresses.contains(other) implies comparator_of(
            with_breakpoints(slots, addresses),
            other,
        ) is None by {
            assert(other != last) by {
                if other == last {
                    assert(addresses[addresses.len() - 1] == other);
                }
            }
            assert(!front.contains(other)) by {
                if front.contains(other) {
                    let i = choose|i: int| 0 <= i < front.len() && front[i] == other;
                    assert(addresses[i] == other);
                }
            }
            lemma_set_keeps_others_unset(before, last, other);
        }
    } else {
        assert(addresses.take(0) =~= addresses);
    }
    if occupied(slots) + addresses.len() == slots.len() {
        let after = with_breakpoints(slots, addresses);
        assert forall|other: u32|
            comparator_of(slots, other) is None && !addresses.contains(other) implies comparator_for(
            after,
            other,
        ) is None by {
            lemma_set_exhausted(after, other);
        }
    }
}

} // verus!
