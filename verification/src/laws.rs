//! What holds of every registry, whatever happens to it. Each statement is
//! about the values that the operations of `DogMap` are specified with.

use vstd::prelude::*;
use crate::dog::{DogView, NewDogView};
use crate::model::{Change, RegistryModel};

verus! {

/// No change breaks a registry: dogs stay filed under their own
/// identifiers, and a retired identifier stays out of use.
pub proof fn lemma_change_keeps_wf(before: RegistryModel, change: Change)
    requires
        before.wf(),
    ensures
        before.apply(change).wf(),
{
}

/// A run of changes leaves a registry well-formed.
pub proof fn lemma_run_keeps_wf(before: RegistryModel, changes: Seq<Change>)
    requires
        before.wf(),
    ensures
        before.run(changes).wf(),
    decreases changes.len(),
{
    if changes.len() > 0 {
        lemma_run_keeps_wf(before, changes.drop_last());
        lemma_change_keeps_wf(before.run(changes.drop_last()), changes.last());
    }
}

/// How each change moves the number of dogs: a successful insertion adds
/// one, a successful deletion takes one away, and nothing else moves it.
pub proof fn lemma_change_len(before: RegistryModel, change: Change)
    requires
        before.wf(),
    ensures
        before.apply(change).len() == match change {
            Change::Insert(id, _) => if before.issued(id) {
                before.len()
            } else {
                before.len() + 1
            },
            Change::Replace(_, _) => before.len(),
            Change::Delete(id) => if before.contains(id) {
                (before.len() - 1) as nat
            } else {
                before.len()
            },
        },
{
    if let Change::Replace(id, dog) = change {
        if before.contains(id) {
            assert(before.replace(id, dog).dogs.dom() =~= before.dogs.dom());
        }
    }
}

/// A change leaves every dog under another identifier as it was, and does
/// not issue or retire another identifier.
pub proof fn lemma_change_is_local(before: RegistryModel, change: Change, other: Seq<char>)
    requires
        change.target() != other,
    ensures
        before.apply(change).lookup(other) == before.lookup(other),
        before.apply(change).issued(other) == before.issued(other),
{
}

/// A run of changes leaves a dog as it was if none of them is about its
/// identifier: what one handler does to its own dog never shows in
/// another's.
pub proof fn lemma_run_is_local(before: RegistryModel, changes: Seq<Change>, other: Seq<char>)
    requires
        forall|k: int| 0 <= k < changes.len() ==> (#[trigger] changes[k]).target() != other,
    ensures
        before.run(changes).lookup(other) == before.lookup(other),
        before.run(changes).issued(other) == before.issued(other),
    decreases changes.len(),
{
    if changes.len() > 0 {
        let earlier = changes.drop_last();
        assert forall|k: int| 0 <= k < earlier.len() implies (#[trigger] earlier[k]).target()
            != other by {
            assert(earlier[k] == changes[k]);
        }
        lemma_run_is_local(before, earlier, other);
        lemma_change_is_local(before.run(earlier), changes.last(), other);
    }
}

/// First one run of changes, then another, is one run of both in a row.
pub proof fn lemma_run_in_two(before: RegistryModel, first: Seq<Change>, second: Seq<Change>)
    ensures
        before.run(first + second) == before.run(first).run(second),
    decreases second.len(),
{
    if second.len() == 0 {
        assert(first + second =~= first);
    } else {
        assert((first + second).drop_last() =~= first + second.drop_last());
        lemma_run_in_two(before, first, second.drop_last());
    }
}

/// An identifier that was issued stays issued, whatever happens later.
pub proof fn lemma_issued_is_forever(before: RegistryModel, changes: Seq<Change>, id: Seq<char>)
    requires
        before.issued(id),
    ensures
        before.run(changes).issued(id),
    decreases changes.len(),
{
    if changes.len() > 0 {
        lemma_issued_is_forever(before, changes.drop_last(), id);
    }
}

/// Whether the change at position `k` of a run creates a dog: it is an
/// insertion, and its identifier was not issued when its turn came.
pub open spec fn creates(start: RegistryModel, changes: Seq<Change>, k: int) -> bool {
    changes[k] is Insert && !start.run(changes.take(k)).issued(changes[k].target())
}

/// No identifier is given to two dogs: whatever else happens in a run, two
/// changes of it that each create a dog do so under different identifiers,
/// also when the first dog was deleted in between.
pub proof fn lemma_ids_are_unique(start: RegistryModel, changes: Seq<Change>, i: int, j: int)
    requires
        0 <= i < j < changes.len(),
        creates(start, changes, i),
        creates(start, changes, j),
    ensures
        changes[i].target() != changes[j].target(),
{
    let with_i = changes.take(i + 1);
    let between = changes.subrange(i + 1, j);
    assert(with_i.drop_last() =~= changes.take(i));
    assert(start.run(with_i).issued(changes[i].target()));
    assert(changes.take(j) =~= with_i + between);
    lemma_run_in_two(start, with_i, between);
    lemma_issued_is_forever(start.run(with_i), between, changes[i].target());
}

/// Creations add up: after a run of `n` changes that each create a dog, the
/// registry holds `n` dogs more than before, one under each of `n`
/// different identifiers, with the fields it was created with.
///
/// A creation whose identifier was issued before creates nothing and leaves
/// the registry as it was, so it does not count.
pub proof fn lemma_creations_add_up(start: RegistryModel, changes: Seq<Change>)
    requires
        start.wf(),
        forall|k: int| 0 <= k < changes.len() ==> creates(start, changes, k),
    ensures
        start.run(changes).len() == start.len() + changes.len(),
        forall|i: int, j: int|
            0 <= i < j < changes.len() ==> (#[trigger] changes[i]).target() != (
            #[trigger] changes[j]).target(),
        forall|k: int|
            0 <= k < changes.len() ==> start.run(changes).lookup(
                (#[trigger] changes[k]).target(),
            ) == changes[k].files(),
    decreases changes.len(),
{
    assert forall|i: int, j: int| 0 <= i < j < changes.len() implies (#[trigger] changes[i]).target()
        != (#[trigger] changes[j]).target() by {
        lemma_ids_are_unique(start, changes, i, j);
    }
    if changes.len() > 0 {
        let earlier = changes.drop_last();
        let last = changes.last();
        assert(earlier =~= changes.take(changes.len() - 1));
        assert forall|k: int| 0 <= k < earlier.len() implies creates(start, earlier, k) by {
            assert(creates(start, changes, k));
            assert(earlier.take(k) =~= changes.take(k));
        }
        lemma_creations_add_up(start, earlier);
        lemma_run_keeps_wf(start, earlier);
        assert(creates(start, changes, changes.len() - 1));
        lemma_change_len(start.run(earlier), last);
        assert forall|k: int| 0 <= k < changes.len() implies start.run(changes).lookup(
            (#[trigger] changes[k]).target(),
        ) == changes[k].files() by {
            if k < changes.len() - 1 {
                assert(earlier[k] == changes[k]);
                lemma_change_is_local(start.run(earlier), last, changes[k].target());
            }
        }
    }
}

/// A dog can be read back once it is created, with the fields it was
/// created with, and for as long as no change is made to that identifier.
pub proof fn lemma_read_after_create(
    before: RegistryModel,
    id: Seq<char>,
    fields: NewDogView,
    later: Seq<Change>,
)
    requires
        !before.issued(id),
        forall|k: int| 0 <= k < later.len() ==> (#[trigger] later[k]).target() != id,
    ensures
        before.insert(id, fields).lookup(id) == Some(fields.with_id(id)),
        before.insert(id, fields).run(later).lookup(id) == Some(fields.with_id(id)),
{
    lemma_run_is_local(before.insert(id, fields), later, id);
}

/// A deleted dog stays deleted: once a deletion has succeeded, no run of
/// changes brings a dog back under that identifier, because no creation is
/// given a retired identifier.
pub proof fn lemma_deleted_stays_absent(before: RegistryModel, id: Seq<char>, later: Seq<Change>)
    requires
        before.contains(id),
    ensures
        before.delete(id).lookup(id) is None,
        before.delete(id).run(later).lookup(id) is None,
        before.delete(id).run(later).retired.contains(id),
    decreases later.len(),
{
    if later.len() > 0 {
        lemma_deleted_stays_absent(before, id, later.drop_last());
    }
}

/// Replacing a dog that is not there finds nothing and changes nothing, the
/// number of dogs included.
pub proof fn lemma_replace_missing_is_noop(before: RegistryModel, id: Seq<char>, dog: DogView)
    requires
        !before.contains(id),
    ensures
        before.replace(id, dog) == before,
        before.replace(id, dog).len() == before.len(),
        before.replace(id, dog).lookup(id) is None,
{
}

/// Deleting a dog that is not there finds nothing and changes nothing, the
/// first time and every time after.
pub proof fn lemma_delete_missing_twice(before: RegistryModel, id: Seq<char>)
    requires
        !before.contains(id),
    ensures
        before.delete(id) == before,
        !before.delete(id).contains(id),
        before.delete(id).delete(id) == before,
{
}

/// A dog that is created, replaced and deleted leaves the dogs of the
/// registry as they were before it came.
pub proof fn lemma_cycle_restores(
    before: RegistryModel,
    id: Seq<char>,
    fields: NewDogView,
    dog: DogView,
)
    requires
        !before.issued(id),
    ensures
        before.insert(id, fields).replace(id, dog).delete(id).dogs == before.dogs,
        before.insert(id, fields).replace(id, dog).delete(id).len() == before.len(),
{
    assert(before.insert(id, fields).replace(id, dog).delete(id).dogs =~= before.dogs);
}

/// Whether the last change about `id` in `changes` is its deletion.
pub open spec fn ends_deleted(changes: Seq<Change>, id: Seq<char>) -> bool {
    exists|last: int|
        {
            &&& 0 <= last < changes.len()
            &&& #[trigger] changes[last] == Change::Delete(id)
            &&& forall|k: int| last < k < changes.len() ==> (#[trigger] changes[k]).target() != id
        }
}

/// Handlers that each work on dogs of their own, and delete what they
/// created, leave the registry with the dogs it had, however their changes
/// interleave: if no change is about a dog that was there before, and the
/// last change about each identifier is its deletion, the dogs at the end
/// are the dogs at the start.
pub proof fn lemma_interleaved_cycles_restore(before: RegistryModel, changes: Seq<Change>)
    requires
        forall|k: int| 0 <= k < changes.len() ==> !before.contains((#[trigger] changes[k]).target()),
        forall|k: int|
            0 <= k < changes.len() ==> ends_deleted(changes, (#[trigger] changes[k]).target()),
    ensures
        before.run(changes).dogs == before.dogs,
        before.run(changes).len() == before.len(),
{
    let after = before.run(changes);
    assert forall|id: Seq<char>| after.lookup(id) == before.lookup(id) by {
        if exists|k: int| 0 <= k < changes.len() && (#[trigger] changes[k]).target() == id {
            let k = choose|k: int| 0 <= k < changes.len() && (#[trigger] changes[k]).target() == id;
            assert(ends_deleted(changes, changes[k].target()));
            let last = choose|last: int|
                {
                    &&& 0 <= last < changes.len()
                    &&& #[trigger] changes[last] == Change::Delete(id)
                    &&& forall|k: int|
                        last < k < changes.len() ==> (#[trigger] changes[k]).target() != id
                };
            lemma_absent_after_last_delete(before, changes, id, last);
        } else {
            lemma_run_is_local(before, changes, id);
        }
    }
    assert(after.dogs =~= before.dogs) by {
        assert forall|id: Seq<char>| after.dogs.contains_key(id) == before.dogs.contains_key(
            id,
        ) by {
            assert(after.lookup(id) == before.lookup(id));
        }
        assert forall|id: Seq<char>| after.dogs.contains_key(id) implies after.dogs[id]
            == before.dogs[id] by {
            assert(after.lookup(id) == before.lookup(id));
        }
    }
}

/// No dog is filed under `id` after a run in which the last change about
/// `id`, at position `last`, is its deletion.
proof fn lemma_absent_after_last_delete(
    before: RegistryModel,
    changes: Seq<Change>,
    id: Seq<char>,
    last: int,
)
    requires
        0 <= last < changes.len(),
        changes[last] == Change::Delete(id),
        forall|k: int| last < k < changes.len() ==> (#[trigger] changes[k]).target() != id,
    ensures
        before.run(changes).lookup(id) is None,
    decreases changes.len(),
{
    let earlier = changes.drop_last();
    if last < changes.len() - 1 {
        assert(earlier[last] == changes[last]);
        assert forall|k: int| last < k < earlier.len() implies (#[trigger] earlier[k]).target()
            != id by {
            assert(earlier[k] == changes[k]);
        }
        lemma_absent_after_last_delete(before, earlier, id, last);
        lemma_change_is_local(before.run(earlier), changes.last(), id);
    }
}

} // verus!
