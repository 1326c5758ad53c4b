//! What the use cases ask of the collaborators that persist circles.
use vstd::prelude::*;
use crate::circle::{Circle, CircleView};
use crate::circle_id::CircleId;
use crate::error::{DuplicateCheckError, RepositoryError};

verus! {

/// The circles of a store, by identifier.
pub type Stored = Map<Seq<char>, CircleView>;

/// The views of a sequence of circles, in the same order.
pub open spec fn circle_views(circles: Seq<Circle>) -> Seq<CircleView> {
    circles.map_values(|c: Circle| c@)
}

/// What looking up `id` gives when the storage does not fail.
pub open spec fn found(store: Stored, id: Seq<char>) -> Result<CircleView, RepositoryError> {
    if store.contains_key(id) {
        Ok(store[id])
    } else {
        Err(RepositoryError::NotFound)
    }
}

/// The store after creating `circle`, when the storage does not fail: a
/// circle whose identifier is stored already is refused.
pub open spec fn created(store: Stored, circle: CircleView) -> Result<Stored, RepositoryError> {
    if store.contains_key(circle.id) {
        Err(RepositoryError::AlreadyExists)
    } else {
        Ok(store.insert(circle.id, circle))
    }
}

/// The store after updating `circle`, when the storage does not fail: a
/// circle whose identifier is not stored is refused.
pub open spec fn updated(store: Stored, circle: CircleView) -> Result<Stored, RepositoryError> {
    if store.contains_key(circle.id) {
        Ok(store.insert(circle.id, circle))
    } else {
        Err(RepositoryError::NotFound)
    }
}

/// The store after deleting the circle with the identifier `id`, when the
/// storage does not fail: an identifier that is not stored is refused.
pub open spec fn deleted(store: Stored, id: Seq<char>) -> Result<Stored, RepositoryError> {
    if store.contains_key(id) {
        Ok(store.remove(id))
    } else {
        Err(RepositoryError::NotFound)
    }
}

/// Whether `all` lists the circles of `store`: each stored circle once, in
/// some order, and nothing else.
pub open spec fn lists(all: Seq<CircleView>, store: Stored) -> bool {
    &&& forall|i: int|
        0 <= i < all.len() ==> store.contains_key((#[trigger] all[i]).id) && store[all[i].id]
            == all[i]
    &&& forall|k: Seq<char>|
        store.contains_key(k) ==> exists|i: int| 0 <= i < all.len() && (#[trigger] all[i]).id == k
    &&& forall|i: int, j: int|
        0 <= i < j < all.len() ==> (#[trigger] all[i]).id != (#[trigger] all[j]).id
}

/// Whether the circles of `store` can be listed: each one once, in some
/// order, and nothing else.
pub open spec fn listable(store: Stored) -> bool {
    exists|all: Seq<CircleView>| lists(all, store)
}

/// The names of the circles of a store.
pub open spec fn names_of(store: Stored) -> Set<Seq<char>> {
    Set::new(
        |name: Seq<char>|
            exists|k: Seq<char>| store.contains_key(k) && #[trigger] store[k].name == name,
    )
}

/// A store of circles that is held in the process and modelled by the map
/// of what it holds. Each operation either does what its name says or
/// reports why it did not; a failure of the storage may come at any time and
/// then says nothing of what was written.
pub trait CircleRepositoryInterface {
    /// The circles that are stored, by identifier.
    spec fn circles(&self) -> Stored;

    /// Every stored circle.
    fn find_all(&self) -> (all: Result<Vec<Circle>, RepositoryError>)
        ensures
            match all {
                Ok(circles) => lists(circle_views(circles@), self.circles()),
                Err(e) => e is StorageError,
            },
    ;

    /// The stored circle with the identifier `circle_id`.
    fn find_by_id(&self, circle_id: &CircleId) -> (circle: Result<Circle, RepositoryError>)
        ensures
            match circle {
                Ok(c) => found(self.circles(), circle_id@) == Ok::<CircleView, RepositoryError>(c@),
                Err(e) => e is StorageError || found(self.circles(), circle_id@) == Err::<
                    CircleView,
                    RepositoryError,
                >(e),
            },
    ;

    /// Stores a circle whose identifier is not stored yet.
    fn create(&mut self, circle: &Circle) -> (done: Result<(), RepositoryError>)
        ensures
            match done {
                Ok(()) => created(old(self).circles(), circle@) == Ok::<Stored, RepositoryError>(
                    final(self).circles(),
                ),
                Err(e) => e is StorageError || (created(old(self).circles(), circle@) == Err::<
                    Stored,
                    RepositoryError,
                >(e) && final(self).circles() == old(self).circles()),
            },
    ;

    /// Stores the new state of a circle that is stored, and returns what is
    /// stored then.
    fn update(&mut self, circle: &Circle) -> (stored: Result<Circle, RepositoryError>)
        ensures
            match stored {
                Ok(c) => c@ == circle@ && updated(old(self).circles(), circle@) == Ok::<
                    Stored,
                    RepositoryError,
                >(final(self).circles()),
                Err(e) => e is StorageError || (updated(old(self).circles(), circle@) == Err::<
                    Stored,
                    RepositoryError,
                >(e) && final(self).circles() == old(self).circles()),
            },
    ;

    /// Takes a stored circle out of the store.
    fn delete(&mut self, circle: &Circle) -> (done: Result<(), RepositoryError>)
        ensures
            match done {
                Ok(()) => deleted(old(self).circles(), circle@.id) == Ok::<Stored, RepositoryError>(
                    final(self).circles(),
                ),
                Err(e) => e is StorageError || (deleted(old(self).circles(), circle@.id) == Err::<
                    Stored,
                    RepositoryError,
                >(e) && final(self).circles() == old(self).circles()),
            },
    ;
}

/// A guard that looks for a stored circle of the same name. It only reads:
/// a name that passes may be taken a moment later.
pub trait CircleDuplicateCheckerInterface {
    /// The names of the circles that the guard sees.
    spec fn names(&self) -> Set<Seq<char>>;

    /// Passes when no circle that the guard sees has the name of `circle`.
    fn check_circle_duplicate(&self, circle: &Circle) -> (passed: Result<(), DuplicateCheckError>)
        ensures
            match passed {
                Ok(()) => !self.names().contains(circle@.name),
                Err(e) => e is StorageError || (e is DuplicateName && self.names().contains(
                    circle@.name,
                )),
            },
    ;
}

/// A circle that was created is found, as it was stored.
pub proof fn lemma_create_then_find(store: Stored, circle: CircleView)
    requires
        created(store, circle) is Ok,
    ensures
        found(created(store, circle)->Ok_0, circle.id) == Ok::<CircleView, RepositoryError>(circle),
{
}

/// A second circle with the identifier of one that was created is refused.
pub proof fn lemma_create_twice(store: Stored, first: CircleView, second: CircleView)
    requires
        created(store, first) is Ok,
        second.id == first.id,
    ensures
        created(created(store, first)->Ok_0, second) == Err::<Stored, RepositoryError>(
            RepositoryError::AlreadyExists,
        ),
{
}

/// A circle that was deleted is not found.
pub proof fn lemma_delete_then_find(store: Stored, id: Seq<char>)
    requires
        deleted(store, id) is Ok,
    ensures
        found(deleted(store, id)->Ok_0, id) == Err::<CircleView, RepositoryError>(
            RepositoryError::NotFound,
        ),
{
}

/// A circle that was updated is found in its new state.
pub proof fn lemma_update_then_find(store: Stored, circle: CircleView)
    requires
        updated(store, circle) is Ok,
    ensures
        found(updated(store, circle)->Ok_0, circle.id) == Ok::<CircleView, RepositoryError>(circle),
{
}

/// The guard is no lock: two circles of one name and different identifiers
/// that both passed it on a store can both be created there, one after the
/// other, and the store then holds the name twice.
pub proof fn lemma_check_then_act_race(store: Stored, first: CircleView, second: CircleView)
    requires
        first.name == second.name,
        first.id != second.id,
        !names_of(store).contains(first.name),
        !store.contains_key(first.id),
        !store.contains_key(second.id),
    ensures
        created(store, first) is Ok,
        created(created(store, first)->Ok_0, second) is Ok,
        ({
            let end = created(created(store, first)->Ok_0, second)->Ok_0;
            end.contains_key(first.id) && end.contains_key(second.id) && end[first.id].name
                == end[second.id].name
        }),
{
}

} // verus!
