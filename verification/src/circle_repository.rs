//! A repository and a name guard that keep their circles in memory.
use vstd::prelude::*;
use crate::circle::{Circle, CircleView};
use crate::circle_data::{circle_of_record, lemma_circle_record_round_trip, CircleData};
use crate::circle_id::CircleId;
use crate::db::Db;
use crate::error::{DuplicateCheckError, RepositoryError};
use crate::interface::{
    circle_views,
    names_of,
    CircleDuplicateCheckerInterface,
    CircleRepositoryInterface,
    Stored,
};

verus! {

/// The records of a store, by key.
pub type Records = Map<Seq<char>, CircleData>;

/// Whether every record lies under its own identifier and describes a
/// circle.
pub open spec fn sound(records: Records) -> bool {
    forall|k: Seq<char>|
        records.contains_key(k) ==> (#[trigger] records[k])@.id == k && circle_of_record(
            records[k]@,
        ) is Ok
}

/// The circles that sound records describe, by identifier.
pub open spec fn circles_of(records: Records) -> Stored {
    Map::new(
        |k: Seq<char>| records.contains_key(k),
        |k: Seq<char>| circle_of_record(records[k]@)->Ok_0,
    )
}

/// The names in the records of a store.
pub open spec fn record_names(records: Records) -> Set<Seq<char>> {
    Set::new(
        |name: Seq<char>|
            exists|k: Seq<char>| records.contains_key(k) && (#[trigger] records[k])@.name == name,
    )
}

/// The names in sound records are the names of the circles they describe.
pub proof fn lemma_names_of_sound_records(records: Records)
    requires
        sound(records),
    ensures
        record_names(records) == names_of(circles_of(records)),
{
    let store = circles_of(records);
    assert forall|name: Seq<char>| record_names(records).contains(name) == names_of(store).contains(
        name,
    ) by {
        if record_names(records).contains(name) {
            let k = choose|k: Seq<char>|
                records.contains_key(k) && (#[trigger] records[k])@.name == name;
            assert(store.contains_key(k) && store[k].name == name);
        }
        if names_of(store).contains(name) {
            let k = choose|k: Seq<char>| store.contains_key(k) && #[trigger] store[k].name == name;
            assert(records.contains_key(k) && records[k]@.name == name);
        }
    }
    assert(record_names(records) =~= names_of(store));
}

/// Whether a record of `db` has the name `name`.
pub fn name_taken(db: &Db<CircleData>, name: &str) -> (taken: bool)
    ensures
        taken == record_names(db@).contains(name@),
{
    let wanted = name.to_owned();
    let keys = db.keys();
    let mut i: usize = 0;
    while i < keys.len()
        invariant
            i <= keys.len(),
            wanted@ == name@,
            forall|j: int| 0 <= j < keys@.len() ==> db@.contains_key(#[trigger] keys@[j]@),
            forall|j: int| 0 <= j < i ==> db@[(#[trigger] keys@[j])@]@.name != name@,
        decreases keys.len() - i,
    {
        match db.get(keys[i].as_str()) {
            Some(record) => {
                if record.name == wanted {
                    assert(db@.contains_key(keys@[i as int]@) && db@[keys@[i as int]@]@.name
                        == name@);
                    return true;
                }
            },
            None => {},
        }
        i += 1;
    }
    proof {
        if record_names(db@).contains(name@) {
            let k = choose|k: Seq<char>| db@.contains_key(k) && (#[trigger] db@[k])@.name == name@;
            let j = choose|j: int| 0 <= j < keys@.len() && (#[trigger] keys@[j])@ == k;
            assert(db@[keys@[j]@]@.name != name@);
        }
    }
    false
}

/// A repository that keeps the records of its circles in memory.
#[derive(Debug)]
pub struct CircleRepository {
    db: Db<CircleData>,
}

impl CircleRepository {
    #[verifier::type_invariant]
    spec fn records_are_sound(self) -> bool {
        sound(self.db@)
    }

    /// A repository without circles.
    pub fn new() -> (repository: CircleRepository)
        ensures
            repository.circles() == Map::<Seq<char>, CircleView>::empty(),
    {
        let repository = CircleRepository { db: Db::new() };
        assert(repository.circles() =~= Map::<Seq<char>, CircleView>::empty());
        repository
    }

    /// Puts the record of `circle` under its identifier.
    fn store(&mut self, circle: &Circle)
        ensures
            final(self).circles() == old(self).circles().insert(circle@.id, circle@),
    {
        proof {
            use_type_invariant(&*self);
            lemma_circle_record_round_trip(circle@);
        }
        let ghost before = self.db@;
        let mut db: Db<CircleData> = Db::new();
        core::mem::swap(&mut self.db, &mut db);
        let record = CircleData::from(circle.clone());
        db.set(circle.id.to_string(), record);
        assert(sound(db@));
        assert(circles_of(db@) =~= circles_of(before).insert(circle@.id, circle@));
        self.db = db;
    }
}

impl CircleRepositoryInterface for CircleRepository {
    closed spec fn circles(&self) -> Stored {
        circles_of(self.db@)
    }

    /// Every stored circle. The in-memory storage does not fail: every
    /// record that it holds was written from a circle and reads back as one.
    fn find_all(&self) -> (all: Result<Vec<Circle>, RepositoryError>)
        ensures
            all is Ok,
    {
        proof {
            use_type_invariant(self);
        }
        let keys = self.db.keys();
        let mut circles: Vec<Circle> = Vec::new();
        let mut i: usize = 0;
        while i < keys.len()
            invariant
                i <= keys.len(),
                sound(self.db@),
                circles@.len() == i,
                forall|j: int| 0 <= j < keys@.len() ==> self.db@.contains_key(#[trigger] keys@[j]@),
                forall|j: int|
                    0 <= j < i ==> (#[trigger] circles@[j])@ == circles_of(self.db@)[keys@[j]@]
                        && circles@[j]@.id == keys@[j]@,
            decreases keys.len() - i,
        {
            let circle = match self.db.get(keys[i].as_str()) {
                Some(record) => Circle::try_from(record.clone()),
                None => { return Err(RepositoryError::NotFound); },
            };
            match circle {
                Ok(circle) => circles.push(circle),
                Err(e) => { return Err(RepositoryError::StorageError(e.to_string())); },
            }
            i += 1;
        }
        proof {
            let all = circle_views(circles@);
            let store = self.circles();
            assert forall|j: int| 0 <= j < all.len() implies store.contains_key(
                (#[trigger] all[j]).id,
            ) && store[all[j].id] == all[j] by {
                assert(circles@[j]@.id == keys@[j]@);
            }
            assert forall|k: Seq<char>| store.contains_key(k) implies exists|j: int|
                0 <= j < all.len() && (#[trigger] all[j]).id == k by {
                let j = choose|j: int| 0 <= j < keys@.len() && (#[trigger] keys@[j])@ == k;
                assert(circles@[j]@.id == keys@[j]@);
                assert(all[j].id == k);
            }
            assert forall|a: int, b: int| 0 <= a < b < all.len() implies (#[trigger] all[a]).id != (
            #[trigger] all[b]).id by {
                assert(circles@[a]@.id == keys@[a]@);
                assert(circles@[b]@.id == keys@[b]@);
            }
        }
        Ok(circles)
    }

    /// The stored circle with the identifier `circle_id`. The in-memory
    /// storage does not fail.
    fn find_by_id(&self, circle_id: &CircleId) -> (circle: Result<Circle, RepositoryError>)
        ensures
            !(circle matches Err(e) && e is StorageError),
    {
        proof {
            use_type_invariant(self);
        }
        let key = circle_id.to_string();
        match self.db.get(key.as_str()) {
            Some(record) => match Circle::try_from(record.clone()) {
                Ok(circle) => Ok(circle),
                Err(e) => Err(RepositoryError::StorageError(e.to_string())),
            },
            None => Err(RepositoryError::NotFound),
        }
    }

    /// Stores a circle whose identifier is not stored yet. The in-memory
    /// storage does not fail.
    fn create(&mut self, circle: &Circle) -> (done: Result<(), RepositoryError>)
        ensures
            !(done matches Err(e) && e is StorageError),
    {
        let key = circle.id.to_string();
        if self.db.contains_key(key.as_str()) {
            Err(RepositoryError::AlreadyExists)
        } else {
            self.store(circle);
            Ok(())
        }
    }

    /// Stores the new state of a circle that is stored. The in-memory
    /// storage does not fail.
    fn update(&mut self, circle: &Circle) -> (stored: Result<Circle, RepositoryError>)
        ensures
            !(stored matches Err(e) && e is StorageError),
    {
        let key = circle.id.to_string();
        if self.db.contains_key(key.as_str()) {
            self.store(circle);
            self.find_by_id(&circle.id)
        } else {
            Err(RepositoryError::NotFound)
        }
    }

    /// Takes a stored circle out of the store. The in-memory storage does
    /// not fail.
    fn delete(&mut self, circle: &Circle) -> (done: Result<(), RepositoryError>)
        ensures
            !(done matches Err(e) && e is StorageError),
    {
        proof {
            use_type_invariant(&*self);
        }
        let ghost before = self.db@;
        let key = circle.id.to_string();
        let mut db: Db<CircleData> = Db::new();
        core::mem::swap(&mut self.db, &mut db);
        let removed = db.remove(key.as_str());
        assert(sound(db@));
        assert(removed is Ok ==> circles_of(db@) =~= circles_of(before).remove(circle@.id));
        self.db = db;
        match removed {
            Ok(()) => Ok(()),
            Err(_) => Err(RepositoryError::NotFound),
        }
    }
}

impl CircleDuplicateCheckerInterface for CircleRepository {
    closed spec fn names(&self) -> Set<Seq<char>> {
        record_names(self.db@)
    }

    /// Passes when no stored circle has the name of `circle`. The in-memory
    /// storage does not fail, and the names that the guard sees are those of
    /// the stored circles.
    fn check_circle_duplicate(&self, circle: &Circle) -> (passed: Result<(), DuplicateCheckError>)
        ensures
            !(passed matches Err(e) && e is StorageError),
            self.names() == names_of(self.circles()),
    {
        proof {
            use_type_invariant(self);
            lemma_names_of_sound_records(self.db@);
        }
        if name_taken(&self.db, circle.name.as_str()) {
            Err(DuplicateCheckError::DuplicateName)
        } else {
            Ok(())
        }
    }
}

/// A name guard over records that it keeps in memory.
#[derive(Debug)]
pub struct CircleDuplicateChecker {
    pub db: Db<CircleData>,
}

impl CircleDuplicateChecker {
    /// A guard that sees no circle.
    pub fn new() -> (checker: CircleDuplicateChecker)
        ensures
            checker.db@ == Map::<Seq<char>, CircleData>::empty(),
    {
        CircleDuplicateChecker { db: Db::new() }
    }
}

impl CircleDuplicateCheckerInterface for CircleDuplicateChecker {
    open spec fn names(&self) -> Set<Seq<char>> {
        record_names(self.db@)
    }

    /// Passes when no record that the guard keeps has the name of `circle`.
    /// The in-memory storage does not fail.
    fn check_circle_duplicate(&self, circle: &Circle) -> (passed: Result<(), DuplicateCheckError>)
        ensures
            !(passed matches Err(e) && e is StorageError),
    {
        if name_taken(&self.db, circle.name.as_str()) {
            Err(DuplicateCheckError::DuplicateName)
        } else {
            Ok(())
        }
    }
}

} // verus!
