use circles::circle::Circle;
use circles::circle_data::CircleData;
use circles::circle_id::CircleId;
use circles::circle_repository::{name_taken, CircleDuplicateChecker, CircleRepository};
use circles::db::Db;
use circles::error::{DbError, DecodeError, DuplicateCheckError, RepositoryError};
use circles::grade::Grade;
use circles::interface::{CircleDuplicateCheckerInterface, CircleRepositoryInterface};
use circles::major::Major;
use circles::member::Member;
use circles::member_data::MemberData;

fn build_circle() -> Circle {
    Circle::create(
        "Music club".to_string(),
        Member::new("member_name1".to_string(), 21, Grade::Third, Major::Art),
        3,
    )
    .unwrap()
}

fn named(name: &str) -> Circle {
    Circle::create(
        name.to_string(),
        Member::new("owner".to_string(), 21, Grade::Third, Major::from("Computer Science")),
        10,
    )
    .unwrap()
}

#[test]
fn test_set_and_get() {
    let mut db = Db::new();
    db.set("key1".to_string(), "value1".to_string());
    let retrieved_value = db.get("key1").unwrap();
    assert_eq!(retrieved_value, "value1");
}

#[test]
fn test_remove() {
    let mut db = Db::new();
    db.set("key1".to_string(), "value1".to_string());
    db.remove("key1").unwrap();
    let retrieved_value: Option<&String> = db.get("key1");
    assert!(retrieved_value.is_none());
}

#[test]
fn test_keys() {
    let mut db = Db::new();
    db.set("key1".to_string(), "value1".to_string());
    db.set("key2".to_string(), "value2".to_string());
    let keys = db.keys();
    assert!(keys.contains(&String::from("key1")));
    assert!(keys.contains(&String::from("key2")));
}

#[test]
fn set_replaces_and_remove_of_nothing_fails() {
    let mut db = Db::new();
    assert_eq!(db.remove("key1"), Err(DbError::KeyNotFound));
    assert_eq!(DbError::KeyNotFound.to_string(), "Key not found in database");
    db.set("key1".to_string(), 1);
    db.set("key2".to_string(), 2);
    db.set("key1".to_string(), 3);
    assert_eq!(db.keys().len(), 2);
    assert_eq!(db.get("key1"), Some(&3));
    assert_eq!(db.get("key2"), Some(&2));
    assert!(db.contains_key("key2"));
    assert_eq!(db.remove("key1"), Ok(()));
    assert!(!db.contains_key("key1"));
    assert_eq!(db.get("key2"), Some(&2));
    assert_eq!(db.keys(), vec!["key2".to_string()]);
}

#[test]
fn circle_repository_test() {
    let mut circle1 = build_circle();
    let mut repository = CircleRepository::new();
    assert!(repository.find_by_id(&circle1.id).is_err());
    repository.create(&circle1).unwrap();
    assert_eq!(repository.find_by_id(&circle1.id).unwrap(), circle1);
    circle1.name = "circle_name2".to_string();
    repository.update(&circle1).unwrap();
    assert_eq!(repository.find_by_id(&circle1.id).unwrap(), circle1);
    repository.delete(&circle1).unwrap();
    assert!(repository.find_by_id(&circle1.id).is_err());
}

#[test]
fn create_twice_and_delete_then_find() {
    let circle = build_circle();
    let mut repository = CircleRepository::new();
    assert_eq!(repository.create(&circle), Ok(()));
    let twin = Circle::reconstruct(
        circle.id.clone(),
        "Other club".to_string(),
        Member::new("x".to_string(), 30, Grade::Third, Major::Law),
        5,
        vec![],
    );
    assert_eq!(repository.create(&twin), Err(RepositoryError::AlreadyExists));
    assert_eq!(repository.find_by_id(&circle.id).unwrap(), circle);
    assert_eq!(repository.delete(&circle), Ok(()));
    assert_eq!(repository.find_by_id(&circle.id), Err(RepositoryError::NotFound));
    assert_eq!(repository.delete(&circle), Err(RepositoryError::NotFound));
    assert_eq!(repository.update(&circle), Err(RepositoryError::NotFound));
    assert_eq!(RepositoryError::NotFound.to_string(), "Circle not found");
    assert_eq!(RepositoryError::AlreadyExists.to_string(), "Circle already exists");
    assert_eq!(RepositoryError::StorageError("disk".to_string()).to_string(), "disk");
}

#[test]
fn stored_circle_keeps_its_members() {
    let circle = build_circle()
        .add_member(Member::new("a".to_string(), 18, Grade::First, Major::Other))
        .unwrap()
        .add_member(Member::new("b".to_string(), 19, Grade::Second, Major::Economics))
        .unwrap();
    let mut repository = CircleRepository::new();
    repository.create(&circle).unwrap();
    let read = repository.find_by_id(&circle.id).unwrap();
    assert_eq!(read, circle);
    assert_eq!(read.members.len(), 2);
    assert_eq!(repository.update(&circle.clone().graduate()).unwrap(), circle);
}

#[test]
fn find_all_lists_each_circle_once() {
    let mut repository = CircleRepository::new();
    assert_eq!(repository.find_all().unwrap(), vec![]);
    let a = named("a");
    let b = named("b");
    repository.create(&a).unwrap();
    repository.create(&b).unwrap();
    repository.update(&a).unwrap();
    let all = repository.find_all().unwrap();
    assert_eq!(all.len(), 2);
    assert!(all.contains(&a));
    assert!(all.contains(&b));
}

#[test]
fn check_circle_duplicate_exists() {
    let mut repository = CircleRepository::new();
    let circle = named("Test Circle");
    repository.create(&circle).unwrap();
    let result = repository.check_circle_duplicate(&circle);
    assert!(result.is_err());
    assert_eq!(result, Err(DuplicateCheckError::DuplicateName));
    assert_eq!(result.unwrap_err().to_string(), "Circle name already exists");
}

#[test]
fn check_circle_duplicate_not_exists() {
    let repository = CircleRepository::new();
    let circle = named("New Circle");
    let result = repository.check_circle_duplicate(&circle);
    assert!(result.is_ok());
    let checker = CircleDuplicateChecker::new();
    assert!(checker.check_circle_duplicate(&circle).is_ok());
}

#[test]
fn guard_over_its_own_records() {
    let mut db = Db::new();
    let stored = named("Test Circle");
    db.set(stored.id.to_string(), CircleData::from(stored));
    assert!(name_taken(&db, "Test Circle"));
    assert!(!name_taken(&db, "Test"));
    let checker = CircleDuplicateChecker { db };
    assert_eq!(
        checker.check_circle_duplicate(&named("Test Circle")),
        Err(DuplicateCheckError::DuplicateName)
    );
    assert_eq!(checker.check_circle_duplicate(&named("Chess")), Ok(()));
    assert_eq!(DuplicateCheckError::StorageError("down".to_string()).to_string(), "down");
}

#[test]
fn two_creations_of_one_name_can_both_pass_the_guard() {
    let mut repository = CircleRepository::new();
    let first = named("Music club");
    let second = named("Music club");
    assert!(repository.check_circle_duplicate(&first).is_ok());
    assert!(repository.check_circle_duplicate(&second).is_ok());
    assert_eq!(repository.create(&first), Ok(()));
    assert_eq!(repository.create(&second), Ok(()));
    let all = repository.find_all().unwrap();
    assert_eq!(all.len(), 2);
    assert_eq!(all[0].name, all[1].name);
    assert_eq!(
        repository.check_circle_duplicate(&named("Music club")),
        Err(DuplicateCheckError::DuplicateName)
    );
}

fn record(id: &str, grade: i16, major: &str) -> MemberData {
    MemberData {
        id: id.to_string(),
        name: format!("name of {}", id),
        age: 20,
        grade,
        major: major.to_string(),
    }
}

#[test]
fn records_round_trip() {
    let circle = build_circle()
        .add_member(Member::new("a".to_string(), 18, Grade::First, Major::Other))
        .unwrap();
    let data = CircleData::from(circle.clone());
    assert_eq!(data.id, circle.id.to_string());
    assert_eq!(data.owner_id, circle.owner.id.to_string());
    assert_eq!(data.owner.grade, 3);
    assert_eq!(data.owner.major, "Art");
    assert_eq!(data.members.len(), 1);
    assert_eq!(data.members[0].grade, 1);
    assert_eq!(data.members[0].major, "Other");
    assert_eq!(data.capacity, 3);
    let copy = data.clone();
    assert_eq!(copy.name, "Music club");
    assert_eq!(Circle::try_from(data).unwrap(), circle);
    let member = Member::try_from(record("m", 2, "Law")).unwrap();
    assert_eq!(member.id.to_string(), "m");
    assert_eq!(member.grade, Grade::Second);
    assert_eq!(member.major, Major::Law);
    assert_eq!(MemberData::from(member).major, "Law");
}

#[test]
fn record_with_unknown_grade_is_refused() {
    assert_eq!(Member::try_from(record("m", 0, "Law")), Err(DecodeError { code: 0 }));
    let data = CircleData {
        id: "c".to_string(),
        name: "n".to_string(),
        owner_id: "o".to_string(),
        owner: record("o", 3, "Art"),
        capacity: 4,
        members: vec![record("a", 1, "Art"), record("b", 7, "Art"), record("c", 9, "Art")],
    };
    assert_eq!(Circle::try_from(data), Err(DecodeError { code: 7 }));
    let data = CircleData {
        id: "c".to_string(),
        name: "n".to_string(),
        owner_id: "o".to_string(),
        owner: record("o", 5, "Art"),
        capacity: 4,
        members: vec![record("b", 7, "Art")],
    };
    assert_eq!(Circle::try_from(data), Err(DecodeError { code: 5 }));
}

#[test]
fn rows_give_owner_and_additional_members() {
    let rows = vec![record("a", 1, "Art"), record("o", 3, "Music"), record("b", 2, "Law")];
    let data =
        CircleData::from_rows("c".to_string(), "n".to_string(), "o".to_string(), 5, rows).unwrap();
    assert_eq!(data.owner.id, "o");
    assert_eq!(data.owner.major, "Music");
    assert_eq!(data.members.len(), 2);
    assert_eq!(data.members[0].id, "a");
    assert_eq!(data.members[1].id, "b");
    let circle = Circle::try_from(data).unwrap();
    assert_eq!(circle.id, CircleId::from_str("c").unwrap());
    assert_eq!(circle.owner.grade, Grade::Third);
    assert_eq!(circle.members.len(), 2);
    assert_eq!(circle.capacity, 5);
}

#[test]
fn rows_without_the_owner_are_refused() {
    let rows = vec![record("a", 1, "Art")];
    let error = CircleData::from_rows("c".to_string(), "n".to_string(), "o".to_string(), 5, rows)
        .unwrap_err();
    assert_eq!(error, RepositoryError::StorageError("Owner not found".to_string()));
    assert_eq!(error.to_string(), "Owner not found");
    let none = CircleData::from_rows("c".to_string(), "n".to_string(), "o".to_string(), 5, vec![]);
    assert!(none.is_err());
}
