use circles::circle::{Circle, MIN_CAPACITY};
use circles::circle_id::CircleId;
use circles::error::{MembershipError, ValidationError};
use circles::grade::Grade;
use circles::major::Major;
use circles::member::Member;
use circles::member_id::MemberId;

fn create_owner() -> Member {
    Member::reconstruct(
        MemberId::gen(),
        "owner".to_string(),
        21,
        Grade::Third,
        Major::ComputerScience,
    )
}

fn create_member(grade: Grade) -> Member {
    Member::new("member".to_string(), 20, grade, Major::ComputerScience)
}

#[test]
fn circle_test_create_circle() {
    let owner = create_owner();
    let circle = Circle::create("test circle".to_string(), owner, 10).unwrap();
    assert_eq!(circle.name, "test circle");
    assert_eq!(circle.capacity, 10);
    assert_eq!(circle.members.len(), 0);
}

#[test]
fn test_create_circle_with_invalid_owner() {
    let owner = create_member(Grade::First);
    let error = Circle::create("test circle".to_string(), owner, 10).unwrap_err();
    assert_eq!(error.to_string(), "Owner must be 3rd grade");
}

#[test]
fn test_create_circle_with_invalid_capacity() {
    let owner = create_owner();
    let error = Circle::create("test circle".to_string(), owner, 0).unwrap_err();
    assert_eq!(error.to_string(), "Capacity must be at least 1");
}

#[test]
fn test_add_member() {
    let owner = create_owner();
    let circle = Circle::create("test circle".to_string(), owner, 10).unwrap();
    let member = create_member(Grade::First);
    let circle = circle.add_member(member).unwrap();
    assert_eq!(circle.members.len(), 1);
}

#[test]
fn test_add_member_to_full_circle() {
    let owner = create_owner();
    let circle = Circle::create("test circle".to_string(), owner, 1).unwrap();
    let member = create_member(Grade::First);
    let error = circle.add_member(member).unwrap_err();
    assert_eq!(error.to_string(), "Circle member is full");
}

#[test]
fn test_add_4th_grade_member() {
    let owner = create_owner();
    let circle = Circle::create("test circle".to_string(), owner, 10).unwrap();
    let member = create_member(Grade::Fourth);
    let error = circle.add_member(member).unwrap_err();
    assert_eq!(error.to_string(), "4th grade can't join circle");
}

#[test]
fn test_remove_member() {
    let owner = create_owner();
    let circle = Circle::create("test circle".to_string(), owner, 10).unwrap();
    let member = create_member(Grade::First);
    let circle = circle.add_member(member.clone()).unwrap();
    let circle = circle.remove_member(&member).unwrap();
    assert_eq!(circle.members.len(), 0);
}

#[test]
fn test_remove_owner() {
    let owner = create_owner();
    let circle = Circle::create("test circle".to_string(), owner.clone(), 10).unwrap();
    let error = circle.remove_member(&owner).unwrap_err();
    assert_eq!(error.to_string(), "Owner can't be removed");
}

#[test]
fn test_remove_non_existent_member() {
    let owner = create_owner();
    let circle = Circle::create("test circle".to_string(), owner, 10).unwrap();
    let member = create_member(Grade::First);
    let error = circle.remove_member(&member).unwrap_err();
    assert_eq!(error.to_string(), "Member not found in circle");
}

#[test]
fn test_graduate() {
    let owner = create_owner();
    let member1 = create_member(Grade::First);
    let member2 = create_member(Grade::Fourth);
    let circle = Circle::reconstruct(
        CircleId::gen(),
        "test circle".to_string(),
        owner,
        10,
        vec![member1, member2],
    );
    let graduated_circle = circle.graduate();
    assert_eq!(graduated_circle.members.len(), 1);
}

#[test]
fn created_circle_has_fresh_id_and_no_members() {
    let owner = create_owner();
    let circle = Circle::create("Music club".to_string(), owner.clone(), MIN_CAPACITY).unwrap();
    assert_eq!(circle.id.to_string().len(), 36);
    assert!(circle.id.to_string().chars().all(|c| c.is_ascii_alphanumeric()));
    assert!(circle.members.is_empty());
    assert_eq!(circle.owner, owner);
    assert_eq!(circle.id().to_string(), circle.id.to_string());
    assert_eq!(circle.name(), "Music club");
    let other = Circle::create("Music club".to_string(), owner, MIN_CAPACITY).unwrap();
    assert_ne!(other.id, circle.id);
}

#[test]
fn owner_grade_is_looked_at_before_capacity() {
    for grade in [Grade::First, Grade::Second, Grade::Fourth] {
        for capacity in [i16::MIN, -1, 0, 1, 3, i16::MAX] {
            let error =
                Circle::create("c".to_string(), create_member(grade), capacity).unwrap_err();
            assert_eq!(error, ValidationError::InvalidOwnerGrade);
        }
    }
    for capacity in [i16::MIN, -1, 0] {
        let error = Circle::create("c".to_string(), create_owner(), capacity).unwrap_err();
        assert_eq!(error, ValidationError::InvalidCapacity);
    }
}

#[test]
fn music_club_fills_at_capacity() {
    let owner = Member::new("owner".to_string(), 21, Grade::Third, Major::Music);
    let circle = Circle::create("Music club".to_string(), owner, 3).unwrap();
    let circle = circle.add_member(create_member(Grade::First)).unwrap();
    let circle = circle.add_member(create_member(Grade::Second)).unwrap();
    assert_eq!(circle.members.len(), 2);
    assert!(circle.is_full());
    let before = circle.clone();
    let error = circle.clone().add_member(create_member(Grade::First)).unwrap_err();
    assert_eq!(error, MembershipError::CircleFull);
    assert_eq!(circle, before);
}

#[test]
fn full_circle_refuses_before_grade_is_looked_at() {
    let circle = Circle::create("c".to_string(), create_owner(), 1).unwrap();
    let error = circle.add_member(create_member(Grade::Fourth)).unwrap_err();
    assert_eq!(error, MembershipError::CircleFull);
}

#[test]
fn circle_without_positive_capacity_is_full() {
    let circle = Circle::reconstruct(CircleId::gen(), "c".to_string(), create_owner(), -1, vec![]);
    assert!(circle.is_full());
    let error = circle.add_member(create_member(Grade::First)).unwrap_err();
    assert_eq!(error, MembershipError::CircleFull);
}

#[test]
fn added_member_comes_last() {
    let circle = Circle::create("c".to_string(), create_owner(), 5).unwrap();
    let first = create_member(Grade::First);
    let second = create_member(Grade::Second);
    let circle = circle.add_member(first.clone()).unwrap();
    let circle = circle.add_member(second.clone()).unwrap();
    assert_eq!(circle.members, vec![first, second]);
}

#[test]
fn remove_keeps_the_others_in_order() {
    let a = create_member(Grade::First);
    let b = create_member(Grade::Second);
    let c = create_member(Grade::Third);
    let circle = Circle::reconstruct(
        CircleId::gen(),
        "c".to_string(),
        create_owner(),
        10,
        vec![a.clone(), b.clone(), c.clone()],
    );
    let circle = circle.remove_member(&b).unwrap();
    assert_eq!(circle.members, vec![a, c]);
    let error = circle.remove_member(&b).unwrap_err();
    assert_eq!(error, MembershipError::MemberNotFound);
}

#[test]
fn graduate_keeps_owner_of_any_grade() {
    let owner = Member::new("owner".to_string(), 22, Grade::Fourth, Major::Law);
    let a = create_member(Grade::Fourth);
    let b = create_member(Grade::Third);
    let c = create_member(Grade::Fourth);
    let d = create_member(Grade::First);
    let circle = Circle::reconstruct(
        CircleId::gen(),
        "c".to_string(),
        owner.clone(),
        10,
        vec![a, b.clone(), c, d.clone()],
    );
    let circle = circle.graduate();
    assert_eq!(circle.owner, owner);
    assert_eq!(circle.members, vec![b, d]);
}

#[test]
fn update_replaces_only_what_is_given() {
    let circle = Circle::create("music".to_string(), create_owner(), 10).unwrap();
    let id = circle.id.clone();
    let renamed = circle.update(Some("footBall".to_string()), None);
    assert_eq!(renamed.name, "footBall");
    assert_eq!(renamed.capacity, 10);
    let resized = renamed.update(None, Some(20));
    assert_eq!(resized.name, "footBall");
    assert_eq!(resized.capacity, 20);
    let same = resized.clone().update(None, None);
    assert_eq!(same, resized);
    assert_eq!(same.id, id);
}

#[test]
fn update_does_not_hold_capacity_against_headcount() {
    let circle = Circle::reconstruct(
        CircleId::gen(),
        "c".to_string(),
        create_owner(),
        10,
        vec![create_member(Grade::First), create_member(Grade::Second)],
    );
    let shrunk = circle.update(None, Some(1));
    assert_eq!(shrunk.capacity, 1);
    assert_eq!(shrunk.members.len(), 2);
}

#[test]
fn circle_members_start_with_the_owner() {
    let owner = create_owner();
    let a = create_member(Grade::First);
    let circle = Circle::reconstruct(
        CircleId::gen(),
        "c".to_string(),
        owner.clone(),
        10,
        vec![a.clone()],
    );
    let everyone = circle.circle_members();
    assert_eq!(everyone, vec![&owner, &a]);
    assert!(!circle.is_runnable());
    let circle = circle.add_member(create_member(Grade::Second)).unwrap();
    assert!(circle.is_runnable());
}

#[test]
fn adults_may_drink() {
    let adult = Member::new("a".to_string(), 20, Grade::Second, Major::Art);
    let minor = Member::new("b".to_string(), 19, Grade::First, Major::Art);
    assert!(Circle::is_drinkable_alcohol(&adult));
    assert!(!Circle::is_drinkable_alcohol(&minor));
}

#[test]
fn membership_error_messages() {
    assert_eq!(MembershipError::CircleFull.to_string(), "Circle member is full");
    assert_eq!(
        MembershipError::GraduatingMemberRejected.to_string(),
        "4th grade can't join circle"
    );
    assert_eq!(MembershipError::OwnerRemovalForbidden.to_string(), "Owner can't be removed");
    assert_eq!(MembershipError::MemberNotFound.to_string(), "Member not found in circle");
    assert_eq!(ValidationError::InvalidOwnerGrade.to_string(), "Owner must be 3rd grade");
    assert_eq!(ValidationError::InvalidCapacity.to_string(), "Capacity must be at least 1");
}

#[test]
fn given_identifier_gives_the_circle_exactly() {
    let owner = create_owner();
    let id = CircleId::from_str("circle-1").unwrap();
    let circle = Circle::create_with_id(id.clone(), "Music club".to_string(), owner.clone(), 3).unwrap();
    assert_eq!(
        circle,
        Circle::reconstruct(id.clone(), "Music club".to_string(), owner.clone(), 3, vec![])
    );
    assert_eq!(
        Circle::create_with_id(id.clone(), "c".to_string(), owner, 0),
        Err(ValidationError::InvalidCapacity)
    );
    assert_eq!(
        Circle::create_with_id(id, "c".to_string(), create_member(Grade::Fourth), 0),
        Err(ValidationError::InvalidOwnerGrade)
    );
}
