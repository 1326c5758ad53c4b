use circles::circle_id::CircleId;
use circles::error::DecodeError;
use circles::grade::Grade;
use circles::major::Major;
use circles::member::Member;
use circles::member_id::MemberId;

#[test]
fn test_member_new() {
    let member = Member::new("test".to_string(), 20, Grade::First, Major::ComputerScience);
    assert_eq!(member.name, "test");
    assert_eq!(member.age, 20);
    assert_eq!(member.grade, Grade::First);
    assert_eq!(member.major, Major::ComputerScience);
}

#[test]
fn test_member_reconstruct() {
    let member_id = MemberId::gen();
    let member = Member::reconstruct(
        member_id.clone(),
        "test".to_string(),
        20,
        Grade::First,
        Major::ComputerScience,
    );
    assert_eq!(member.id, member_id);
    assert_eq!(member.name, "test");
    assert_eq!(member.age, 20);
    assert_eq!(member.grade, Grade::First);
    assert_eq!(member.major, Major::ComputerScience);
}

#[test]
fn test_is_adult() {
    let member1 = Member::new("test".to_string(), 20, Grade::First, Major::ComputerScience);
    assert!(member1.is_adult());
    let member2 = Member::new("test".to_string(), 19, Grade::First, Major::ComputerScience);
    assert!(!member2.is_adult());
}

#[test]
fn circle_id_test() {
    let circle_id = CircleId::gen();
    assert_eq!(circle_id.to_string().len(), 36);

    let str = "0123456789abcdef0123456789abcdef";
    let circle_id = CircleId::from_str(str).unwrap();
    assert_eq!(circle_id.to_string(), str);

    let circle_id = CircleId::from(1);
    assert_eq!(circle_id.to_string(), "1");
    assert_eq!(String::from(circle_id), "1");
}

#[test]
fn member_id_test() {
    let member_id = MemberId::gen();
    assert_eq!(member_id.to_string().len(), 36);

    let str = "0123456789abcdef0123456789abcdef";
    let member_id = MemberId::from_str(str).unwrap();
    assert_eq!(member_id.to_string(), str);

    let member_id = MemberId::from(1);
    assert_eq!(member_id.to_string(), "1");
    assert_eq!(String::from(member_id), "1");
}

#[test]
fn grade_test() {
    for (v, n) in [
        (Grade::First, 1),
        (Grade::Second, 2),
        (Grade::Third, 3),
        (Grade::Fourth, 4),
    ] {
        assert_eq!(i16::from(v), n);
        assert_eq!(Grade::try_from(n).unwrap(), v);
    }
}

#[test]
fn major_test() {
    for (v, s) in [
        (Major::ComputerScience, "ComputerScience"),
        (Major::Economics, "Economics"),
        (Major::Law, "Law"),
        (Major::Art, "Art"),
        (Major::Music, "Music"),
        (Major::Other, "Other"),
    ] {
        assert_eq!(Major::from(s), v);
        assert_eq!(String::from(v), s);
    }
}

#[test]
fn grade_codes_round_trip_and_others_fail() {
    for n in 1..=4i16 {
        assert_eq!(Grade::from_code(n).unwrap().to_code(), n);
    }
    for n in [i16::MIN, -1, 0, 5, 6, i16::MAX] {
        assert_eq!(Grade::from_code(n), Err(DecodeError { code: n }));
        assert_eq!(Grade::try_from(n), Err(DecodeError { code: n }));
    }
    assert_eq!(DecodeError { code: 9 }.to_string(), "error");
}

#[test]
fn unknown_major_is_other() {
    for s in ["", "music", "Computer Science", "Physics", "Other "] {
        assert_eq!(Major::from_text(s), Major::Other);
    }
    assert_eq!(Major::from_text("Music"), Major::Music);
    assert_eq!(Major::Economics.to_text(), "Economics");
}

#[test]
fn generated_ids_round_trip_through_text() {
    for _ in 0..20 {
        let id = CircleId::gen();
        assert_eq!(CircleId::from_str(&id.to_string()).unwrap(), id);
        assert!(id.to_string().chars().all(|c| c.is_ascii_alphanumeric()));
        let id = MemberId::gen();
        assert_eq!(MemberId::from_str(&id.to_string()).unwrap(), id);
        assert!(id.to_string().chars().all(|c| c.is_ascii_alphanumeric()));
    }
    assert_ne!(CircleId::gen(), CircleId::gen());
    assert_ne!(MemberId::gen(), MemberId::gen());
}

#[test]
fn ids_from_numbers_are_decimal_text() {
    assert_eq!(CircleId::from(0).to_string(), "0");
    assert_eq!(CircleId::from(-12).to_string(), "-12");
    assert_eq!(CircleId::from(i16::MAX).to_string(), "32767");
    assert_eq!(MemberId::from(i16::MIN).to_string(), "-32768");
    assert_eq!(MemberId::from(407).to_string(), "407");
}

#[test]
fn ids_compare_by_text() {
    let a = CircleId::from_str("abc").unwrap();
    let b = CircleId::from_str("abc").unwrap();
    let c = CircleId::from_str("abd").unwrap();
    assert!(a == b);
    assert!(a != c);
    assert!(a.clone() == a);
    let empty = MemberId::from_str("").unwrap();
    assert_eq!(empty.to_string(), "");
}
