//! The stored record of a member.
use vstd::prelude::*;
use vstd::std_specs::convert::FromSpecImpl;
use vstd::std_specs::convert::TryFromSpecImpl;
use crate::error::DecodeError;
use crate::grade::Grade;
use crate::major::{lemma_major_text_round_trip, Major};
use crate::member::{Member, MemberView};
use crate::member_id::MemberId;

verus! {

/// What a member record holds, as plain values.
pub struct MemberDataView {
    pub id: Seq<char>,
    pub name: Seq<char>,
    pub age: int,
    pub grade: int,
    pub major: Seq<char>,
}

/// A member as it is stored: the grade as its code, the major as its name.
#[derive(Debug)]
pub struct MemberData {
    pub id: String,
    pub name: String,
    pub age: i16,
    pub grade: i16,
    pub major: String,
}

impl View for MemberData {
    type V = MemberDataView;

    open spec fn view(&self) -> MemberDataView {
        MemberDataView {
            id: self.id@,
            name: self.name@,
            age: self.age as int,
            grade: self.grade as int,
            major: self.major@,
        }
    }
}

/// The views of a sequence of member records, in the same order.
pub open spec fn record_views(records: Seq<MemberData>) -> Seq<MemberDataView> {
    records.map_values(|d: MemberData| d@)
}

/// The record of a member.
pub open spec fn member_record(member: MemberView) -> MemberDataView {
    MemberDataView {
        id: member.id,
        name: member.name,
        age: member.age,
        grade: member.grade.code(),
        major: member.major.text(),
    }
}

/// The member that a record describes. A grade code that names no grade
/// is an error that carries the code.
pub open spec fn member_of_record(record: MemberDataView) -> Result<MemberView, DecodeError> {
    match Grade::decode(record.grade) {
        Some(grade) => Ok(
            MemberView {
                id: record.id,
                name: record.name,
                age: record.age,
                grade,
                major: Major::from_text_spec(record.major),
            },
        ),
        None => Err(DecodeError { code: record.grade as i16 }),
    }
}

/// The records of a sequence of members, in the same order.
pub open spec fn member_records(members: Seq<MemberView>) -> Seq<MemberDataView> {
    members.map_values(|m: MemberView| member_record(m))
}

/// The members that a sequence of records describes, in the same order; the
/// error of the first record that describes none.
pub open spec fn members_of_records(records: Seq<MemberDataView>) -> Result<
    Seq<MemberView>,
    DecodeError,
>
    decreases records.len(),
{
    if records.len() == 0 {
        Ok(Seq::empty())
    } else {
        match members_of_records(records.drop_last()) {
            Err(e) => Err(e),
            Ok(front) => match member_of_record(records.last()) {
                Err(e) => Err(e),
                Ok(member) => Ok(front.push(member)),
            },
        }
    }
}

/// Reading the record of a member gives the member back.
pub proof fn lemma_member_record_round_trip(member: MemberView)
    ensures
        member_of_record(member_record(member)) == Ok::<MemberView, DecodeError>(member),
{
    lemma_major_text_round_trip(member.major);
}

/// Reading the records of a sequence of members gives the members back.
pub proof fn lemma_member_records_round_trip(members: Seq<MemberView>)
    ensures
        members_of_records(member_records(members)) == Ok::<Seq<MemberView>, DecodeError>(members),
    decreases members.len(),
{
    if members.len() == 0 {
        assert(members =~= Seq::empty());
    } else {
        let records = member_records(members);
        assert(records.drop_last() =~= member_records(members.drop_last()));
        lemma_member_records_round_trip(members.drop_last());
        lemma_member_record_round_trip(members.last());
        assert(members.drop_last().push(members.last()) =~= members);
    }
}

impl Clone for MemberData {
    fn clone(&self) -> (copy: MemberData)
        ensures
            copy == *self,
    {
        MemberData {
            id: self.id.clone(),
            name: self.name.clone(),
            age: self.age,
            grade: self.grade,
            major: self.major.clone(),
        }
    }
}

impl From<Member> for MemberData {
    fn from(value: Member) -> (record: MemberData)
        ensures
            record@ == member_record(value@),
    {
        MemberData {
            id: String::from(value.id),
            name: value.name,
            age: value.age,
            grade: value.grade.to_code(),
            major: value.major.to_text(),
        }
    }
}

impl FromSpecImpl<Member> for MemberData {
    open spec fn obeys_from_spec() -> bool {
        false
    }

    open spec fn from_spec(value: Member) -> MemberData {
        arbitrary()
    }
}

impl TryFrom<MemberData> for Member {
    type Error = DecodeError;

    fn try_from(value: MemberData) -> (member: Result<Member, DecodeError>)
        ensures
            match member {
                Ok(m) => member_of_record(value@) == Ok::<MemberView, DecodeError>(m@),
                Err(e) => member_of_record(value@) == Err::<MemberView, DecodeError>(e),
            },
    {
        let id = MemberId::from_str(value.id.as_str()).unwrap();
        let grade = match Grade::from_code(value.grade) {
            Ok(grade) => grade,
            Err(e) => { return Err(e); },
        };
        let major = Major::from_text(value.major.as_str());
        Ok(Member::reconstruct(id, value.name, value.age, grade, major))
    }
}

impl TryFromSpecImpl<MemberData> for Member {
    open spec fn obeys_try_from_spec() -> bool {
        false
    }

    open spec fn try_from_spec(value: MemberData) -> Result<Member, DecodeError> {
        arbitrary()
    }
}

} // verus!
