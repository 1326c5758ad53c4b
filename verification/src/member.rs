//! A person who owns or joins a circle.
use vstd::prelude::*;
use crate::grade::Grade;
use crate::major::Major;
use crate::member_id::MemberId;
use crate::text::all_alphanumeric;

verus! {

/// What a member is, as plain values.
pub struct MemberView {
    pub id: Seq<char>,
    pub name: Seq<char>,
    pub age: int,
    pub grade: Grade,
    pub major: Major,
}

/// A member: identity, name, age, grade and major.
#[derive(Debug, PartialEq, Eq)]
pub struct Member {
    pub id: MemberId,
    pub name: String,
    pub age: i16,
    pub grade: Grade,
    pub major: Major,
}

impl View for Member {
    type V = MemberView;

    open spec fn view(&self) -> MemberView {
        MemberView {
            id: self.id@,
            name: self.name@,
            age: self.age as int,
            grade: self.grade,
            major: self.major,
        }
    }
}

impl MemberView {
    /// An adult is 20 years old or older.
    pub open spec fn is_adult(self) -> bool {
        self.age >= 20
    }
}

/// The views of a sequence of members, in the same order.
pub open spec fn member_views(members: Seq<Member>) -> Seq<MemberView> {
    members.map_values(|m: Member| m@)
}

impl Member {
    /// A new member with a fresh identifier of 36 letters and digits.
    pub fn new(name: String, age: i16, grade: Grade, major: Major) -> (member: Member)
        ensures
            member@ == (MemberView { id: member.id@, name: name@, age: age as int, grade, major }),
            member.id@.len() == 36,
            all_alphanumeric(member.id@),
    {
        Member::reconstruct(MemberId::gen(), name, age, grade, major)
    }

    /// The member that the given values describe, taken as they are.
    pub fn reconstruct(id: MemberId, name: String, age: i16, grade: Grade, major: Major) -> (member:
        Member)
        ensures
            member@ == (MemberView { id: id@, name: name@, age: age as int, grade, major }),
            member.id == id,
            member.name == name,
    {
        Member { id, name, age, grade, major }
    }

    /// Whether this member is 20 years old or older.
    pub fn is_adult(&self) -> (adult: bool)
        ensures
            adult == self@.is_adult(),
    {
        self.age >= 20
    }
}

impl Clone for Member {
    fn clone(&self) -> (copy: Member)
        ensures
            copy == *self,
    {
        Member {
            id: self.id.clone(),
            name: self.name.clone(),
            age: self.age,
            grade: self.grade,
            major: self.major,
        }
    }
}

/// A copy of a list of members, in the same order.
pub fn clone_members(members: &Vec<Member>) -> (copy: Vec<Member>)
    ensures
        copy@ == members@,
{
    let mut copy: Vec<Member> = Vec::new();
    let mut i: usize = 0;
    while i < members.len()
        invariant
            i <= members.len(),
            copy@ == members@.take(i as int),
        decreases members.len() - i,
    {
        copy.push(members[i].clone());
        assert(copy@ =~= members@.take(i + 1));
        i += 1;
    }
    assert(members@.take(members.len() as int) =~= members@);
    copy
}

} // verus!
