//! The use case that reads one circle.
use vstd::prelude::*;
use crate::circle::{Circle, CircleView};
use crate::circle_id::CircleId;
use crate::error::{RepositoryError, UsecaseError};
use crate::interface::{found, CircleRepositoryInterface};
use crate::member::{member_views, Member};
use crate::member_data::{member_record, member_records, MemberDataView};

verus! {

/// The identifier of the circle to read.
#[derive(Debug)]
pub struct FetchCircleInput {
    pub id: String,
}

impl FetchCircleInput {
    /// The input with the given identifier.
    pub fn new(id: String) -> (input: FetchCircleInput)
        ensures
            input.id == id,
    {
        FetchCircleInput { id }
    }
}

/// A member as the use case hands it out: the grade as its code, the major
/// as its name.
#[derive(Debug)]
pub struct MemberOutput {
    pub id: String,
    pub name: String,
    pub age: i16,
    pub grade: i16,
    pub major: String,
}

impl View for MemberOutput {
    type V = MemberDataView;

    open spec fn view(&self) -> MemberDataView {
        MemberDataView {
            id: self.id@,
            name: self.name@,
            age: self.age as int,
            grade: self.grade as int,
            major: self.major@,
        }
    }
}

/// The views of a sequence of handed-out members, in the same order.
pub open spec fn output_views(members: Seq<MemberOutput>) -> Seq<MemberDataView> {
    members.map_values(|m: MemberOutput| m@)
}

impl MemberOutput {
    /// `member` as it is handed out.
    pub fn from_member(member: &Member) -> (output: MemberOutput)
        ensures
            output@ == member_record(member@),
    {
        MemberOutput {
            id: member.id.to_string(),
            name: member.name.clone(),
            age: member.age,
            grade: member.grade.to_code(),
            major: member.major.to_text(),
        }
    }
}

/// A circle as the use case hands it out.
#[derive(Debug)]
pub struct FetchCircleOutput {
    pub circle_id: String,
    pub circle_name: String,
    pub capacity: i16,
    pub owner: MemberOutput,
    pub members: Vec<MemberOutput>,
}

impl FetchCircleOutput {
    /// Whether this output shows `circle`: its fields, its owner, and its
    /// additional members in their order.
    pub open spec fn shows(&self, circle: CircleView) -> bool {
        &&& self.circle_id@ == circle.id
        &&& self.circle_name@ == circle.name
        &&& self.capacity as int == circle.capacity
        &&& self.owner@ == member_record(circle.owner)
        &&& output_views(self.members@) == member_records(circle.members)
    }

    /// `circle` as it is handed out.
    pub fn from_circle(circle: Circle) -> (output: FetchCircleOutput)
        ensures
            output.shows(circle@),
    {
        let mut members: Vec<MemberOutput> = Vec::new();
        let mut i: usize = 0;
        while i < circle.members.len()
            invariant
                i <= circle.members.len(),
                output_views(members@) == member_records(
                    member_views(circle.members@).take(i as int),
                ),
            decreases circle.members.len() - i,
        {
            let ghost before = members@;
            let member = MemberOutput::from_member(&circle.members[i]);
            members.push(member);
            assert(output_views(members@) =~= output_views(before).push(member@));
            assert(member_views(circle.members@).take(i + 1) =~= member_views(circle.members@).take(
                i as int,
            ).push(circle.members[i as int]@));
            assert(output_views(members@) =~= member_records(
                member_views(circle.members@).take(i + 1),
            ));
            i += 1;
        }
        assert(member_views(circle.members@).take(circle.members.len() as int) =~= member_views(
            circle.members@,
        ));
        let owner = MemberOutput::from_member(&circle.owner);
        FetchCircleOutput {
            circle_id: String::from(circle.id),
            circle_name: circle.name,
            capacity: circle.capacity,
            owner,
            members,
        }
    }
}

impl FetchCircleOutput {
    /// What the use case makes of the repository's answer: the circle as it
    /// is handed out when one was found, the repository's failure when none
    /// was.
    pub fn after_find(found: Result<Circle, RepositoryError>) -> (output: Result<
        FetchCircleOutput,
        UsecaseError,
    >)
        ensures
            match found {
                Ok(circle) => output is Ok && output->Ok_0.shows(circle@),
                Err(e) => output == Err::<FetchCircleOutput, UsecaseError>(
                    UsecaseError::Repository(e),
                ),
            },
    {
        match found {
            Ok(circle) => Ok(FetchCircleOutput::from_circle(circle)),
            Err(e) => Err(UsecaseError::Repository(e)),
        }
    }
}

/// Reads circles from a repository.
pub struct FetchCircleUsecase<T: CircleRepositoryInterface> {
    pub circle_repository: T,
}

impl<T: CircleRepositoryInterface> FetchCircleUsecase<T> {
    /// The use case over the given repository.
    pub fn new(circle_repository: T) -> (usecase: Self)
        ensures
            usecase.circle_repository == circle_repository,
    {
        FetchCircleUsecase { circle_repository }
    }

    /// The stored circle with the identifier of the input, as it is handed
    /// out; the repository's failure where it reports one.
    pub fn execute(&self, fetch_circle_input: FetchCircleInput) -> (output: Result<
        FetchCircleOutput,
        UsecaseError,
    >)
        ensures
            match output {
                Ok(shown) => {
                    &&& self.circle_repository.circles().contains_key(fetch_circle_input.id@)
                    &&& shown.shows(self.circle_repository.circles()[fetch_circle_input.id@])
                },
                Err(UsecaseError::Repository(e)) => e is StorageError || found(
                    self.circle_repository.circles(),
                    fetch_circle_input.id@,
                ) == Err::<CircleView, RepositoryError>(e),
                Err(_) => false,
            },
    {
        let circle_id = CircleId::from_str(fetch_circle_input.id.as_str()).unwrap();
        let found = self.circle_repository.find_by_id(&circle_id);
        FetchCircleOutput::after_find(found)
    }
}

} // verus!
