//! The use case that creates a circle: build it, ask the name guard, store it.
use vstd::prelude::*;
use crate::circle::{creation_verdict, Circle, CircleView};
use crate::circle_id::CircleId;
use crate::error::{DuplicateCheckError, RepositoryError, UsecaseError};
use crate::grade::Grade;
use crate::interface::{created, CircleDuplicateCheckerInterface, CircleRepositoryInterface, Stored};
use crate::major::Major;
use crate::member::{Member, MemberView};
use crate::member_id::MemberId;

verus! {

/// What the caller gives to create a circle.
#[derive(Debug, PartialEq, Eq)]
pub struct CreateCircleInput {
    pub circle_name: String,
    pub capacity: i16,
    pub owner_name: String,
    pub owner_age: i16,
    pub owner_grade: i16,
    pub owner_major: String,
}

/// The identifiers of the circle that was created and of its owner.
#[derive(Debug, PartialEq, Eq)]
pub struct CreateCircleOutput {
    pub circle_id: String,
    pub owner_id: String,
}

impl CreateCircleInput {
    /// The input with the given fields.
    pub fn new(
        circle_name: String,
        capacity: i16,
        owner_name: String,
        owner_age: i16,
        owner_grade: i16,
        owner_major: String,
    ) -> (input: CreateCircleInput)
        ensures
            input == (CreateCircleInput {
                circle_name,
                capacity,
                owner_name,
                owner_age,
                owner_grade,
                owner_major,
            }),
    {
        CreateCircleInput { circle_name, capacity, owner_name, owner_age, owner_grade, owner_major }
    }

    /// The owner that the input describes, under the identifier `owner_id`
    /// and with the grade `grade`.
    pub open spec fn owner(&self, owner_id: Seq<char>, grade: Grade) -> MemberView {
        MemberView {
            id: owner_id,
            name: self.owner_name@,
            age: self.owner_age as int,
            grade,
            major: Major::from_text_spec(self.owner_major@),
        }
    }

    /// Whether a circle can be built from the input: the grade code must
    /// name a grade, and then the circle rules must accept owner and
    /// capacity.
    pub open spec fn verdict(&self) -> Result<(), UsecaseError> {
        match Grade::from_code_spec(self.owner_grade) {
            Err(e) => Err(UsecaseError::Decode(e)),
            Ok(grade) => match creation_verdict(
                self.owner(Seq::empty(), grade),
                self.capacity as int,
            ) {
                Err(e) => Err(UsecaseError::Validation(e)),
                Ok(()) => Ok(()),
            },
        }
    }

    /// The circle that the input describes, under the given identifiers.
    pub open spec fn described(&self, circle_id: Seq<char>, owner_id: Seq<char>) -> CircleView {
        CircleView {
            id: circle_id,
            name: self.circle_name@,
            capacity: self.capacity as int,
            owner: self.owner(owner_id, Grade::Third),
            members: Seq::empty(),
        }
    }

    /// The circle that the input describes, with fresh identifiers of 36
    /// letters and digits for the circle and its owner.
    pub fn into_circle(self) -> (built: Result<Circle, UsecaseError>)
        ensures
            match built {
                Ok(circle) => {
                    &&& self.verdict() is Ok
                    &&& circle@ == self.described(circle@.id, circle@.owner.id)
                    &&& circle@.id.len() == 36
                    &&& circle@.owner.id.len() == 36
                    &&& circle@.well_formed()
                },
                Err(e) => self.verdict() == Err::<(), UsecaseError>(e),
            },
    {
        self.into_circle_with_ids(CircleId::gen(), MemberId::gen())
    }

    /// The circle that the input describes, under the given identifiers
    /// for the circle and its owner.
    pub fn into_circle_with_ids(self, circle_id: CircleId, owner_id: MemberId) -> (built: Result<
        Circle,
        UsecaseError,
    >)
        ensures
            match built {
                Ok(circle) => {
                    &&& self.verdict() is Ok
                    &&& circle@ == self.described(circle_id@, owner_id@)
                    &&& circle@.well_formed()
                },
                Err(e) => self.verdict() == Err::<(), UsecaseError>(e),
            },
    {
        let grade = match Grade::from_code(self.owner_grade) {
            Ok(grade) => grade,
            Err(e) => { return Err(UsecaseError::Decode(e)); },
        };
        let major = Major::from_text(self.owner_major.as_str());
        let owner = Member::reconstruct(owner_id, self.owner_name, self.owner_age, grade, major);
        match Circle::create_with_id(circle_id, self.circle_name, owner, self.capacity) {
            Ok(circle) => Ok(circle),
            Err(e) => Err(UsecaseError::Validation(e)),
        }
    }
}

impl CreateCircleOutput {
    /// The identifiers of `circle` and of its owner.
    pub fn from_circle(circle: &Circle) -> (output: CreateCircleOutput)
        ensures
            output.circle_id@ == circle@.id,
            output.owner_id@ == circle@.owner.id,
    {
        CreateCircleOutput {
            circle_id: circle.id.to_string(),
            owner_id: circle.owner.id.to_string(),
        }
    }
}

/// Where the creation of a circle stands: what is to be asked next, or the
/// outcome once nothing is left to ask.
#[derive(Debug, PartialEq, Eq)]
pub enum CreateCircleStep {
    /// The guard is to be asked whether the name of this circle is free.
    CheckName(Circle),
    /// The repository is to be asked to store this circle.
    Store(Circle),
    /// Nothing is left to ask: this is the outcome.
    Done(Result<CreateCircleOutput, UsecaseError>),
}

/// What a collaborator answered to the question of a step.
#[derive(Debug, PartialEq, Eq)]
pub enum CreateCircleAnswer {
    /// The guard's answer on the name.
    Checked(Result<(), DuplicateCheckError>),
    /// The repository's answer on storing the circle.
    Stored(Result<(), RepositoryError>),
}

impl CreateCircleStep {
    /// The first step for `input`: the guard is asked about the circle that
    /// the input describes, built with fresh identifiers of 36 letters and
    /// digits; an input that describes no circle ends the use case at once.
    pub fn start(input: CreateCircleInput) -> (step: CreateCircleStep)
        ensures
            match step {
                CreateCircleStep::CheckName(circle) => {
                    &&& input.verdict() is Ok
                    &&& circle@ == input.described(circle@.id, circle@.owner.id)
                    &&& circle@.id.len() == 36
                    &&& circle@.owner.id.len() == 36
                    &&& circle@.well_formed()
                },
                CreateCircleStep::Done(outcome) => outcome is Err && input.verdict() == Err::<
                    (),
                    UsecaseError,
                >(outcome->Err_0),
                CreateCircleStep::Store(_) => false,
            },
    {
        match input.into_circle() {
            Ok(circle) => CreateCircleStep::CheckName(circle),
            Err(e) => CreateCircleStep::Done(Err(e)),
        }
    }

    /// The step after `answer`. A name that passed the guard leads to
    /// storing the circle, and a circle that was stored to the identifiers of
    /// the circle and its owner; a failure of guard or repository ends the
    /// use case with that failure. An answer to a question that the step did
    /// not ask changes nothing.
    pub fn next(self, answer: CreateCircleAnswer) -> (step: CreateCircleStep)
        ensures
            match (self, answer) {
                (CreateCircleStep::CheckName(circle), CreateCircleAnswer::Checked(Ok(()))) => step
                    == CreateCircleStep::Store(circle),
                (CreateCircleStep::CheckName(_), CreateCircleAnswer::Checked(Err(e))) => step
                    == CreateCircleStep::Done(Err(UsecaseError::Duplicate(e))),
                (CreateCircleStep::Store(circle), CreateCircleAnswer::Stored(Ok(()))) => {
                    &&& step matches CreateCircleStep::Done(Ok(made))
                    &&& made.circle_id@ == circle@.id
                    &&& made.owner_id@ == circle@.owner.id
                },
                (CreateCircleStep::Store(_), CreateCircleAnswer::Stored(Err(e))) => step
                    == CreateCircleStep::Done(Err(UsecaseError::Repository(e))),
                _ => step == self,
            },
    {
        match self {
            CreateCircleStep::CheckName(circle) => match answer {
                CreateCircleAnswer::Checked(Ok(())) => CreateCircleStep::Store(circle),
                CreateCircleAnswer::Checked(Err(e)) => CreateCircleStep::Done(
                    Err(UsecaseError::Duplicate(e)),
                ),
                CreateCircleAnswer::Stored(_) => CreateCircleStep::CheckName(circle),
            },
            CreateCircleStep::Store(circle) => match answer {
                CreateCircleAnswer::Stored(Ok(())) => CreateCircleStep::Done(
                    Ok(CreateCircleOutput::from_circle(&circle)),
                ),
                CreateCircleAnswer::Stored(Err(e)) => CreateCircleStep::Done(
                    Err(UsecaseError::Repository(e)),
                ),
                CreateCircleAnswer::Checked(_) => CreateCircleStep::Store(circle),
            },
            CreateCircleStep::Done(outcome) => CreateCircleStep::Done(outcome),
        }
    }

    /// How many questions are left to ask from this step on, at most.
    pub open spec fn questions_left(self) -> nat {
        match self {
            CreateCircleStep::CheckName(_) => 2,
            CreateCircleStep::Store(_) => 1,
            CreateCircleStep::Done(_) => 0,
        }
    }
}

/// Whether `output` accounts for what creating a circle from `input` did,
/// where the guard saw the names `names` and the repository held `before`
/// at the start and holds `after` at the end. The first step that failed
/// gives the failure, and nothing was stored unless the repository said so
/// or its storage failed.
pub open spec fn creation_accounts_for(
    input: CreateCircleInput,
    names: Set<Seq<char>>,
    before: Stored,
    after: Stored,
    output: Result<CreateCircleOutput, UsecaseError>,
) -> bool {
    match output {
        Ok(made) => {
            &&& input.verdict() is Ok
            &&& !names.contains(input.circle_name@)
            &&& created(before, input.described(made.circle_id@, made.owner_id@)) == Ok::<
                Stored,
                RepositoryError,
            >(after)
            &&& made.circle_id@.len() == 36
            &&& made.owner_id@.len() == 36
        },
        Err(UsecaseError::Duplicate(e)) => {
            &&& input.verdict() is Ok
            &&& after == before
            &&& e is StorageError || (e is DuplicateName && names.contains(input.circle_name@))
        },
        Err(UsecaseError::Repository(e)) => {
            &&& input.verdict() is Ok
            &&& !names.contains(input.circle_name@)
            &&& e is StorageError || (e is AlreadyExists && after == before)
        },
        Err(e) => {
            &&& input.verdict() == Err::<(), UsecaseError>(e)
            &&& after == before
        },
    }
}

/// Creates circles in a repository, behind a name guard.
pub struct CreateCircleUsecase<T: CircleRepositoryInterface, U: CircleDuplicateCheckerInterface> {
    pub circle_repository: T,
    pub circle_duplicate_checker: U,
}

impl<T: CircleRepositoryInterface, U: CircleDuplicateCheckerInterface> CreateCircleUsecase<T, U> {
    /// The use case over the given repository and guard.
    pub fn new(circle_repository: T, circle_duplicate_checker: U) -> (usecase: Self)
        ensures
            usecase.circle_repository == circle_repository,
            usecase.circle_duplicate_checker == circle_duplicate_checker,
    {
        CreateCircleUsecase { circle_repository, circle_duplicate_checker }
    }

    /// Builds the circle that `input` describes, asks the guard whether its
    /// name is free, and stores it. The first step that fails stops the
    /// use case, and nothing is stored unless the repository says so. Guard
    /// and repository are asked one after the other, with nothing that holds
    /// the name in between.
    pub fn execute(&mut self, input: CreateCircleInput) -> (output: Result<
        CreateCircleOutput,
        UsecaseError,
    >)
        ensures
            final(self).circle_duplicate_checker == old(self).circle_duplicate_checker,
            creation_accounts_for(
                input,
                old(self).circle_duplicate_checker.names(),
                old(self).circle_repository.circles(),
                final(self).circle_repository.circles(),
                output,
            ),
    {
        let ghost names = self.circle_duplicate_checker.names();
        let ghost before = self.circle_repository.circles();
        let mut step = CreateCircleStep::start(input);
        loop
            invariant
                self.circle_duplicate_checker == old(self).circle_duplicate_checker,
                names == old(self).circle_duplicate_checker.names(),
                before == old(self).circle_repository.circles(),
                match step {
                    CreateCircleStep::CheckName(circle) => {
                        &&& input.verdict() is Ok
                        &&& circle@ == input.described(circle@.id, circle@.owner.id)
                        &&& circle@.id.len() == 36
                        &&& circle@.owner.id.len() == 36
                        &&& self.circle_repository.circles() == before
                    },
                    CreateCircleStep::Store(circle) => {
                        &&& input.verdict() is Ok
                        &&& circle@ == input.described(circle@.id, circle@.owner.id)
                        &&& circle@.id.len() == 36
                        &&& circle@.owner.id.len() == 36
                        &&& self.circle_repository.circles() == before
                        &&& !names.contains(input.circle_name@)
                    },
                    CreateCircleStep::Done(outcome) => creation_accounts_for(
                        input,
                        names,
                        before,
                        self.circle_repository.circles(),
                        outcome,
                    ),
                },
            decreases step.questions_left(),
        {
            step = match step {
                CreateCircleStep::CheckName(circle) => {
                    let checked = self.circle_duplicate_checker.check_circle_duplicate(&circle);
                    CreateCircleStep::CheckName(circle).next(CreateCircleAnswer::Checked(checked))
                },
                CreateCircleStep::Store(circle) => {
                    let stored = self.circle_repository.create(&circle);
                    CreateCircleStep::Store(circle).next(CreateCircleAnswer::Stored(stored))
                },
                CreateCircleStep::Done(outcome) => {
                    return outcome;
                },
            };
        }
    }
}

} // verus!
