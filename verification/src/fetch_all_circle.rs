//! The use case that reads every circle.
use vstd::prelude::*;
use crate::circle::Circle;
use crate::error::{RepositoryError, UsecaseError};
use crate::interface::{circle_views, listable, lists, CircleRepositoryInterface};

verus! {

/// What the caller gives to read every circle.
#[derive(Debug)]
pub struct FetchAllCircleInput {
    pub id: i16,
}

impl FetchAllCircleInput {
    /// The input with the given number.
    pub fn new(id: i16) -> (input: FetchAllCircleInput)
        ensures
            input.id == id,
    {
        FetchAllCircleInput { id }
    }
}

/// What reading every circle hands out: nothing but that it was done.
#[derive(Debug, PartialEq, Eq)]
pub struct FetchAllCircleOutput {}

impl FetchAllCircleOutput {
    /// What the use case makes of the repository's answer: the empty output
    /// when the circles were read, the repository's failure when they were
    /// not.
    pub fn after_find_all(found: Result<Vec<Circle>, RepositoryError>) -> (output: Result<
        FetchAllCircleOutput,
        UsecaseError,
    >)
        ensures
            match found {
                Ok(_) => output == Ok::<FetchAllCircleOutput, UsecaseError>(
                    FetchAllCircleOutput {  },
                ),
                Err(e) => output == Err::<FetchAllCircleOutput, UsecaseError>(
                    UsecaseError::Repository(e),
                ),
            },
    {
        match found {
            Ok(_) => Ok(FetchAllCircleOutput {  }),
            Err(e) => Err(UsecaseError::Repository(e)),
        }
    }
}

/// Reads every circle of a repository.
pub struct FetchAllCircleUsecase<T: CircleRepositoryInterface> {
    pub circle_repository: T,
}

impl<T: CircleRepositoryInterface> FetchAllCircleUsecase<T> {
    /// The use case over the given repository.
    pub fn new(circle_repository: T) -> (usecase: Self)
        ensures
            usecase.circle_repository == circle_repository,
    {
        FetchAllCircleUsecase { circle_repository }
    }

    /// Asks the repository for every circle. The use case ends well only
    /// when the repository listed what it holds, each circle once and
    /// nothing else; only a failure of its storage stops the use case.
    pub fn execute(&self) -> (output: Result<FetchAllCircleOutput, UsecaseError>)
        ensures
            match output {
                Ok(_) => listable(self.circle_repository.circles()),
                Err(e) => e matches UsecaseError::Repository(reason) && reason is StorageError,
            },
    {
        let found = self.circle_repository.find_all();
        proof {
            if found is Ok {
                assert(lists(circle_views(found->Ok_0@), self.circle_repository.circles()));
            }
        }
        FetchAllCircleOutput::after_find_all(found)
    }
}

} // verus!
