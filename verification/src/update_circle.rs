//! The use case that renames a circle or changes its capacity.
use vstd::prelude::*;
use crate::circle::{number_of, text_of, Circle, CircleView};
use crate::circle_id::CircleId;
use crate::error::{RepositoryError, UsecaseError};
use crate::interface::{updated, CircleRepositoryInterface, Stored};

verus! {

/// The identifier of the circle to change, and the new name and capacity
/// where one is wanted.
#[derive(Debug)]
pub struct UpdateCircleInput {
    pub id: String,
    pub circle_name: Option<String>,
    pub capacity: Option<i16>,
}

impl UpdateCircleInput {
    /// The input with the given fields.
    pub fn new(id: String, circle_name: Option<String>, capacity: Option<i16>) -> (input:
        UpdateCircleInput)
        ensures
            input == (UpdateCircleInput { id, circle_name, capacity }),
    {
        UpdateCircleInput { id, circle_name, capacity }
    }

    /// The state that `circle` has after the change that the input asks for.
    pub open spec fn applied_to(&self, circle: CircleView) -> CircleView {
        circle.revised(text_of(self.circle_name), number_of(self.capacity))
    }
}

/// The identifier of the circle that was changed.
#[derive(Debug)]
pub struct UpdateCircleOutPut {
    pub circle_id: String,
}

impl UpdateCircleOutPut {
    /// The output with the given identifier.
    pub fn new(circle_id: String) -> (output: UpdateCircleOutPut)
        ensures
            output.circle_id == circle_id,
    {
        UpdateCircleOutPut { circle_id }
    }
}

/// Where the change of a circle stands: what is to be asked next, or the
/// outcome once nothing is left to ask.
#[derive(Debug)]
pub enum UpdateCircleStep {
    /// The repository is to be asked for the circle with this identifier;
    /// the input says what to change in it.
    Find(CircleId, UpdateCircleInput),
    /// The repository is to be asked to store this new state of the circle.
    Store(Circle),
    /// Nothing is left to ask: this is the outcome.
    Done(Result<UpdateCircleOutPut, UsecaseError>),
}

/// What the repository answered to the question of a step.
#[derive(Debug)]
pub enum UpdateCircleAnswer {
    /// The answer on the circle that was asked for.
    Found(Result<Circle, RepositoryError>),
    /// The answer on storing the new state.
    Stored(Result<Circle, RepositoryError>),
}

impl UpdateCircleStep {
    /// The first step for `input`: the repository is asked for the circle
    /// with the identifier of the input.
    pub fn start(input: UpdateCircleInput) -> (step: UpdateCircleStep)
        ensures
            step matches UpdateCircleStep::Find(id, kept) && id@ == input.id@ && kept == input,
    {
        let id = CircleId::from_str(input.id.as_str()).unwrap();
        UpdateCircleStep::Find(id, input)
    }

    /// The step after `answer`. A circle that was found leads to storing it
    /// with the name and the capacity replaced where the input gives one, and
    /// a state that was stored to the circle's identifier; a failure of the
    /// repository ends the use case with that failure. An answer to a
    /// question that the step did not ask changes nothing.
    pub fn next(self, answer: UpdateCircleAnswer) -> (step: UpdateCircleStep)
        ensures
            match (self, answer) {
                (UpdateCircleStep::Find(_, input), UpdateCircleAnswer::Found(Ok(circle))) => {
                    &&& step matches UpdateCircleStep::Store(revised)
                    &&& revised@ == input.applied_to(circle@)
                },
                (UpdateCircleStep::Find(_, _), UpdateCircleAnswer::Found(Err(e))) => step
                    == UpdateCircleStep::Done(Err(UsecaseError::Repository(e))),
                (UpdateCircleStep::Store(circle), UpdateCircleAnswer::Stored(Ok(_))) => {
                    &&& step matches UpdateCircleStep::Done(Ok(changed))
                    &&& changed.circle_id@ == circle@.id
                },
                (UpdateCircleStep::Store(_), UpdateCircleAnswer::Stored(Err(e))) => step
                    == UpdateCircleStep::Done(Err(UsecaseError::Repository(e))),
                _ => step == self,
            },
    {
        match self {
            UpdateCircleStep::Find(id, input) => match answer {
                UpdateCircleAnswer::Found(Ok(circle)) => UpdateCircleStep::Store(
                    circle.update(input.circle_name, input.capacity),
                ),
                UpdateCircleAnswer::Found(Err(e)) => UpdateCircleStep::Done(
                    Err(UsecaseError::Repository(e)),
                ),
                UpdateCircleAnswer::Stored(_) => UpdateCircleStep::Find(id, input),
            },
            UpdateCircleStep::Store(circle) => match answer {
                UpdateCircleAnswer::Stored(Ok(_)) => UpdateCircleStep::Done(
                    Ok(UpdateCircleOutPut::new(String::from(circle.id))),
                ),
                UpdateCircleAnswer::Stored(Err(e)) => UpdateCircleStep::Done(
                    Err(UsecaseError::Repository(e)),
                ),
                UpdateCircleAnswer::Found(_) => UpdateCircleStep::Store(circle),
            },
            UpdateCircleStep::Done(outcome) => UpdateCircleStep::Done(outcome),
        }
    }

    /// How many questions are left to ask from this step on, at most.
    pub open spec fn questions_left(self) -> nat {
        match self {
            UpdateCircleStep::Find(_, _) => 2,
            UpdateCircleStep::Store(_) => 1,
            UpdateCircleStep::Done(_) => 0,
        }
    }
}

/// Whether `output` accounts for what changing a circle as `input` asks
/// did, where the repository held `before` at the start and holds `after` at
/// the end. The circle that is stored under the identifier of the input is
/// stored again with its name and capacity replaced where the input gives
/// one; an identifier that is not stored changes nothing.
pub open spec fn change_accounts_for(
    input: UpdateCircleInput,
    before: Stored,
    after: Stored,
    output: Result<UpdateCircleOutPut, UsecaseError>,
) -> bool {
    match output {
        Ok(changed) => {
            &&& before.contains_key(input.id@)
            &&& changed.circle_id@ == before[input.id@].id
            &&& updated(before, input.applied_to(before[input.id@])) == Ok::<
                Stored,
                RepositoryError,
            >(after)
        },
        Err(UsecaseError::Repository(e)) => e is StorageError || (e is NotFound && after == before),
        Err(_) => false,
    }
}

/// Changes circles of a repository.
pub struct UpdateCircleUsecase<T: CircleRepositoryInterface> {
    pub circle_repository: T,
}

impl<T: CircleRepositoryInterface> UpdateCircleUsecase<T> {
    /// The use case over the given repository.
    pub fn new(circle_repository: T) -> (usecase: Self)
        ensures
            usecase.circle_repository == circle_repository,
    {
        UpdateCircleUsecase { circle_repository }
    }

    /// Reads the circle with the identifier of the input, replaces its name
    /// and capacity where the input gives one, and stores the new state. The
    /// new capacity is not held against the headcount.
    pub fn execute(&mut self, update_circle_input: UpdateCircleInput) -> (output: Result<
        UpdateCircleOutPut,
        UsecaseError,
    >)
        ensures
            change_accounts_for(
                update_circle_input,
                old(self).circle_repository.circles(),
                final(self).circle_repository.circles(),
                output,
            ),
    {
        let ghost before = self.circle_repository.circles();
        let mut step = UpdateCircleStep::start(update_circle_input);
        loop
            invariant
                before == old(self).circle_repository.circles(),
                match step {
                    UpdateCircleStep::Find(id, input) => {
                        &&& id@ == update_circle_input.id@
                        &&& input == update_circle_input
                        &&& self.circle_repository.circles() == before
                    },
                    UpdateCircleStep::Store(circle) => {
                        &&& before.contains_key(update_circle_input.id@)
                        &&& circle@ == update_circle_input.applied_to(
                            before[update_circle_input.id@],
                        )
                        &&& self.circle_repository.circles() == before
                    },
                    UpdateCircleStep::Done(outcome) => change_accounts_for(
                        update_circle_input,
                        before,
                        self.circle_repository.circles(),
                        outcome,
                    ),
                },
            decreases step.questions_left(),
        {
            step = match step {
                UpdateCircleStep::Find(circle_id, input) => {
                    let found = self.circle_repository.find_by_id(&circle_id);
                    UpdateCircleStep::Find(circle_id, input).next(UpdateCircleAnswer::Found(found))
                },
                UpdateCircleStep::Store(circle) => {
                    let stored = self.circle_repository.update(&circle);
                    UpdateCircleStep::Store(circle).next(UpdateCircleAnswer::Stored(stored))
                },
                UpdateCircleStep::Done(outcome) => {
                    return outcome;
                },
            };
        }
    }
}

} // verus!
