//! The bodies and path parameters of the requests and responses, and how
//! they turn into what the use cases take and give.
use vstd::prelude::*;
use vstd::std_specs::convert::FromSpecImpl;
use crate::create_circle::{CreateCircleInput, CreateCircleOutput};
use crate::fetch_circle::{FetchCircleOutput, MemberOutput};
use crate::update_circle::{UpdateCircleInput, UpdateCircleOutPut};

verus! {

/// The body of a request to create a circle.
#[derive(Debug)]
pub struct CreateCircleRequestBody {
    pub circle_name: String,
    pub capacity: i16,
    pub owner_name: String,
    pub owner_age: i16,
    pub owner_grade: i16,
    pub owner_major: String,
}

impl From<CreateCircleRequestBody> for CreateCircleInput {
    fn from(body: CreateCircleRequestBody) -> (input: CreateCircleInput) {
        CreateCircleInput::new(
            body.circle_name,
            body.capacity,
            body.owner_name,
            body.owner_age,
            body.owner_grade,
            body.owner_major,
        )
    }
}

impl FromSpecImpl<CreateCircleRequestBody> for CreateCircleInput {
    open spec fn obeys_from_spec() -> bool {
        true
    }

    open spec fn from_spec(body: CreateCircleRequestBody) -> CreateCircleInput {
        CreateCircleInput {
            circle_name: body.circle_name,
            capacity: body.capacity,
            owner_name: body.owner_name,
            owner_age: body.owner_age,
            owner_grade: body.owner_grade,
            owner_major: body.owner_major,
        }
    }
}

/// The body of the response to a request that created a circle.
#[derive(Debug)]
pub struct CreateCircleResponseBody {
    pub circle_id: String,
    pub owner_id: String,
}

impl From<CreateCircleOutput> for CreateCircleResponseBody {
    fn from(output: CreateCircleOutput) -> (body: CreateCircleResponseBody) {
        CreateCircleResponseBody { circle_id: output.circle_id, owner_id: output.owner_id }
    }
}

impl FromSpecImpl<CreateCircleOutput> for CreateCircleResponseBody {
    open spec fn obeys_from_spec() -> bool {
        true
    }

    open spec fn from_spec(output: CreateCircleOutput) -> CreateCircleResponseBody {
        CreateCircleResponseBody { circle_id: output.circle_id, owner_id: output.owner_id }
    }
}

/// The path parameter of a request to read a circle.
#[derive(Debug)]
pub struct FetchCircleInputParam {
    pub id: String,
}

/// The body of the response to a request that read a circle.
#[derive(Debug)]
pub struct FetcheCircleResponseBody {
    pub circle_id: String,
    pub circle_name: String,
    pub capacity: i16,
    pub owner: MemberOutput,
    pub members: Vec<MemberOutput>,
}

impl From<FetchCircleOutput> for FetcheCircleResponseBody {
    fn from(output: FetchCircleOutput) -> (body: FetcheCircleResponseBody) {
        FetcheCircleResponseBody {
            circle_id: output.circle_id,
            circle_name: output.circle_name,
            capacity: output.capacity,
            owner: output.owner,
            members: output.members,
        }
    }
}

impl FromSpecImpl<FetchCircleOutput> for FetcheCircleResponseBody {
    open spec fn obeys_from_spec() -> bool {
        true
    }

    open spec fn from_spec(output: FetchCircleOutput) -> FetcheCircleResponseBody {
        FetcheCircleResponseBody {
            circle_id: output.circle_id,
            circle_name: output.circle_name,
            capacity: output.capacity,
            owner: output.owner,
            members: output.members,
        }
    }
}

/// The path parameter of a request to change a circle.
#[derive(Debug)]
pub struct UpdateCircleInputParam {
    pub id: String,
}

/// The body of a request to change a circle.
#[derive(Debug)]
pub struct UpdateCircleRequestBody {
    pub circle_name: Option<String>,
    pub capacity: Option<i16>,
}

impl UpdateCircleRequestBody {
    /// What the use case takes: the body's fields with the identifier of
    /// the path.
    pub fn convert_to_input(self, id: String) -> (input: UpdateCircleInput)
        ensures
            input == (UpdateCircleInput {
                id,
                circle_name: self.circle_name,
                capacity: self.capacity,
            }),
    {
        UpdateCircleInput::new(id, self.circle_name, self.capacity)
    }
}

/// The body of the response to a request that changed a circle.
#[derive(Debug)]
pub struct UpdateCircleResponseBody {
    pub circle_id: String,
}

impl From<UpdateCircleOutPut> for UpdateCircleResponseBody {
    fn from(output: UpdateCircleOutPut) -> (body: UpdateCircleResponseBody) {
        UpdateCircleResponseBody { circle_id: output.circle_id }
    }
}

impl FromSpecImpl<UpdateCircleOutPut> for UpdateCircleResponseBody {
    open spec fn obeys_from_spec() -> bool {
        true
    }

    open spec fn from_spec(output: UpdateCircleOutPut) -> UpdateCircleResponseBody {
        UpdateCircleResponseBody { circle_id: output.circle_id }
    }
}

} // verus!
