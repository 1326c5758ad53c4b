//! The failures that the circle rules and their collaborators report.
use vstd::prelude::*;

verus! {

/// Why a circle could not be created.
#[derive(Clone, Copy, Debug, PartialEq, Eq, Structural)]
pub enum ValidationError {
    /// The owner is not a third-grade member.
    InvalidOwnerGrade,
    /// The capacity is below the minimum.
    InvalidCapacity,
}

impl ValidationError {
    /// The message of this failure as a sequence of characters.
    pub open spec fn message(self) -> Seq<char> {
        match self {
            ValidationError::InvalidOwnerGrade => "Owner must be 3rd grade"@,
            ValidationError::InvalidCapacity => "Capacity must be at least 1"@,
        }
    }

    /// The message of this failure.
    pub fn to_string(&self) -> (text: String)
        ensures
            text@ == self.message(),
    {
        match self {
            ValidationError::InvalidOwnerGrade => "Owner must be 3rd grade".to_owned(),
            ValidationError::InvalidCapacity => "Capacity must be at least 1".to_owned(),
        }
    }
}

/// Why a membership change was refused.
#[derive(Clone, Copy, Debug, PartialEq, Eq, Structural)]
pub enum MembershipError {
    /// Owner and members already fill the capacity.
    CircleFull,
    /// A fourth-grade member cannot join.
    GraduatingMemberRejected,
    /// The owner cannot be removed.
    OwnerRemovalForbidden,
    /// No member has the given identifier.
    MemberNotFound,
}

impl MembershipError {
    /// The message of this failure as a sequence of characters.
    pub open spec fn message(self) -> Seq<char> {
        match self {
            MembershipError::CircleFull => "Circle member is full"@,
            MembershipError::GraduatingMemberRejected => "4th grade can't join circle"@,
            MembershipError::OwnerRemovalForbidden => "Owner can't be removed"@,
            MembershipError::MemberNotFound => "Member not found in circle"@,
        }
    }

    /// The message of this failure.
    pub fn to_string(&self) -> (text: String)
        ensures
            text@ == self.message(),
    {
        match self {
            MembershipError::CircleFull => "Circle member is full".to_owned(),
            MembershipError::GraduatingMemberRejected => "4th grade can't join circle".to_owned(),
            MembershipError::OwnerRemovalForbidden => "Owner can't be removed".to_owned(),
            MembershipError::MemberNotFound => "Member not found in circle".to_owned(),
        }
    }
}

/// A grade code outside 1 to 4.
#[derive(Clone, Copy, Debug, PartialEq, Eq, Structural)]
pub struct DecodeError {
    /// The code that names no grade.
    pub code: i16,
}

impl DecodeError {
    /// The message of this failure.
    pub fn to_string(&self) -> (text: String)
        ensures
            text@ == "error"@,
    {
        "error".to_owned()
    }
}

/// A text that is no identifier. Identifiers are opaque, so every text is
/// one today and parsing never reports this failure.
#[derive(Clone, Copy, Debug, PartialEq, Eq, Structural)]
pub enum ParseError {
    /// The text cannot stand for an identifier.
    Malformed,
}

/// Why a store of circles could not do what it was asked.
#[derive(Debug, PartialEq, Eq)]
pub enum RepositoryError {
    /// No circle with the identifier is stored.
    NotFound,
    /// A circle with the identifier is stored already.
    AlreadyExists,
    /// The storage behind the repository failed; the text says how.
    StorageError(String),
}

impl RepositoryError {
    /// The message of this failure as a sequence of characters.
    pub open spec fn message(self) -> Seq<char> {
        match self {
            RepositoryError::NotFound => "Circle not found"@,
            RepositoryError::AlreadyExists => "Circle already exists"@,
            RepositoryError::StorageError(reason) => reason@,
        }
    }

    /// The message of this failure.
    pub fn to_string(&self) -> (text: String)
        ensures
            text@ == self.message(),
    {
        match self {
            RepositoryError::NotFound => "Circle not found".to_owned(),
            RepositoryError::AlreadyExists => "Circle already exists".to_owned(),
            RepositoryError::StorageError(reason) => reason.clone(),
        }
    }
}

/// Why the name guard did not let a circle pass.
#[derive(Debug, PartialEq, Eq)]
pub enum DuplicateCheckError {
    /// A stored circle has the same name.
    DuplicateName,
    /// The storage behind the guard failed; the text says how.
    StorageError(String),
}

impl DuplicateCheckError {
    /// The message of this failure as a sequence of characters.
    pub open spec fn message(self) -> Seq<char> {
        match self {
            DuplicateCheckError::DuplicateName => "Circle name already exists"@,
            DuplicateCheckError::StorageError(reason) => reason@,
        }
    }

    /// The message of this failure.
    pub fn to_string(&self) -> (text: String)
        ensures
            text@ == self.message(),
    {
        match self {
            DuplicateCheckError::DuplicateName => "Circle name already exists".to_owned(),
            DuplicateCheckError::StorageError(reason) => reason.clone(),
        }
    }
}

/// Why a use case did not run to its end: the failure of the step that
/// stopped it, as that step reported it.
#[derive(Debug, PartialEq, Eq)]
pub enum UsecaseError {
    /// The grade code of the input names no grade.
    Decode(DecodeError),
    /// The circle rules refuse the input.
    Validation(ValidationError),
    /// The name guard did not pass.
    Duplicate(DuplicateCheckError),
    /// The repository reported a failure.
    Repository(RepositoryError),
}

impl UsecaseError {
    /// The message of the failure that stopped the use case.
    pub fn to_string(&self) -> (text: String)
        ensures
            text@ == (match *self {
                UsecaseError::Decode(e) => "error"@,
                UsecaseError::Validation(e) => e.message(),
                UsecaseError::Duplicate(e) => e.message(),
                UsecaseError::Repository(e) => e.message(),
            }),
    {
        match self {
            UsecaseError::Decode(e) => e.to_string(),
            UsecaseError::Validation(e) => e.to_string(),
            UsecaseError::Duplicate(e) => e.to_string(),
            UsecaseError::Repository(e) => e.to_string(),
        }
    }
}

/// Why the in-memory store refused an operation.
#[derive(Clone, Copy, Debug, PartialEq, Eq, Structural)]
pub enum DbError {
    /// The store holds nothing under the key.
    KeyNotFound,
}

impl DbError {
    /// The message of this failure.
    pub fn to_string(&self) -> (text: String)
        ensures
            text@ == "Key not found in database"@,
    {
        "Key not found in database".to_owned()
    }
}

} // verus!
