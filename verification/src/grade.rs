//! The academic grade of a member.
use vstd::prelude::*;
use vstd::std_specs::convert::FromSpecImpl;
use vstd::std_specs::convert::TryFromSpecImpl;
use crate::error::DecodeError;

verus! {

/// The four grades, from the first year to the graduating year.
#[derive(Copy, Clone, Debug, PartialEq, Eq, Hash, Structural)]
pub enum Grade {
    First,
    Second,
    Third,
    Fourth,
}

impl Grade {
    /// The integer code of a grade: 1 for the first up to 4 for the fourth.
    pub open spec fn code(self) -> int {
        match self {
            Grade::First => 1,
            Grade::Second => 2,
            Grade::Third => 3,
            Grade::Fourth => 4,
        }
    }

    /// The grade that a code stands for, if it stands for one.
    pub open spec fn decode(code: int) -> Option<Grade> {
        if code == 1 {
            Some(Grade::First)
        } else if code == 2 {
            Some(Grade::Second)
        } else if code == 3 {
            Some(Grade::Third)
        } else if code == 4 {
            Some(Grade::Fourth)
        } else {
            None
        }
    }

    /// What `from_code` returns for a code.
    pub open spec fn from_code_spec(code: i16) -> Result<Grade, DecodeError> {
        match Grade::decode(code as int) {
            Some(grade) => Ok(grade),
            None => Err(DecodeError { code }),
        }
    }

    /// The code of this grade.
    pub fn to_code(self) -> (code: i16)
        ensures
            code == self.code(),
    {
        match self {
            Grade::First => 1,
            Grade::Second => 2,
            Grade::Third => 3,
            Grade::Fourth => 4,
        }
    }

    /// The grade of a code; any code but 1 to 4 is an error that carries it.
    pub fn from_code(code: i16) -> (decoded: Result<Grade, DecodeError>)
        ensures
            decoded == Grade::from_code_spec(code),
    {
        if code == 1 {
            Ok(Grade::First)
        } else if code == 2 {
            Ok(Grade::Second)
        } else if code == 3 {
            Ok(Grade::Third)
        } else if code == 4 {
            Ok(Grade::Fourth)
        } else {
            Err(DecodeError { code })
        }
    }
}

impl From<Grade> for i16 {
    fn from(value: Grade) -> (code: i16) {
        value.to_code()
    }
}

impl FromSpecImpl<Grade> for i16 {
    open spec fn obeys_from_spec() -> bool {
        true
    }

    open spec fn from_spec(value: Grade) -> i16 {
        value.code() as i16
    }
}

impl TryFrom<i16> for Grade {
    type Error = DecodeError;

    fn try_from(value: i16) -> (decoded: Result<Grade, DecodeError>) {
        Grade::from_code(value)
    }
}

impl TryFromSpecImpl<i16> for Grade {
    open spec fn obeys_try_from_spec() -> bool {
        true
    }

    open spec fn try_from_spec(value: i16) -> Result<Grade, DecodeError> {
        Grade::from_code_spec(value)
    }
}

/// Decoding the code of a grade gives the grade back.
pub proof fn lemma_decode_of_code(grade: Grade)
    ensures
        Grade::decode(grade.code()) == Some(grade),
        1 <= grade.code() <= 4,
{
}

/// A code from 1 to 4 decodes to a grade with that code; any other code
/// decodes to nothing.
pub proof fn lemma_code_of_decode(code: i16)
    ensures
        1 <= code <= 4 ==> Grade::from_code_spec(code) is Ok && Grade::from_code_spec(
            code,
        )->Ok_0.code() == code,
        !(1 <= code <= 4) ==> Grade::from_code_spec(code) == Err::<Grade, DecodeError>(
            DecodeError { code },
        ),
{
}

} // verus!
