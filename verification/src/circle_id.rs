//! The identifier of a circle.
use vstd::prelude::*;
use vstd::std_specs::cmp::PartialEqSpecImpl;
use vstd::std_specs::convert::FromSpecImpl;
use crate::error::ParseError;
use crate::text::{all_alphanumeric, decimal_text, i16_to_text, random_alphanumeric};

verus! {

/// An opaque identifier of a circle, held as text.
#[derive(Debug, Hash)]
pub struct CircleId(String);

impl View for CircleId {
    type V = Seq<char>;

    closed spec fn view(&self) -> Seq<char> {
        self.0@
    }
}

impl CircleId {
    /// A fresh identifier: 36 random ASCII letters and digits.
    pub fn gen() -> (id: CircleId)
        ensures
            id@.len() == 36,
            all_alphanumeric(id@),
    {
        CircleId(random_alphanumeric(36))
    }

    /// What parsing a text gives: every text stands for the identifier with
    /// its characters.
    pub open spec fn parse_spec(text: Seq<char>) -> Result<Seq<char>, ParseError> {
        Ok(text)
    }

    /// The identifier that a text stands for. Every text stands for one.
    pub fn from_str(s: &str) -> (parsed: Result<CircleId, ParseError>)
        ensures
            parsed is Ok,
            CircleId::parse_spec(s@) == Ok::<Seq<char>, ParseError>(parsed->Ok_0@),
    {
        Ok(CircleId(s.to_owned()))
    }

    /// The text of this identifier.
    pub fn to_string(&self) -> (text: String)
        ensures
            text@ == self@,
    {
        self.0.clone()
    }
}

/// Parsing the text of an identifier gives the identifier back.
pub proof fn lemma_circle_id_round_trip(id: CircleId)
    ensures
        CircleId::parse_spec(id@) == Ok::<Seq<char>, ParseError>(id@),
{
}

impl Clone for CircleId {
    fn clone(&self) -> (copy: CircleId)
        ensures
            copy == *self,
    {
        CircleId(self.0.clone())
    }
}

impl PartialEq for CircleId {
    fn eq(&self, other: &CircleId) -> (same: bool) {
        self.0 == other.0
    }
}

impl PartialEqSpecImpl for CircleId {
    open spec fn obeys_eq_spec() -> bool {
        true
    }

    open spec fn eq_spec(&self, other: &CircleId) -> bool {
        self@ == other@
    }
}

impl Eq for CircleId {

}

impl From<i16> for CircleId {
    fn from(id: i16) -> (made: CircleId)
        ensures
            made@ == decimal_text(id as int),
    {
        CircleId(i16_to_text(id))
    }
}

impl FromSpecImpl<i16> for CircleId {
    open spec fn obeys_from_spec() -> bool {
        false
    }

    open spec fn from_spec(id: i16) -> CircleId {
        arbitrary()
    }
}

impl From<CircleId> for String {
    fn from(circle_id: CircleId) -> (text: String)
        ensures
            text@ == circle_id@,
    {
        circle_id.0
    }
}

impl FromSpecImpl<CircleId> for String {
    open spec fn obeys_from_spec() -> bool {
        false
    }

    open spec fn from_spec(circle_id: CircleId) -> String {
        arbitrary()
    }
}

} // verus!
