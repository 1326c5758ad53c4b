//! The identifier of a member.
use vstd::prelude::*;
use vstd::std_specs::cmp::PartialEqSpecImpl;
use vstd::std_specs::convert::FromSpecImpl;
use crate::error::ParseError;
use crate::text::{all_alphanumeric, decimal_text, i16_to_text, random_alphanumeric};

verus! {

/// An opaque identifier of a member, held as text.
#[derive(Debug, Hash)]
pub struct MemberId(String);

impl View for MemberId {
    type V = Seq<char>;

    closed spec fn view(&self) -> Seq<char> {
        self.0@
    }
}

impl MemberId {
    /// A fresh identifier: 36 random ASCII letters and digits.
    pub fn gen() -> (id: MemberId)
        ensures
            id@.len() == 36,
            all_alphanumeric(id@),
    {
        MemberId(random_alphanumeric(36))
    }

    /// What parsing a text gives: every text stands for the identifier with
    /// its characters.
    pub open spec fn parse_spec(text: Seq<char>) -> Result<Seq<char>, ParseError> {
        Ok(text)
    }

    /// The identifier that a text stands for. Every text stands for one.
    pub fn from_str(s: &str) -> (parsed: Result<MemberId, ParseError>)
        ensures
            parsed is Ok,
            MemberId::parse_spec(s@) == Ok::<Seq<char>, ParseError>(parsed->Ok_0@),
    {
        Ok(MemberId(s.to_owned()))
    }

    /// The text of this identifier.
    pub fn to_string(&self) -> (text: String)
        ensures
            text@ == self@,
    {
        self.0.clone()
    }
}

/// Parsing the text of an identifier gives the identifier back.
pub proof fn lemma_member_id_round_trip(id: MemberId)
    ensures
        MemberId::parse_spec(id@) == Ok::<Seq<char>, ParseError>(id@),
{
}

impl Clone for MemberId {
    fn clone(&self) -> (copy: MemberId)
        ensures
            copy == *self,
    {
        MemberId(self.0.clone())
    }
}

impl PartialEq for MemberId {
    fn eq(&self, other: &MemberId) -> (same: bool) {
        self.0 == other.0
    }
}

impl PartialEqSpecImpl for MemberId {
    open spec fn obeys_eq_spec() -> bool {
        true
    }

    open spec fn eq_spec(&self, other: &MemberId) -> bool {
        self@ == other@
    }
}

impl Eq for MemberId {

}

impl From<i16> for MemberId {
    fn from(id: i16) -> (made: MemberId)
        ensures
            made@ == decimal_text(id as int),
    {
        MemberId(i16_to_text(id))
    }
}

impl FromSpecImpl<i16> for MemberId {
    open spec fn obeys_from_spec() -> bool {
        false
    }

    open spec fn from_spec(id: i16) -> MemberId {
        arbitrary()
    }
}

impl From<MemberId> for String {
    fn from(member_id: MemberId) -> (text: String)
        ensures
            text@ == member_id@,
    {
        member_id.0
    }
}

impl FromSpecImpl<MemberId> for String {
    open spec fn obeys_from_spec() -> bool {
        false
    }

    open spec fn from_spec(member_id: MemberId) -> String {
        arbitrary()
    }
}

} // verus!
