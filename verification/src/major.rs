//! The field of study of a member.
use vstd::prelude::*;
use vstd::std_specs::convert::FromSpecImpl;
use crate::text::text_eq;

verus! {

/// The known fields of study, and `Other` for every other one.
#[derive(Clone, Copy, Debug, PartialEq, Eq, Structural)]
pub enum Major {
    ComputerScience,
    Economics,
    Law,
    Art,
    Music,
    Other,
}

impl Major {
    /// The name of a major.
    pub open spec fn text(self) -> Seq<char> {
        match self {
            Major::ComputerScience => "ComputerScience"@,
            Major::Economics => "Economics"@,
            Major::Law => "Law"@,
            Major::Art => "Art"@,
            Major::Music => "Music"@,
            Major::Other => "Other"@,
        }
    }

    /// The major that a text names; a text that names none is `Other`.
    pub open spec fn from_text_spec(text: Seq<char>) -> Major {
        if text == "ComputerScience"@ {
            Major::ComputerScience
        } else if text == "Economics"@ {
            Major::Economics
        } else if text == "Law"@ {
            Major::Law
        } else if text == "Art"@ {
            Major::Art
        } else if text == "Music"@ {
            Major::Music
        } else {
            Major::Other
        }
    }

    /// The major that `text` names, `Other` if it names none.
    pub fn from_text(text: &str) -> (major: Major)
        ensures
            major == Major::from_text_spec(text@),
    {
        if text_eq(text, "ComputerScience") {
            Major::ComputerScience
        } else if text_eq(text, "Economics") {
            Major::Economics
        } else if text_eq(text, "Law") {
            Major::Law
        } else if text_eq(text, "Art") {
            Major::Art
        } else if text_eq(text, "Music") {
            Major::Music
        } else {
            Major::Other
        }
    }

    /// The name of this major.
    pub fn to_text(self) -> (text: String)
        ensures
            text@ == self.text(),
    {
        match self {
            Major::ComputerScience => "ComputerScience".to_owned(),
            Major::Economics => "Economics".to_owned(),
            Major::Law => "Law".to_owned(),
            Major::Art => "Art".to_owned(),
            Major::Music => "Music".to_owned(),
            Major::Other => "Other".to_owned(),
        }
    }
}

impl From<&str> for Major {
    fn from(value: &str) -> (major: Major) {
        Major::from_text(value)
    }
}

impl FromSpecImpl<&str> for Major {
    open spec fn obeys_from_spec() -> bool {
        true
    }

    open spec fn from_spec(value: &str) -> Major {
        Major::from_text_spec(value@)
    }
}

impl From<Major> for String {
    fn from(value: Major) -> (text: String)
        ensures
            text@ == value.text(),
    {
        value.to_text()
    }
}

impl FromSpecImpl<Major> for String {
    open spec fn obeys_from_spec() -> bool {
        false
    }

    open spec fn from_spec(value: Major) -> String {
        arbitrary()
    }
}

/// Reading the name of a major gives the major back.
pub proof fn lemma_major_text_round_trip(major: Major)
    ensures
        Major::from_text_spec(major.text()) == major,
{
    reveal_strlit("ComputerScience");
    reveal_strlit("Economics");
    reveal_strlit("Law");
    reveal_strlit("Art");
    reveal_strlit("Music");
    reveal_strlit("Other");
    assert("ComputerScience"@.len() == 15);
    assert("Economics"@.len() == 9);
    assert("Law"@.len() == 3 && "Law"@[0] == 'L');
    assert("Art"@.len() == 3 && "Art"@[0] == 'A');
    assert("Music"@.len() == 5 && "Music"@[0] == 'M');
    assert("Other"@.len() == 5 && "Other"@[0] == 'O');
}

} // verus!
