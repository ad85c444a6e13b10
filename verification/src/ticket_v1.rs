//! The early, string-only ticket model: a title, a description and a
//! free-form status drawn from three fixed words.
//!
//! This model predates the validated value types of [`crate::data`];
//! it keeps its fields private and only admits values its constructor
//! accepts.

use vstd::prelude::*;

verus! {

/// Whether `s` is an acceptable early-model title.
pub open spec fn v1_title_valid(s: Seq<char>) -> bool {
    1 <= s.len() <= 50
}

/// Whether `s` is an acceptable early-model description.
pub open spec fn v1_description_valid(s: Seq<char>) -> bool {
    1 <= s.len() <= 500
}

/// Whether `s` is one of the three early-model status words.
pub open spec fn v1_status_valid(s: Seq<char>) -> bool {
    s == "To-Do"@ || s == "In Progress"@ || s == "Done"@
}

/// A ticket of the early, string-only model.
#[derive(Debug, PartialEq, Eq)]
pub struct Ticket {
    title: String,
    description: String,
    status: String,
}

impl Ticket {
    /// The title's characters.
    pub closed spec fn spec_title(&self) -> Seq<char> {
        self.title@
    }

    /// The description's characters.
    pub closed spec fn spec_description(&self) -> Seq<char> {
        self.description@
    }

    /// The status word's characters.
    pub closed spec fn spec_status(&self) -> Seq<char> {
        self.status@
    }

    /// Builds a ticket from a non-empty title of at most 50
    /// characters, a non-empty description of at most 500 characters,
    /// and one of the statuses `To-Do`, `In Progress` and `Done`.
    pub fn new(title: String, description: String, status: String) -> (t: Ticket)
        requires
            v1_title_valid(title@),
            v1_description_valid(description@),
            v1_status_valid(status@),
        ensures
            t.spec_title() == title@,
            t.spec_description() == description@,
            t.spec_status() == status@,
    {
        Ticket { title, description, status }
    }

    /// A copy of the title.
    pub fn title(&self) -> (r: String)
        ensures
            r@ == self.spec_title(),
    {
        self.title.clone()
    }

    /// A copy of the description.
    pub fn description(&self) -> (r: String)
        ensures
            r@ == self.spec_description(),
    {
        self.description.clone()
    }

    /// A copy of the status word.
    pub fn status(&self) -> (r: String)
        ensures
            r@ == self.spec_status(),
    {
        self.status.clone()
    }
}

} // verus!
