//! The change notification that a webhook request carries.

use vstd::prelude::*;

verus! {

/// One action that the change was made through.
#[derive(Debug, Clone, PartialEq, Eq)]
pub struct Access {
    pub action: String,
}

/// Who made the change.
#[derive(Debug, Clone, PartialEq, Eq)]
pub struct Member {
    pub first_name: String,
    pub last_name: String,
}

/// A decoded change notification.
///
/// On the wire the fields are named in camel case: `accesses`, `kind`,
/// `name`, `description`, `titleVerb` and `member` with `firstName` and
/// `lastName`.
#[derive(Debug, Clone, PartialEq, Eq)]
pub struct Payload {
    /// The actions of the change, in the order they were sent. An event can
    /// only be built from a payload that holds at least one.
    pub accesses: Vec<Access>,
    /// What kind of thing was changed: `flag`, `environment`, `project`, ...
    pub kind: String,
    /// The name of the thing that was changed.
    pub name: String,
    /// A summary of the change for people to read; it may hold markup.
    pub description: String,
    /// What was done, as a fragment of a sentence: `changed the name of`.
    pub title_verb: String,
    pub member: Member,
}

pub struct AccessView {
    pub action: Seq<char>,
}

pub struct MemberView {
    pub first_name: Seq<char>,
    pub last_name: Seq<char>,
}

pub struct PayloadView {
    pub accesses: Seq<AccessView>,
    pub kind: Seq<char>,
    pub name: Seq<char>,
    pub description: Seq<char>,
    pub title_verb: Seq<char>,
    pub member: MemberView,
}

impl View for Access {
    type V = AccessView;

    open spec fn view(&self) -> AccessView {
        AccessView { action: self.action@ }
    }
}

impl View for Member {
    type V = MemberView;

    open spec fn view(&self) -> MemberView {
        MemberView { first_name: self.first_name@, last_name: self.last_name@ }
    }
}

impl View for Payload {
    type V = PayloadView;

    open spec fn view(&self) -> PayloadView {
        PayloadView {
            accesses: Seq::new(self.accesses@.len(), |i: int| self.accesses@[i]@),
            kind: self.kind@,
            name: self.name@,
            description: self.description@,
            title_verb: self.title_verb@,
            member: self.member@,
        }
    }
}

} // verus!
