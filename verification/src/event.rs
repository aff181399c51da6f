//! The event that is recorded for a change notification.

use crate::payload::{Payload, PayloadView};
use vstd::prelude::*;
use vstd::string::*;

verus! {

/// An event in the shape that the events endpoint takes.
#[derive(Debug, Clone, PartialEq, Eq)]
pub struct Event {
    pub title: String,
    pub text: String,
    pub tags: Vec<String>,
    pub source_type_name: String,
}

pub struct EventView {
    pub title: Seq<char>,
    pub text: Seq<char>,
    pub tags: Seq<Seq<char>>,
    pub source_type_name: Seq<char>,
}

impl View for Event {
    type V = EventView;

    open spec fn view(&self) -> EventView {
        EventView {
            title: self.title@,
            text: self.text@,
            tags: Seq::new(self.tags@.len(), |i: int| self.tags@[i]@),
            source_type_name: self.source_type_name@,
        }
    }
}

/// Why no event could be built from a payload.
#[derive(Debug, Clone, Copy, PartialEq, Eq, Structural)]
pub enum BuildError {
    /// The payload holds no access, so there is no action to tag the event with.
    MissingAccess,
}

impl BuildError {
    /// The error in words.
    pub fn message(&self) -> (text: String)
        ensures
            text@ == "missing access entry"@,
    {
        match self {
            BuildError::MissingAccess => String::from_str("missing access entry"),
        }
    }
}

/// The title of the event: who did what to which thing, joined by single
/// spaces.
pub open spec fn title_of(p: PayloadView) -> Seq<char> {
    p.member.first_name + " "@ + p.member.last_name + " "@ + p.title_verb + " "@ + p.name
}

/// The three tags of the event, in their order. Of the accesses only the first
/// is read.
pub open spec fn tags_of(p: PayloadView) -> Seq<Seq<char>>
    recommends
        p.accesses.len() > 0,
{
    seq!["kind:"@ + p.kind, "name:"@ + p.name, "action:"@ + p.accesses[0].action]
}

/// The event that stands for a payload with at least one access.
pub open spec fn event_of(p: PayloadView) -> EventView
    recommends
        p.accesses.len() > 0,
{
    EventView {
        title: title_of(p),
        text: p.description,
        tags: tags_of(p),
        source_type_name: "launch-darkly"@,
    }
}

/// What building an event from a payload gives.
pub open spec fn built(p: PayloadView) -> Result<EventView, BuildError> {
    if p.accesses.len() == 0 {
        Err(BuildError::MissingAccess)
    } else {
        Ok(event_of(p))
    }
}

/// Builds the event for a change notification.
///
/// A payload without accesses is an error, and any other payload gives
/// exactly one event: the result depends on the payload alone.
pub fn event(payload: Payload) -> (res: Result<Event, BuildError>)
    ensures
        match res {
            Ok(e) => built(payload@) == Ok::<EventView, BuildError>(e@),
            Err(err) => built(payload@) == Err::<EventView, BuildError>(err),
        },
{
    if payload.accesses.len() == 0 {
        return Err(BuildError::MissingAccess);
    }
    let mut title = payload.member.first_name;
    title.append(" ");
    title.append(payload.member.last_name.as_str());
    title.append(" ");
    title.append(payload.title_verb.as_str());
    title.append(" ");
    title.append(payload.name.as_str());

    let mut kind_tag = String::from_str("kind:");
    kind_tag.append(payload.kind.as_str());
    let mut name_tag = String::from_str("name:");
    name_tag.append(payload.name.as_str());
    let mut action_tag = String::from_str("action:");
    action_tag.append(payload.accesses[0].action.as_str());

    let mut tags: Vec<String> = Vec::new();
    tags.push(kind_tag);
    tags.push(name_tag);
    tags.push(action_tag);

    let event = Event {
        title,
        text: payload.description,
        tags,
        source_type_name: String::from_str("launch-darkly"),
    };
    assert(event@.tags =~= tags_of(payload@));
    Ok(event)
}

/// Building is a function of what the payload holds: two payloads that read
/// the same give the same event, or fail alike.
pub proof fn lemma_event_is_deterministic(p: Payload, q: Payload)
    requires
        p@ == q@,
    ensures
        built(p@) == built(q@),
{
}

/// Without an access no event is built, and with one an event always is.
pub proof fn lemma_event_needs_an_access(p: Payload)
    ensures
        p.accesses@.len() == 0 <==> built(p@) == Err::<EventView, BuildError>(
            BuildError::MissingAccess,
        ),
        p.accesses@.len() > 0 <==> built(p@) is Ok,
{
}

} // verus!
