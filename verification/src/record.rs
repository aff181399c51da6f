//! What is recorded for a change notification: only changes to flags are, as
//! one event posted to the events endpoint.

use crate::event::{built, event, BuildError, Event, EventView};
use crate::payload::{Payload, PayloadView};
use vstd::prelude::*;
use vstd::string::*;

verus! {

/// An event on its way to the events endpoint.
#[derive(Debug, Clone, PartialEq, Eq)]
pub struct Post {
    /// Where to post the event; the address carries the API key.
    pub url: String,
    /// The document to post.
    pub event: Event,
}

pub struct PostView {
    pub url: Seq<char>,
    pub event: EventView,
}

impl View for Post {
    type V = PostView;

    open spec fn view(&self) -> PostView {
        PostView { url: self.url@, event: self.event@ }
    }
}

/// The address of the events endpoint for the holder of `api_key`.
pub open spec fn events_url(api_key: Seq<char>) -> Seq<char> {
    "https://app.datadoghq.com/api/v1/events?api_key="@ + api_key
}

/// Whether the payload tells of a change to a flag.
pub open spec fn is_flag(p: PayloadView) -> bool {
    p.kind == "flag"@
}

/// What recording a payload comes to: nothing for a change to anything but a
/// flag, else the event at the address to post it to, or the reason why no
/// event could be built.
pub open spec fn recorded(p: PayloadView, api_key: Seq<char>) -> Result<Option<PostView>, BuildError> {
    if !is_flag(p) {
        Ok(None)
    } else {
        match built(p) {
            Ok(e) => Ok(Some(PostView { url: events_url(api_key), event: e })),
            Err(err) => Err(err),
        }
    }
}

/// Decides what to send for a change notification.
///
/// A payload of any kind but `flag` is never sent anywhere, whatever else it
/// holds. Sending is left to the caller, who may ignore its outcome.
pub fn record(payload: Payload, dd_api_key: &str) -> (res: Result<Option<Post>, BuildError>)
    ensures
        match res {
            Ok(Some(post)) => recorded(payload@, dd_api_key@) == Ok::<Option<PostView>, BuildError>(
                Some(post@),
            ),
            Ok(None) => recorded(payload@, dd_api_key@) == Ok::<Option<PostView>, BuildError>(None),
            Err(err) => recorded(payload@, dd_api_key@) == Err::<Option<PostView>, BuildError>(err),
        },
        !is_flag(payload@) ==> res is Ok && res->Ok_0 is None,
{
    let flag = String::from_str("flag");
    if payload.kind != flag {
        return Ok(None);
    }
    match event(payload) {
        Ok(e) => {
            let mut url = String::from_str("https://app.datadoghq.com/api/v1/events?api_key=");
            url.append(dd_api_key);
            Ok(Some(Post { url, event: e }))
        },
        Err(err) => Err(err),
    }
}

} // verus!
