//! The course of one webhook request, as a machine that decides and leaves
//! the work it cannot do itself to its driver: decoding the body, posting the
//! event, sending the reply.
//!
//! The driver feeds the machine a signal, carries out the command it gets
//! back and reports with the next signal, until the command is a reply.

use crate::event::BuildError;
use crate::payload::Payload;
use crate::record::{is_flag, record, recorded, Post, PostView};
use crate::signature::{accepted, authenticated, Request};
use vstd::prelude::*;
use vstd::utf8::encode_utf8;

verus! {

/// What the handler is set up with, once for the life of the process.
#[derive(Debug, Clone, PartialEq, Eq)]
pub struct Env {
    /// The secret that the sender signs its requests with.
    pub ld_secret: String,
    /// The API key for the events endpoint.
    pub dd_api_key: String,
}

pub struct EnvView {
    pub ld_secret: Seq<char>,
    pub dd_api_key: Seq<char>,
}

impl View for Env {
    type V = EnvView;

    open spec fn view(&self) -> EnvView {
        EnvView { ld_secret: self.ld_secret@, dd_api_key: self.dd_api_key@ }
    }
}

/// What the sender of the request is told. Every reply is sent with the same
/// HTTP status; only the message tells them apart.
#[derive(Debug, Clone, Copy, PartialEq, Eq, Structural)]
pub enum Reply {
    /// The signature was missing or wrong.
    NotAuthenticated,
    /// The body was no change notification that an event could be built from.
    Failed,
    /// The request was dealt with, whether or not anything was recorded.
    Done,
}

impl Reply {
    /// The message of the reply, as text.
    pub open spec fn text(self) -> Seq<char> {
        match self {
            Reply::NotAuthenticated => "Request not authenticated"@,
            Reply::Failed => "Failed to process request"@,
            Reply::Done => "\u{1F44D}"@,
        }
    }

    /// The message to put in the body of the response.
    pub fn message(&self) -> (text: String)
        ensures
            text@ == self.text(),
    {
        match self {
            Reply::NotAuthenticated => String::from_str("Request not authenticated"),
            Reply::Failed => String::from_str("Failed to process request"),
            Reply::Done => String::from_str("\u{1F44D}"),
        }
    }
}

/// Where the handling of a request stands between two steps.
#[derive(Debug, Clone, Copy, PartialEq, Eq, Structural)]
pub enum State {
    /// Nothing has been looked at yet.
    Received,
    /// The request is authentic; its body is being decoded.
    Decoding,
    /// An event was built; it is being posted.
    Built,
    /// The reply has been given. Nothing follows.
    Responded,
}

/// What the driver reports to the machine.
#[derive(Debug, Clone, PartialEq, Eq)]
pub enum Signal {
    /// The request has come in.
    Arrived(Request),
    /// The body was decoded, or could not be.
    Decoded(Option<Payload>),
    /// The event was posted; `true` where the endpoint took it.
    Published(bool),
}

/// What the machine asks of the driver.
#[derive(Debug, Clone, PartialEq, Eq)]
pub enum Command {
    /// Decode the body of the request and report the payload.
    Decode,
    /// Post the event and report how it went.
    Publish(Post),
    /// Send the reply. This ends the request.
    Respond(Reply),
    /// The signal was not awaited: there is nothing to do.
    Ignore,
}

pub enum CommandView {
    Decode,
    Publish(PostView),
    Respond(Reply),
    Ignore,
}

impl View for Command {
    type V = CommandView;

    open spec fn view(&self) -> CommandView {
        match self {
            Command::Decode => CommandView::Decode,
            Command::Publish(post) => CommandView::Publish(post@),
            Command::Respond(reply) => CommandView::Respond(*reply),
            Command::Ignore => CommandView::Ignore,
        }
    }
}

/// The step that the machine takes from `state` on `signal`: the state it
/// moves to and the command it gives.
///
/// - A request that has arrived is authenticated first. A request that fails
///   is told so at once.
/// - A body that does not decode, or that no event can be built from, fails
///   the request. A change to anything but a flag is done with no more work.
/// - Once the event was posted the request is done, however the posting went.
/// - A signal that the state does not await changes nothing.
pub open spec fn next(env: EnvView, state: State, signal: Signal) -> (State, CommandView) {
    match (state, signal) {
        (State::Received, Signal::Arrived(request)) => {
            if accepted(request.body@, encode_utf8(env.ld_secret), request.signature_text()) {
                (State::Decoding, CommandView::Decode)
            } else {
                (State::Responded, CommandView::Respond(Reply::NotAuthenticated))
            }
        },
        (State::Decoding, Signal::Decoded(None)) => (
            State::Responded,
            CommandView::Respond(Reply::Failed),
        ),
        (State::Decoding, Signal::Decoded(Some(payload))) => match recorded(
            payload@,
            env.dd_api_key,
        ) {
            Ok(Some(post)) => (State::Built, CommandView::Publish(post)),
            Ok(None) => (State::Responded, CommandView::Respond(Reply::Done)),
            Err(_) => (State::Responded, CommandView::Respond(Reply::Failed)),
        },
        (State::Built, Signal::Published(_)) => (
            State::Responded,
            CommandView::Respond(Reply::Done),
        ),
        _ => (state, CommandView::Ignore),
    }
}

/// The commands that the machine gives for `signals`, one for each in turn,
/// when it starts in `state`.
pub open spec fn commands(env: EnvView, state: State, signals: Seq<Signal>) -> Seq<CommandView>
    decreases signals.len(),
{
    if signals.len() == 0 {
        Seq::empty()
    } else {
        let (after, command) = next(env, state, signals[0]);
        seq![command] + commands(env, after, signals.drop_first())
    }
}

/// A step gives a reply exactly when it moves to `Responded` from another
/// state, and a reply is the only way there.
pub proof fn lemma_reply_ends_the_request(env: EnvView, state: State, signal: Signal)
    ensures
        next(env, state, signal).1 is Respond <==> state != State::Responded && next(
            env,
            state,
            signal,
        ).0 == State::Responded,
{
}

/// An event is posted for nothing but a change to a flag: the only step that
/// asks for it is the one on a decoded payload of kind `flag` that holds an
/// access, and it asks for the event of that payload.
pub proof fn lemma_only_flags_are_published(env: EnvView, state: State, signal: Signal)
    ensures
        next(env, state, signal).1 matches CommandView::Publish(post) ==> {
            &&& state == State::Decoding
            &&& signal matches Signal::Decoded(Some(payload))
            &&& is_flag(payload@)
            &&& payload.accesses@.len() > 0
            &&& recorded(payload@, env.dd_api_key) == Ok::<Option<PostView>, BuildError>(Some(post))
        },
{
}

/// Once the reply has been given the machine asks for nothing more, whatever
/// it is told.
pub proof fn lemma_nothing_follows_a_reply(env: EnvView, signals: Seq<Signal>)
    ensures
        commands(env, State::Responded, signals).len() == signals.len(),
        forall|i: int|
            0 <= i < signals.len() ==> (#[trigger] commands(env, State::Responded, signals)[i])
                == CommandView::Ignore,
    decreases signals.len(),
{
    if signals.len() > 0 {
        lemma_nothing_follows_a_reply(env, signals.drop_first());
    }
}

/// The machine gives one command for each signal.
pub proof fn lemma_one_command_a_signal(env: EnvView, state: State, signals: Seq<Signal>)
    ensures
        commands(env, state, signals).len() == signals.len(),
    decreases signals.len(),
{
    if signals.len() > 0 {
        lemma_one_command_a_signal(env, next(env, state, signals[0]).0, signals.drop_first());
    }
}

/// A request is answered at most once: in any run, from any state, every
/// command after a reply is `Ignore`.
pub proof fn lemma_at_most_one_reply(env: EnvView, state: State, signals: Seq<Signal>)
    ensures
        forall|i: int, j: int|
            #![trigger commands(env, state, signals)[i], commands(env, state, signals)[j]]
            0 <= i < j < signals.len() && commands(env, state, signals)[i] is Respond
                ==> commands(env, state, signals)[j] == CommandView::Ignore,
    decreases signals.len(),
{
    if signals.len() > 0 {
        let (after, command) = next(env, state, signals[0]);
        let rest = signals.drop_first();
        let all = commands(env, state, signals);
        lemma_one_command_a_signal(env, after, rest);
        lemma_at_most_one_reply(env, after, rest);
        lemma_reply_ends_the_request(env, state, signals[0]);
        if command is Respond {
            lemma_nothing_follows_a_reply(env, rest);
        }
        assert forall|i: int, j: int|
            0 <= i < j < signals.len() && all[i] is Respond implies all[j]
            == CommandView::Ignore by {
            assert(all[j] == commands(env, after, rest)[j - 1]);
            if i > 0 {
                assert(all[i] == commands(env, after, rest)[i - 1]);
            }
        }
    }
}

/// A request that is not authentic is told so and goes no further: its body
/// is never decoded and nothing is posted, whatever the driver reports next.
pub proof fn lemma_rejected_request_goes_no_further(
    env: EnvView,
    request: Request,
    later: Seq<Signal>,
)
    requires
        !accepted(request.body@, encode_utf8(env.ld_secret), request.signature_text()),
    ensures
        ({
            let run = commands(env, State::Received, seq![Signal::Arrived(request)] + later);
            &&& run.len() == 1 + later.len()
            &&& run[0] == CommandView::Respond(Reply::NotAuthenticated)
            &&& forall|i: int| 1 <= i < run.len() ==> (#[trigger] run[i]) == CommandView::Ignore
        }),
{
    let signals = seq![Signal::Arrived(request)] + later;
    assert(signals[0] == Signal::Arrived(request));
    assert(signals.drop_first() =~= later);
    lemma_nothing_follows_a_reply(env, later);
    let run = commands(env, State::Received, signals);
    assert forall|i: int| 1 <= i < run.len() implies (#[trigger] run[i]) == CommandView::Ignore by {
        assert(run[i] == commands(env, State::Responded, later)[i - 1]);
    }
}

/// The handler of one request.
pub struct Handler {
    env: Env,
    state: State,
}

pub struct HandlerView {
    pub env: EnvView,
    pub state: State,
}

impl View for Handler {
    type V = HandlerView;

    closed spec fn view(&self) -> HandlerView {
        HandlerView { env: self.env@, state: self.state }
    }
}

impl Handler {
    /// A handler for a request that has just come in.
    pub fn new(env: Env) -> (handler: Handler)
        ensures
            handler@.env == env@,
            handler@.state == State::Received,
    {
        Handler { env, state: State::Received }
    }

    /// Where the handling stands.
    pub fn state(&self) -> (state: State)
        ensures
            state == self@.state,
    {
        self.state
    }

    /// Takes one step on `signal` and gives the command to carry out.
    pub fn step(&mut self, signal: Signal) -> (command: Command)
        ensures
            final(self)@.env == old(self)@.env,
            (final(self)@.state, command@) == next(old(self)@.env, old(self)@.state, signal),
    {
        match self.state {
            State::Received => match signal {
                Signal::Arrived(request) => {
                    if authenticated(&request, self.env.ld_secret.as_str()) {
                        self.state = State::Decoding;
                        Command::Decode
                    } else {
                        self.state = State::Responded;
                        Command::Respond(Reply::NotAuthenticated)
                    }
                },
                _ => Command::Ignore,
            },
            State::Decoding => match signal {
                Signal::Decoded(None) => {
                    self.state = State::Responded;
                    Command::Respond(Reply::Failed)
                },
                Signal::Decoded(Some(payload)) => {
                    match record(payload, self.env.dd_api_key.as_str()) {
                        Ok(Some(post)) => {
                            self.state = State::Built;
                            Command::Publish(post)
                        },
                        Ok(None) => {
                            self.state = State::Responded;
                            Command::Respond(Reply::Done)
                        },
                        Err(_) => {
                            self.state = State::Responded;
                            Command::Respond(Reply::Failed)
                        },
                    }
                },
                _ => Command::Ignore,
            },
            State::Built => match signal {
                Signal::Published(_) => {
                    self.state = State::Responded;
                    Command::Respond(Reply::Done)
                },
                _ => Command::Ignore,
            },
            State::Responded => Command::Ignore,
        }
    }
}

} // verus!
