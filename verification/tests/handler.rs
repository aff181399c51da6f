use ld_webhook::event::event;
use ld_webhook::handler::{Command, Env, Handler, Reply, Signal, State};
use ld_webhook::payload::{Access, Member, Payload};
use ld_webhook::record::Post;
use ld_webhook::signature::Request;

const BODY: &[u8] = b"what do ya want for nothing?";
const SIGNATURE: &str = "5bdcc146bf60754e6a042426089575c75a003f089d2739839dec58b964ec3843";

fn env() -> Env {
    Env { ld_secret: "Jefe".to_string(), dd_api_key: "0123abc".to_string() }
}

fn signed() -> Signal {
    Signal::Arrived(Request { signature: Some(SIGNATURE.to_string()), body: BODY.to_vec() })
}

fn change(kind: &str, actions: &[&str]) -> Payload {
    Payload {
        accesses: actions.iter().map(|a| Access { action: a.to_string() }).collect(),
        kind: kind.to_string(),
        name: "dark-mode".to_string(),
        description: "- Turned on the flag".to_string(),
        title_verb: "turned on".to_string(),
        member: Member { first_name: "Ada".to_string(), last_name: "Byron".to_string() },
    }
}

fn every_signal() -> Vec<Signal> {
    vec![
        signed(),
        Signal::Arrived(Request { signature: None, body: BODY.to_vec() }),
        Signal::Decoded(None),
        Signal::Decoded(Some(change("flag", &["updateOn"]))),
        Signal::Decoded(Some(change("project", &[]))),
        Signal::Published(true),
        Signal::Published(false),
    ]
}

#[test]
fn replies_carry_the_fixed_messages() {
    assert_eq!(Reply::NotAuthenticated.message(), "Request not authenticated");
    assert_eq!(Reply::Failed.message(), "Failed to process request");
    assert_eq!(Reply::Done.message(), "\u{1F44D}");
    assert_eq!(Reply::Done.message(), "👍");
}

#[test]
fn a_new_handler_has_looked_at_nothing() {
    assert_eq!(Handler::new(env()).state(), State::Received);
}

#[test]
fn a_change_to_a_flag_is_decoded_posted_and_done() {
    let mut handler = Handler::new(env());
    assert_eq!(handler.step(signed()), Command::Decode);
    assert_eq!(handler.state(), State::Decoding);

    let payload = change("flag", &["updateOn", "updateName"]);
    let expected = Post {
        url: "https://app.datadoghq.com/api/v1/events?api_key=0123abc".to_string(),
        event: event(payload.clone()).expect("an event"),
    };
    assert_eq!(expected.event.tags, vec!["kind:flag", "name:dark-mode", "action:updateOn"]);
    assert_eq!(handler.step(Signal::Decoded(Some(payload))), Command::Publish(expected));
    assert_eq!(handler.state(), State::Built);

    assert_eq!(handler.step(Signal::Published(true)), Command::Respond(Reply::Done));
    assert_eq!(handler.state(), State::Responded);
}

#[test]
fn a_failed_post_is_done_all_the_same() {
    let mut handler = Handler::new(env());
    assert_eq!(handler.step(signed()), Command::Decode);
    assert!(matches!(
        handler.step(Signal::Decoded(Some(change("flag", &["updateOn"])))),
        Command::Publish(_)
    ));
    assert_eq!(handler.step(Signal::Published(false)), Command::Respond(Reply::Done));
    assert_eq!(handler.state(), State::Responded);
}

#[test]
fn a_request_without_a_signature_is_rejected_and_goes_no_further() {
    let mut handler = Handler::new(env());
    let unsigned = Signal::Arrived(Request { signature: None, body: BODY.to_vec() });
    assert_eq!(handler.step(unsigned), Command::Respond(Reply::NotAuthenticated));
    assert_eq!(handler.state(), State::Responded);
    for signal in every_signal() {
        assert_eq!(handler.step(signal), Command::Ignore);
        assert_eq!(handler.state(), State::Responded);
    }
}

#[test]
fn a_request_with_a_wrong_signature_is_rejected() {
    let wrong = [
        "not-hex!",
        "",
        "5bdcc146bf60754e6a042426089575c75a003f089d2739839dec58b964ec38",
        "5bdcc146bf60754e6a042426089575c75a003f089d2739839dec58b964ec3844",
    ];
    for signature in wrong {
        let mut handler = Handler::new(env());
        let request = Request { signature: Some(signature.to_string()), body: BODY.to_vec() };
        assert_eq!(handler.step(Signal::Arrived(request)), Command::Respond(Reply::NotAuthenticated));
        assert_eq!(handler.state(), State::Responded);
    }
    let mut handler = Handler::new(Env { ld_secret: "wrong".to_string(), dd_api_key: "k".to_string() });
    assert_eq!(handler.step(signed()), Command::Respond(Reply::NotAuthenticated));
}

#[test]
fn a_body_that_does_not_decode_fails_the_request() {
    let mut handler = Handler::new(env());
    assert_eq!(handler.step(signed()), Command::Decode);
    assert_eq!(handler.step(Signal::Decoded(None)), Command::Respond(Reply::Failed));
    assert_eq!(handler.state(), State::Responded);
}

#[test]
fn a_change_to_anything_but_a_flag_is_never_posted() {
    for kind in ["environment", "project", "", "Flag"] {
        for actions in [&["updateName"][..], &[][..]] {
            let mut handler = Handler::new(env());
            assert_eq!(handler.step(signed()), Command::Decode);
            let command = handler.step(Signal::Decoded(Some(change(kind, actions))));
            assert_eq!(command, Command::Respond(Reply::Done));
            assert_eq!(handler.state(), State::Responded);
            for signal in every_signal() {
                assert_eq!(handler.step(signal), Command::Ignore);
            }
        }
    }
}

#[test]
fn a_flag_without_an_access_fails_the_request() {
    let mut handler = Handler::new(env());
    assert_eq!(handler.step(signed()), Command::Decode);
    let command = handler.step(Signal::Decoded(Some(change("flag", &[]))));
    assert_eq!(command, Command::Respond(Reply::Failed));
    assert_eq!(handler.state(), State::Responded);
}

#[test]
fn a_signal_that_is_not_awaited_changes_nothing() {
    let mut handler = Handler::new(env());
    assert_eq!(handler.step(Signal::Decoded(Some(change("flag", &["updateOn"])))), Command::Ignore);
    assert_eq!(handler.step(Signal::Decoded(None)), Command::Ignore);
    assert_eq!(handler.step(Signal::Published(true)), Command::Ignore);
    assert_eq!(handler.state(), State::Received);

    assert_eq!(handler.step(signed()), Command::Decode);
    assert_eq!(handler.step(signed()), Command::Ignore);
    assert_eq!(handler.step(Signal::Published(true)), Command::Ignore);
    assert_eq!(handler.state(), State::Decoding);

    assert!(matches!(
        handler.step(Signal::Decoded(Some(change("flag", &["updateOn"])))),
        Command::Publish(_)
    ));
    assert_eq!(handler.step(signed()), Command::Ignore);
    assert_eq!(handler.step(Signal::Decoded(None)), Command::Ignore);
    assert_eq!(handler.state(), State::Built);
}

#[test]
fn a_request_is_answered_at_most_once() {
    let mut handler = Handler::new(env());
    let mut replies = 0;
    let mut signals = vec![signed(), Signal::Decoded(Some(change("flag", &["updateOn"])))];
    signals.push(Signal::Published(true));
    signals.extend(every_signal());
    for signal in signals {
        if let Command::Respond(_) = handler.step(signal) {
            replies += 1;
        }
    }
    assert_eq!(replies, 1);
}
