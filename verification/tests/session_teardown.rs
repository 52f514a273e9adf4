use scanner::session::{ClientMessage, SessionSignal, SubscriberSession};

fn drive_inbound(session: &mut SubscriberSession, frames: Vec<ClientMessage>) -> usize {
    let mut handled = 0;
    for msg in frames {
        if session.is_done() {
            break;
        }
        session.observe(SessionSignal::Inbound(Some(msg)));
        handled += 1;
    }
    handled
}

#[test]
fn client_close_ends_both_duties() {
    let mut session = SubscriberSession::new();
    assert!(!session.is_done());
    drive_inbound(
        &mut session,
        vec![ClientMessage::Ping, ClientMessage::Other, ClientMessage::Close],
    );
    // the shared flag is set: the outbound loop's guard fails too
    assert!(session.is_done());
    let mut outbound_steps = 0;
    while !session.is_done() {
        outbound_steps += 1;
    }
    assert_eq!(outbound_steps, 0);
}

#[test]
fn pings_keep_the_session_alive() {
    let mut session = SubscriberSession::new();
    let handled =
        drive_inbound(&mut session, vec![ClientMessage::Ping, ClientMessage::Other, ClientMessage::Ping]);
    assert_eq!(handled, 3);
    assert!(!session.is_done());
}

#[test]
fn client_stream_end_ends_the_session() {
    let mut session = SubscriberSession::new();
    session.observe(SessionSignal::Inbound(None));
    assert!(session.is_done());
}

#[test]
fn send_failure_ends_the_session() {
    let mut session = SubscriberSession::new();
    session.observe(SessionSignal::Outbound { pending: true, sent: false });
    assert!(session.is_done());
}

#[test]
fn producer_shutdown_ends_the_session() {
    let mut session = SubscriberSession::new();
    session.observe(SessionSignal::Outbound { pending: false, sent: true });
    assert!(session.is_done());
}

#[test]
fn teardown_is_permanent_and_local_to_one_session() {
    let mut closing = SubscriberSession::new();
    let mut other = SubscriberSession::new();
    closing.observe(SessionSignal::Inbound(Some(ClientMessage::Close)));
    assert!(closing.is_done());
    // later signals of either duty never revive it
    closing.observe(SessionSignal::Inbound(Some(ClientMessage::Ping)));
    closing.observe(SessionSignal::Outbound { pending: true, sent: true });
    assert!(closing.is_done());
    // an unrelated session is untouched
    assert!(!other.is_done());
    other.observe(SessionSignal::Outbound { pending: true, sent: true });
    assert!(!other.is_done());
}
