use webhook_responder::dispatch::DispatchChannel;
use webhook_responder::interaction::Interaction;
use webhook_responder::interaction::InteractionData;

fn command_interaction(token: &str, name: &str) -> Interaction {
    Interaction {
        id: "10".to_string(),
        application_id: "app123".to_string(),
        kind: 2,
        token: token.to_string(),
        data: Some(InteractionData {
            id: "20".to_string(),
            name: name.to_string(),
            kind: 1,
            options: None,
        }),
    }
}

fn ping_interaction() -> Interaction {
    Interaction {
        id: "10".to_string(),
        application_id: "app123".to_string(),
        kind: 1,
        token: "tok".to_string(),
        data: None,
    }
}

#[test]
fn route_ping_short_circuit() {
    let ack = webhook_responder::interaction::route_interaction(ping_interaction());
    assert_eq!(ack.status, 200);
    assert_eq!(ack.body, "{\"type\":1}");
    assert!(ack.dispatch.is_none());
}

#[test]
fn route_command_deferred() {
    let ack = webhook_responder::interaction::route_interaction(command_interaction("tok", "ping"));
    assert_eq!(ack.status, 200);
    assert_eq!(ack.body, "{\"type\":5}");
    let dispatched = ack.dispatch.expect("command interactions are dispatched");
    assert_eq!(dispatched.token, "tok");
}

#[test]
fn rejection_is_client_error() {
    let ack = webhook_responder::interaction::rejection_ack();
    assert_eq!(ack.status, 405);
    assert_eq!(ack.body, "invalid request signature");
    assert!(ack.dispatch.is_none());
}

#[test]
fn accept_ping_never_enqueued() {
    let mut channel = DispatchChannel::new();
    let ack = webhook_responder::interaction::accept_interaction(&mut channel, ping_interaction());
    assert_eq!(ack.status, 200);
    assert_eq!(ack.body, "{\"type\":1}");
    assert_eq!(channel.len(), 0);
}

#[test]
fn accept_command_enqueued_exactly_once() {
    let mut channel = DispatchChannel::new();
    let ack = webhook_responder::interaction::accept_interaction(
        &mut channel,
        command_interaction("tok", "ping"),
    );
    assert_eq!(ack.body, "{\"type\":5}");
    assert_eq!(channel.len(), 1);
    let drained = channel.drain();
    assert_eq!(drained.len(), 1);
    assert_eq!(drained[0].token, "tok");
    assert_eq!(channel.len(), 0);
}

#[test]
fn channel_drains_all_exactly_once_in_order() {
    let mut channel = DispatchChannel::new();
    for token in ["a", "b", "c"] {
        channel.send(command_interaction(token, "ping"));
    }
    let drained = channel.drain();
    assert_eq!(drained.len(), 3);
    assert_eq!(drained[0].token, "a");
    assert_eq!(drained[1].token, "b");
    assert_eq!(drained[2].token, "c");
    assert_eq!(channel.len(), 0);
}

#[test]
fn try_recv_empty_is_none() {
    let mut channel = DispatchChannel::new();
    assert!(channel.try_recv().is_none());
    channel.send(ping_interaction());
    assert!(channel.try_recv().is_some());
    assert!(channel.try_recv().is_none());
}
