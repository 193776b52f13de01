//! Interaction Endpoint: the decision core of the single HTTP entry point.
//! Given an authenticated, decoded interaction it produces the immediate
//! acknowledgement and decides what, if anything, is handed to the workers.

use vstd::prelude::*;
use crate::dispatch::DispatchChannel;

verus! {

/// One argument of an invoked command.
pub struct InteractionOption {
    pub name: String,
    pub kind: u8,
    pub value: Option<String>,
}

/// The command payload of an interaction: the invoked command's name and its
/// argument list.
pub struct InteractionData {
    pub id: String,
    pub name: String,
    pub kind: u8,
    pub options: Option<Vec<InteractionOption>>,
}

/// One inbound event. `kind` 1 is a liveness ping; anything else requires a
/// follow-up and carries its command payload in `data`.
pub struct Interaction {
    pub id: String,
    pub application_id: String,
    pub kind: u8,
    pub token: String,
    pub data: Option<InteractionData>,
}

/// The interaction kind that is answered inline with a pong.
pub const PING_KIND: u8 = 1;

/// The endpoint's immediate reply to one inbound request: the HTTP status,
/// the response body, and the interaction to enqueue, if any.
pub struct InteractionAck {
    pub status: u16,
    pub body: String,
    pub dispatch: Option<Interaction>,
}

/// Routes one authenticated interaction: a ping is answered inline and never
/// dispatched; anything else is acknowledged as deferred and handed on.
pub fn route_interaction(interaction: Interaction) -> (r: InteractionAck)
    ensures
        r.status == 200,
        interaction.kind == PING_KIND ==> r.body@ == "{\"type\":1}"@ && r.dispatch is None,
        interaction.kind != PING_KIND ==> r.body@ == "{\"type\":5}"@ && r.dispatch == Some(
            interaction,
        ),
{
    if interaction.kind == PING_KIND {
        InteractionAck {
            status: 200,
            body: "{\"type\":1}".to_owned(),
            dispatch: None,
        }
    } else {
        InteractionAck {
            status: 200,
            body: "{\"type\":5}".to_owned(),
            dispatch: Some(interaction),
        }
    }
}

/// The endpoint's reply to a request whose signature check failed: a client
/// error, sent before the body is ever parsed.
pub fn rejection_ack() -> (r: InteractionAck)
    ensures
        r.status == 405,
        r.body@ == "invalid request signature"@,
        r.dispatch is None,
{
    InteractionAck {
        status: 405,
        body: "invalid request signature".to_owned(),
        dispatch: None,
    }
}

/// Accepts one authenticated interaction against the dispatch channel: a ping
/// never reaches the channel; anything else is enqueued exactly once, and the
/// acknowledgement is produced either way.
pub fn accept_interaction(channel: &mut DispatchChannel, interaction: Interaction) -> (r:
    InteractionAck)
    ensures
        r.status == 200,
        r.dispatch is None,
        interaction.kind == PING_KIND ==> r.body@ == "{\"type\":1}"@ && final(channel)@ == old(
            channel,
        )@,
        interaction.kind != PING_KIND ==> r.body@ == "{\"type\":5}"@ && final(channel)@ == old(
            channel,
        )@.push(interaction),
{
    let mut ack = route_interaction(interaction);
    let dispatch = ack.dispatch;
    ack.dispatch = None;
    match dispatch {
        Some(i) => {
            channel.send(i);
        },
        None => {},
    }
    ack
}

} // verus!
