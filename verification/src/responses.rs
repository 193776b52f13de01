//! Worker-side response handling: the immutable bot state the workers read,
//! the first-match lookup from command name to configured response, and the
//! construction of the authenticated follow-up call that resolves an
//! interaction.

use vstd::prelude::*;
use vstd::string::StringExecFns;
use crate::interaction::Interaction;
use crate::json::message_body;
use crate::json::message_json;
use crate::messages::CommandData;
use crate::messages::CommandResponse;
use crate::messages::IntegrationType;
use crate::messages::InteractionContext;

verus! {

/// Whether some entry of the table answers the name.
pub open spec fn has_match(table: Seq<CommandResponse>, name: Seq<char>) -> bool {
    exists|j: int| 0 <= j < table.len() && table[j].name@ == name
}

/// Whether the entry at `j` is the first one answering the name.
pub open spec fn is_first_match(table: Seq<CommandResponse>, name: Seq<char>, j: int) -> bool {
    &&& 0 <= j < table.len()
    &&& table[j].name@ == name
    &&& forall|k: int| 0 <= k < j ==> table[k].name@ != name
}

/// Finds the first entry whose name equals the command name, by
/// case-sensitive exact match; `None` exactly when no entry matches.
pub fn lookup_response<'a>(table: &'a Vec<CommandResponse>, name: &String) -> (r: Option<
    &'a CommandResponse,
>)
    ensures
        r is Some <==> has_match(table@, name@),
        r matches Some(entry) ==> exists|j: int|
            #[trigger] is_first_match(table@, name@, j) && *entry == table@[j],
{
    let mut i: usize = 0;
    while i < table.len()
        invariant
            i <= table@.len(),
            forall|k: int| 0 <= k < i ==> table@[k].name@ != name@,
        decreases table@.len() - i,
    {
        if table[i].name == *name {
            proof {
                assert(is_first_match(table@, name@, i as int));
            }
            return Some(&table[i]);
        }
        i = i + 1;
    }
    None
}

/// The state a worker reads: the application identifier used to address
/// follow-up calls, and the response table, both fixed before any request is
/// served.
pub struct BotState {
    application_id: String,
    command_responses: Vec<CommandResponse>,
}

impl BotState {
    pub closed spec fn spec_application_id(&self) -> Seq<char> {
        self.application_id@
    }

    pub closed spec fn spec_responses(&self) -> Seq<CommandResponse> {
        self.command_responses@
    }

    pub fn new(application_id: String, command_responses: Vec<CommandResponse>) -> (r: BotState)
        ensures
            r.spec_application_id() == application_id@,
            r.spec_responses() == command_responses@,
    {
        BotState { application_id, command_responses }
    }

    /// The identifier of the receiving application.
    pub fn get_application_id(&self) -> (r: &String)
        ensures
            r@ == self.spec_application_id(),
    {
        &self.application_id
    }

    /// The configured response table.
    pub fn get_command_responses(&self) -> (r: &Vec<CommandResponse>)
        ensures
            r@ == self.spec_responses(),
    {
        &self.command_responses
    }
}

/// The address of the platform's "edit original response" endpoint for one
/// interaction.
pub open spec fn webhook_url(application_id: Seq<char>, token: Seq<char>) -> Seq<char> {
    "https://discord.com/api/webhooks/"@ + application_id + "/"@ + token + "/messages/@original"@
}

/// One prepared follow-up call: where to send it and the serialized message
/// it carries.
pub struct FollowupRequest {
    pub url: String,
    pub body: String,
}

/// Processes one interaction taken from the dispatch channel: looks up the
/// first response entry matching the invoked command's name and prepares the
/// follow-up call resolving the interaction. When no entry matches, no
/// follow-up is prepared and the interaction is dropped.
pub fn handle_interaction(state: &BotState, interaction: &Interaction) -> (r: Option<
    FollowupRequest,
>)
    requires
        interaction.data is Some,
    ensures
        r is Some <==> has_match(state.spec_responses(), interaction.data->Some_0.name@),
        r matches Some(f) ==> f.url@ == webhook_url(
            state.spec_application_id(),
            interaction.token@,
        ) && exists|j: int|
            #[trigger] is_first_match(state.spec_responses(), interaction.data->Some_0.name@, j)
                && f.body@ == message_json(state.spec_responses()[j].message),
{
    let data = match &interaction.data {
        Option::Some(d) => d,
        Option::None => {
            return None;
        },
    };
    match lookup_response(state.get_command_responses(), &data.name) {
        Option::None => None,
        Option::Some(entry) => {
            let mut url = String::new();
            url.append("https://discord.com/api/webhooks/");
            url.append(state.get_application_id().as_str());
            url.append("/");
            url.append(interaction.token.as_str());
            url.append("/messages/@original");
            let body = message_body(&entry.message);
            proof {
                assert(url@ =~= webhook_url(state.spec_application_id(), interaction.token@));
            }
            Some(FollowupRequest { url, body })
        },
    }
}

/// The observable outcome of one follow-up delivery attempt.
pub enum DeliveryOutcome {
    Completed(u16),
    TransportFailed,
}

/// Whether one delivery attempt is reported as a failure: every outcome other
/// than a completed call with a success status. A failure is only reported;
/// it is never retried and never stops the worker.
pub fn delivery_failed(outcome: &DeliveryOutcome) -> (r: bool)
    ensures
        r <==> !(outcome matches DeliveryOutcome::Completed(status) && status == 200),
{
    match outcome {
        DeliveryOutcome::Completed(status) => *status != 200,
        DeliveryOutcome::TransportFailed => true,
    }
}

/// Builds the command descriptors announced to the platform at provisioning
/// time: one per configured response, installed for users and offered in
/// every context.
pub fn command_descriptors(table: &Vec<CommandResponse>) -> (r: Vec<CommandData>)
    ensures
        r@.len() == table@.len(),
        forall|j: int|
            0 <= j < table@.len() ==> {
                &&& (#[trigger] r@[j]).name@ == table@[j].name@
                &&& r@[j].description@ == table@[j].description@
                &&& r@[j].integration_types@ == seq![IntegrationType::User]
                &&& r@[j].contexts@ == seq![
                    InteractionContext::BotDm,
                    InteractionContext::Guild,
                    InteractionContext::PrivateChannel,
                ]
            },
{
    let mut out: Vec<CommandData> = Vec::new();
    let mut i: usize = 0;
    while i < table.len()
        invariant
            i <= table@.len(),
            out@.len() == i,
            forall|j: int|
                0 <= j < i ==> {
                    &&& (#[trigger] out@[j]).name@ == table@[j].name@
                    &&& out@[j].description@ == table@[j].description@
                    &&& out@[j].integration_types@ == seq![IntegrationType::User]
                    &&& out@[j].contexts@ == seq![
                        InteractionContext::BotDm,
                        InteractionContext::Guild,
                        InteractionContext::PrivateChannel,
                    ]
                },
        decreases table@.len() - i,
    {
        let entry = &table[i];
        let mut integration_types: Vec<IntegrationType> = Vec::new();
        integration_types.push(IntegrationType::User);
        let mut contexts: Vec<InteractionContext> = Vec::new();
        contexts.push(InteractionContext::BotDm);
        contexts.push(InteractionContext::Guild);
        contexts.push(InteractionContext::PrivateChannel);
        proof {
            assert(integration_types@ =~= seq![IntegrationType::User]);
            assert(contexts@ =~= seq![
                InteractionContext::BotDm,
                InteractionContext::Guild,
                InteractionContext::PrivateChannel,
            ]);
        }
        out.push(
            CommandData {
                name: entry.name.clone(),
                description: entry.description.clone(),
                integration_types,
                contexts,
            },
        );
        i = i + 1;
    }
    out
}

} // verus!
