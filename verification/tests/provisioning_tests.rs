use webhook_responder::messages::CommandData;
use webhook_responder::messages::CommandResponse;
use webhook_responder::messages::IntegrationType;
use webhook_responder::messages::InteractionContext;
use webhook_responder::messages::MessageData;
use webhook_responder::responses::command_descriptors;

fn descriptor(name: &str, description: &str) -> CommandData {
    CommandData {
        name: name.to_string(),
        description: description.to_string(),
        integration_types: vec![IntegrationType::User],
        contexts: vec![
            InteractionContext::BotDm,
            InteractionContext::Guild,
            InteractionContext::PrivateChannel,
        ],
    }
}

#[test]
fn integration_type_wire_values() {
    assert_eq!(IntegrationType::Guild.raw(), 0);
    assert_eq!(IntegrationType::User.raw(), 1);
}

#[test]
fn interaction_context_wire_values() {
    assert_eq!(InteractionContext::Guild.raw(), 0);
    assert_eq!(InteractionContext::BotDm.raw(), 1);
    assert_eq!(InteractionContext::PrivateChannel.raw(), 2);
}

#[test]
fn command_to_body_exact() {
    let body = descriptor("ping", "a command").to_body();
    assert_eq!(
        body,
        "{\"name\":\"ping\",\"description\":\"a command\",\"integration_types\":[1],\"contexts\":[1,0,2]}"
    );
    let value: serde_json::Value = serde_json::from_str(&body).unwrap();
    assert_eq!(value["name"], "ping");
    assert_eq!(value["integration_types"][0], 1);
}

#[test]
fn commands_body_joins_descriptors() {
    let body = webhook_responder::json::commands_body(&vec![
        descriptor("a", "one"),
        descriptor("b", "two"),
    ]);
    let value: serde_json::Value = serde_json::from_str(&body).unwrap();
    let list = value.as_array().unwrap();
    assert_eq!(list.len(), 2);
    assert_eq!(list[0]["name"], "a");
    assert_eq!(list[1]["description"], "two");
}

#[test]
fn commands_body_empty_list() {
    let body = webhook_responder::json::commands_body(&Vec::new());
    assert_eq!(body, "[]");
}

#[test]
fn descriptors_follow_configured_responses() {
    let table = vec![
        CommandResponse {
            name: "ping".to_string(),
            description: "answers pong".to_string(),
            message: MessageData {
                content: "pong!".to_string(),
                embeds: Vec::new(),
                components: Vec::new(),
            },
        },
    ];
    let descriptors = command_descriptors(&table);
    assert_eq!(descriptors.len(), 1);
    assert_eq!(descriptors[0].name.as_str(), "ping");
    assert_eq!(descriptors[0].description.as_str(), "answers pong");
    assert_eq!(descriptors[0].integration_types.len(), 1);
    assert_eq!(descriptors[0].integration_types[0].raw(), 1);
    assert_eq!(descriptors[0].contexts.len(), 3);
    assert_eq!(descriptors[0].contexts[0].raw(), 1);
    assert_eq!(descriptors[0].contexts[1].raw(), 0);
    assert_eq!(descriptors[0].contexts[2].raw(), 2);
}
