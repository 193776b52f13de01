//! Data model: the statically configured command responses, the follow-up
//! message payload they carry, and the command descriptors sent to the
//! platform at provisioning time.

use vstd::prelude::*;

verus! {

/// Where a command may be installed.
#[derive(PartialEq, Eq, Structural, Clone, Copy, Debug)]
pub enum IntegrationType {
    Guild,
    User,
}

/// Where a command may be invoked.
#[derive(PartialEq, Eq, Structural, Clone, Copy, Debug)]
pub enum InteractionContext {
    Guild,
    BotDm,
    PrivateChannel,
}

impl IntegrationType {
    /// The wire value of this integration type.
    pub fn raw(&self) -> (r: u8)
        ensures
            r == self.raw_spec(),
    {
        match self {
            IntegrationType::Guild => 0,
            IntegrationType::User => 1,
        }
    }

    pub open spec fn raw_spec(&self) -> u8 {
        match self {
            IntegrationType::Guild => 0,
            IntegrationType::User => 1,
        }
    }
}

impl InteractionContext {
    /// The wire value of this interaction context.
    pub fn raw(&self) -> (r: u8)
        ensures
            r == self.raw_spec(),
    {
        match self {
            InteractionContext::Guild => 0,
            InteractionContext::BotDm => 1,
            InteractionContext::PrivateChannel => 2,
        }
    }

    pub open spec fn raw_spec(&self) -> u8 {
        match self {
            InteractionContext::Guild => 0,
            InteractionContext::BotDm => 1,
            InteractionContext::PrivateChannel => 2,
        }
    }
}

/// One command descriptor sent to the platform at provisioning time.
pub struct CommandData {
    pub name: String,
    pub description: String,
    pub integration_types: Vec<IntegrationType>,
    pub contexts: Vec<InteractionContext>,
}

/// One configured command's static reply: the name it answers, its
/// description, and the follow-up message it resolves to.
pub struct CommandResponse {
    pub name: String,
    pub description: String,
    pub message: MessageData,
}

/// A follow-up message payload: free text plus zero or more rich display
/// blocks and zero or more rows of link elements.
pub struct MessageData {
    pub content: String,
    pub embeds: Vec<MessageEmbed>,
    pub components: Vec<ActionRow>,
}

/// One rich display block of a follow-up message.
pub struct MessageEmbed {
    pub title: Option<String>,
    pub description: Option<String>,
    pub url: Option<String>,
    pub color: Option<u32>,
    pub footer: Option<EmbedFooter>,
    pub image: Option<EmbedImage>,
    pub thumbnail: Option<EmbedThumbnail>,
    pub video: Option<EmbedVideo>,
    pub author: Option<EmbedAuthor>,
    pub fields: Option<Vec<EmbedField>>,
}

pub struct EmbedFooter {
    pub text: String,
    pub icon_url: Option<String>,
}

pub struct EmbedImage {
    pub url: String,
}

pub struct EmbedThumbnail {
    pub url: String,
}

pub struct EmbedVideo {
    pub url: String,
}

pub struct EmbedAuthor {
    pub name: String,
    pub url: Option<String>,
    pub icon_url: Option<String>,
}

pub struct EmbedField {
    pub name: String,
    pub value: String,
    pub inline: bool,
}

/// One row of interactive elements; only link-style buttons are supported.
pub struct ActionRow {
    pub kind: u8,
    pub components: Vec<UrlButtonComponent>,
}

/// A link-style button.
pub struct UrlButtonComponent {
    pub kind: u8,
    pub style: u8,
    pub label: String,
    pub url: String,
}

} // verus!
