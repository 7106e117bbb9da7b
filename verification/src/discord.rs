//! The outbound payload schema: a Discord webhook execution body. Plain
//! data types; serializing them to the wire is the forwarding boundary's
//! work.

use vstd::prelude::*;

verus! {

/// An interactive component; none are sent today.
pub struct Component {}

/// The component rows of a message.
pub struct Components(pub Vec<Component>);

impl Default for Components {
    /// A message carries no components unless some are added.
    fn default() -> (r: Components)
        ensures
            r.0@.len() == 0,
    {
        Components(Vec::new())
    }
}

/// A footer under an embed.
pub struct EmbedFooter {
    pub text: String,
    pub icon_url: Option<String>,
    pub proxy_icon_url: Option<String>,
}

/// An image inside an embed.
pub struct EmbedImage {
    pub url: String,
    pub proxy_url: Option<String>,
    pub height: Option<usize>,
    pub width: Option<usize>,
}

/// A thumbnail beside an embed.
pub struct EmbedThumbnail {
    pub url: String,
    pub proxy_url: Option<String>,
    pub height: Option<usize>,
    pub width: Option<usize>,
}

/// A video inside an embed.
pub struct EmbedVideo {
    pub url: Option<String>,
    pub proxy_url: Option<String>,
    pub height: Option<usize>,
    pub width: Option<usize>,
}

/// The named provider of embedded content.
pub struct EmbedProvider {
    pub name: Option<String>,
    pub url: Option<String>,
}

/// The author line of an embed.
pub struct EmbedAuthor {
    pub name: String,
    pub url: Option<String>,
    pub icon_url: Option<String>,
    pub proxy_icon_url: Option<String>,
}

/// One name/value field of an embed.
pub struct EmbedField {
    pub name: String,
    pub value: String,
}

/// The fields of an embed.
pub struct EmbedFields(pub Vec<EmbedField>);

/// One rich embed of a message.
pub struct Embed {
    pub title: Option<String>,
    pub description: Option<String>,
    pub url: Option<String>,
    pub color: Option<u32>,
    pub footer: Option<EmbedFooter>,
    pub image: Option<EmbedImage>,
    pub thumbnail: Option<EmbedThumbnail>,
    pub video: Option<EmbedVideo>,
    pub provider: Option<EmbedProvider>,
    pub author: Option<EmbedAuthor>,
    pub fields: Option<EmbedFields>,
}

/// The embeds of a message.
pub struct EmbedCollection(pub Vec<Embed>);

impl Default for EmbedCollection {
    /// A message carries no embeds unless some are added.
    fn default() -> (r: EmbedCollection)
        ensures
            r.0@.len() == 0,
    {
        EmbedCollection(Vec::new())
    }
}

/// The body of one webhook execution at the destination service.
pub struct DiscordWebhookPayload {
    pub content: String,
    pub username: Option<String>,
    pub avatar_url: Option<String>,
    pub tts: bool,
    pub embeds: EmbedCollection,
    pub components: Components,
}

} // verus!
