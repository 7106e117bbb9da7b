//! The statically wired transform of this deployment: a Todoist webhook
//! event becomes a Discord webhook message.
//!
//! Only the "note added" event has a defined mapping today; every other
//! variant is declined with `Unmapped`, a recoverable per-request signal.

use vstd::prelude::*;
use vstd::string::StringExecFns;
use crate::discord::{
    Components, DiscordWebhookPayload, Embed, EmbedCollection, EmbedField, EmbedFields,
};
use crate::errors::TransformError;
use crate::todoist::{TodoistEvent, TodoistNote, TodoistPayload};

verus! {

/// The embed a "note added" event produces: a titled card whose single
/// field carries the note's text.
pub open spec fn spec_note_added_embed(note: TodoistNote, e: Embed) -> bool {
    &&& e.title matches Some(t) && t@ == "Note added"@
    &&& e.description is None
    &&& e.url matches Some(u) && u@ == "test"@
    &&& e.color == Some(0xFF34eb5eu32)
    &&& e.footer is None
    &&& e.image is None
    &&& e.thumbnail is None
    &&& e.video is None
    &&& e.provider is None
    &&& e.author is None
    &&& e.fields matches Some(fs) && fs.0@.len() == 1 && fs.0@[0].name@ == "description"@
        && fs.0@[0].value@ == note.content@
}

/// The whole message a "note added" event produces.
pub open spec fn spec_note_added_webhook(note: TodoistNote, out: DiscordWebhookPayload) -> bool {
    &&& out.content@ == "abx"@
    &&& out.username matches Some(u) && u@ == "Todoist"@
    &&& out.avatar_url matches Some(a) && a@
        == "https://upload.wikimedia.org/wikipedia/commons/thumb/e/e1/Cib-todoist_%28CoreUI_Icons_v1.0.0%29.svg/240px-Cib-todoist_%28CoreUI_Icons_v1.0.0%29.svg.png"@
    &&& out.tts == false
    &&& out.embeds.0@.len() == 1
    &&& spec_note_added_embed(note, out.embeds.0@[0])
    &&& out.components.0@.len() == 0
}

/// Maps one source event to one destination message. Total and pure: a
/// "note added" event yields exactly the message `spec_note_added_webhook`
/// describes, and every other variant is declined with `Unmapped` rather
/// than panicking.
pub fn todoist_to_webhook(incoming_data: TodoistPayload) -> (r: Result<
    DiscordWebhookPayload,
    TransformError,
>)
    ensures
        incoming_data.event matches TodoistEvent::NoteAdded(note) ==> (r matches Ok(out)
            && spec_note_added_webhook(note, out)),
        !(incoming_data.event is NoteAdded) ==> r == Err::<DiscordWebhookPayload, TransformError>(
            TransformError::Unmapped,
        ),
{
    let username = Some(String::from_str("Todoist"));
    let avatar_url = Some(String::from_str(
        "https://upload.wikimedia.org/wikipedia/commons/thumb/e/e1/Cib-todoist_%28CoreUI_Icons_v1.0.0%29.svg/240px-Cib-todoist_%28CoreUI_Icons_v1.0.0%29.svg.png",
    ));
    let content = String::from_str("abx");
    let tts = false;
    match incoming_data.event {
        TodoistEvent::NoteAdded(note) => {
            let mut fields: Vec<EmbedField> = Vec::new();
            fields.push(EmbedField { name: String::from_str("description"), value: note.content });
            let mut embeds: Vec<Embed> = Vec::new();
            embeds.push(
                Embed {
                    title: Some(String::from_str("Note added")),
                    description: None,
                    url: Some(String::from_str("test")),
                    color: Some(0xFF34eb5e),
                    footer: None,
                    image: None,
                    thumbnail: None,
                    video: None,
                    provider: None,
                    author: None,
                    fields: Some(EmbedFields(fields)),
                },
            );
            Ok(
                DiscordWebhookPayload {
                    content,
                    username,
                    avatar_url,
                    tts,
                    embeds: EmbedCollection(embeds),
                    components: Components::default(),
                },
            )
        },
        _ => Err(TransformError::Unmapped),
    }
}

} // verus!
