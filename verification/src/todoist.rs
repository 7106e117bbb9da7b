//! The inbound payload schema: a Todoist webhook event. These are plain
//! data types; reading them off the wire is the ingestion boundary's work.

use vstd::prelude::*;
use crate::datetime::DateTimeValue;

verus! {

#[derive(Clone, Copy, Debug, PartialEq, Eq, Structural)]
pub struct TaskID(pub i64);

#[derive(Clone, Copy, Debug, PartialEq, Eq, Structural)]
pub struct LegacyTaskID(pub i64);

#[derive(Clone, Copy, Debug, PartialEq, Eq, Structural)]
pub struct UserID(pub i64);

#[derive(Clone, Copy, Debug, PartialEq, Eq, Structural)]
pub struct ProjectID(pub i64);

#[derive(Clone, Copy, Debug, PartialEq, Eq, Structural)]
pub struct LegacyProjectID(pub i64);

#[derive(Clone, Copy, Debug, PartialEq, Eq, Structural)]
pub struct Due(pub i64);

#[derive(Clone, Copy, Debug, PartialEq, Eq, Structural)]
pub struct SectionID(pub i64);

#[derive(Clone, Copy, Debug, PartialEq, Eq, Structural)]
pub struct SyncID(pub i64);

#[derive(Clone, Copy, Debug, PartialEq, Eq, Structural)]
pub struct ImageID(pub i64);

#[derive(Clone, Copy, Debug, PartialEq, Eq, Structural)]
pub struct NoteID(pub i64);

#[derive(Clone, Copy, Debug, PartialEq, Eq, Structural)]
pub struct LegacyNoteID(pub i64);

/// A completion date; the source service leaves its precise form open.
#[derive(Clone, Copy, Debug, PartialEq, Eq, Structural)]
pub struct TodoistDate;

/// A task's priority, from the most urgent down to the default.
#[derive(Clone, Copy, Debug, PartialEq, Eq, Structural)]
pub enum TodoistPriority {
    Urgent,
    High,
    Medium,
    Low,
}

/// A task, as the `item:*` events carry it.
pub struct TodoistItem {
    pub id: TaskID,
    pub legacy_id: Option<LegacyTaskID>,
    pub user_id: UserID,
    pub project_id: ProjectID,
    pub legacy_project_id: Option<LegacyProjectID>,
    pub content: String,
    pub description: String,
    pub due: Due,
    pub priority: TodoistPriority,
    pub parent_id: Option<TaskID>,
    pub legacy_parent_id: Option<LegacyTaskID>,
    pub child_order: u32,
    pub section_id: SectionID,
    pub day_order: u32,
    pub collapsed: bool,
    pub labels: Vec<TaskID>,
    pub added_by_uid: Option<UserID>,
    pub assigned_by_uid: UserID,
    pub responsible_uid: Option<UserID>,
    pub completed: bool,
    pub in_history: bool,
    pub is_deleted: bool,
    pub sync_id: Option<SyncID>,
    pub date_completed: TodoistDate,
    pub date_added: TodoistDate,
}

/// The collaborator that initiated an event.
pub struct TodoistCollaborator {
    pub id: UserID,
    pub email: String,
    pub full_name: String,
    pub timezone: String,
    pub image_id: ImageID,
}

/// A file attached to a note.
pub struct TodoistFileAttachment {
    pub name: String,
    pub size: usize,
    pub mime: String,
    pub url: String,
    pub upload_state: String,
}

/// Who reacted to a note, by reaction.
pub struct Reactions {
    pub love: Option<Vec<UserID>>,
    pub good: Option<Vec<UserID>>,
}

/// A note on a task, as the `note:*` events carry it.
pub struct TodoistNote {
    pub id: NoteID,
    pub legacy_id: LegacyNoteID,
    pub posted_uid: UserID,
    pub item_id: TaskID,
    pub legacy_item_id: LegacyTaskID,
    pub project_id: ProjectID,
    pub legacy_project_id: LegacyProjectID,
    pub content: String,
    pub file_attachment: TodoistFileAttachment,
    pub uids_to_notify: Option<Vec<UserID>>,
    pub is_deleted: bool,
    /// Posted date.
    pub posted: DateTimeValue,
    pub reactions: Reactions,
}

/// A project; the source only names it in events so far.
pub struct TodoistProject {}

/// A section; the source only names it in events so far.
pub struct TodoistSession {}

/// A filter; the source only names it in events so far.
pub struct TodoistFilter {}

/// A reminder; the source only names it in events so far.
pub struct TodoistReminder {}

/// The event a webhook delivery reports, tagged by its name on the wire.
pub enum TodoistEvent {
    ItemAdded(TodoistItem),
    ItemRemoved(TodoistItem),
    ItemDeleted(TodoistItem),
    ItemCompleted(TodoistItem),
    ItemUncompleted(TodoistItem),
    NoteAdded(TodoistNote),
    NoteUpdated(TodoistNote),
    NoteDeleted(TodoistNote),
    ProjectAdded(TodoistProject),
    ProjectUpdated(TodoistProject),
    ProjectDeleted(TodoistProject),
    ProjectArchived(TodoistProject),
    ProjectUnarchived(TodoistProject),
    SectionAdded(TodoistSession),
    SectionUpdated(TodoistSession),
    SectionDeleted(TodoistSession),
    SectionArchived(TodoistSession),
    SectionUnarchived(TodoistSession),
    LabelAdded(TodoistSession),
    LabelDeleted(TodoistSession),
    LabelUpdated(TodoistSession),
    FilterAdded(TodoistFilter),
    FilterDeleted(TodoistFilter),
    FilterUpdated(TodoistFilter),
    ReminderFired(TodoistReminder),
}

/// One webhook delivery from the source service.
pub struct TodoistPayload {
    pub user_id: i64,
    pub event: TodoistEvent,
    pub version: String,
    pub initiator: TodoistCollaborator,
}

} // verus!
