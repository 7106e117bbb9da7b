use std::cell::Cell;
use webhook_relay::credential::ApiKey;
use webhook_relay::datetime::{DatePart, DateTimeValue};
use webhook_relay::errors::{IngestionError, RelayOutcome, TransformError};
use webhook_relay::relay::{
    forwarding_outcome, handle, is_json_content_type, GenericHandler, JsonHandler, RelayDecision,
};
use webhook_relay::todoist::{
    ImageID, LegacyNoteID, LegacyProjectID, LegacyTaskID, NoteID, ProjectID, Reactions, TaskID,
    TodoistCollaborator, TodoistEvent, TodoistFileAttachment, TodoistItem, TodoistNote,
    TodoistPayload, TodoistPriority, UserID,
};
use webhook_relay::transform::todoist_to_webhook;
use webhook_relay::discord::DiscordWebhookPayload;

fn sample_key(byte: u8) -> ApiKey {
    ApiKey::from_bytes(vec![byte; 64]).unwrap()
}

fn sample_datetime() -> DateTimeValue {
    DateTimeValue {
        date: DatePart::Calendar { year: 2021, month: 4, day: 1 },
        hour: 12,
        minute: 0,
        second: 0,
        millisecond: 0,
        tz_offset_hours: 0,
        tz_offset_minutes: 0,
    }
}

fn sample_note(text: &str) -> TodoistNote {
    TodoistNote {
        id: NoteID(1),
        legacy_id: LegacyNoteID(1),
        posted_uid: UserID(10),
        item_id: TaskID(100),
        legacy_item_id: LegacyTaskID(100),
        project_id: ProjectID(5),
        legacy_project_id: LegacyProjectID(5),
        content: text.to_string(),
        file_attachment: TodoistFileAttachment {
            name: "a.txt".to_string(),
            size: 3,
            mime: "text/plain".to_string(),
            url: "https://files.example/a.txt".to_string(),
            upload_state: "completed".to_string(),
        },
        uids_to_notify: None,
        is_deleted: false,
        posted: sample_datetime(),
        reactions: Reactions { love: None, good: None },
    }
}

fn sample_collaborator() -> TodoistCollaborator {
    TodoistCollaborator {
        id: UserID(10),
        email: "someone@example.com".to_string(),
        full_name: "Someone".to_string(),
        timezone: "UTC".to_string(),
        image_id: ImageID(1),
    }
}

fn note_added_payload(text: &str) -> TodoistPayload {
    TodoistPayload {
        user_id: 10,
        event: TodoistEvent::NoteAdded(sample_note(text)),
        version: "8".to_string(),
        initiator: sample_collaborator(),
    }
}

fn sample_item() -> TodoistItem {
    TodoistItem {
        id: TaskID(100),
        legacy_id: None,
        user_id: UserID(10),
        project_id: ProjectID(5),
        legacy_project_id: None,
        content: "a task".to_string(),
        description: "".to_string(),
        due: webhook_relay::todoist::Due(0),
        priority: TodoistPriority::Low,
        parent_id: None,
        legacy_parent_id: None,
        child_order: 0,
        section_id: webhook_relay::todoist::SectionID(0),
        day_order: 0,
        collapsed: false,
        labels: vec![],
        added_by_uid: None,
        assigned_by_uid: UserID(10),
        responsible_uid: None,
        completed: false,
        in_history: false,
        is_deleted: false,
        sync_id: None,
        date_completed: webhook_relay::todoist::TodoistDate,
        date_added: webhook_relay::todoist::TodoistDate,
    }
}

#[test]
fn note_added_maps_to_exact_message() {
    let out = todoist_to_webhook(note_added_payload("remember the milk")).unwrap();
    assert_eq!(out.content, "abx");
    assert_eq!(out.username.as_deref(), Some("Todoist"));
    assert_eq!(
        out.avatar_url.as_deref(),
        Some("https://upload.wikimedia.org/wikipedia/commons/thumb/e/e1/Cib-todoist_%28CoreUI_Icons_v1.0.0%29.svg/240px-Cib-todoist_%28CoreUI_Icons_v1.0.0%29.svg.png")
    );
    assert!(!out.tts);
    assert_eq!(out.components.0.len(), 0);
    assert_eq!(out.embeds.0.len(), 1);
    let embed = &out.embeds.0[0];
    assert_eq!(embed.title.as_deref(), Some("Note added"));
    assert!(embed.description.is_none());
    assert_eq!(embed.url.as_deref(), Some("test"));
    assert_eq!(embed.color, Some(0xFF34eb5e));
    assert!(embed.footer.is_none());
    assert!(embed.image.is_none());
    assert!(embed.thumbnail.is_none());
    assert!(embed.video.is_none());
    assert!(embed.provider.is_none());
    assert!(embed.author.is_none());
    let fields = embed.fields.as_ref().unwrap();
    assert_eq!(fields.0.len(), 1);
    assert_eq!(fields.0[0].name, "description");
    assert_eq!(fields.0[0].value, "remember the milk");
}

#[test]
fn unmapped_event_is_declined_not_a_crash() {
    let payload = TodoistPayload {
        user_id: 10,
        event: TodoistEvent::ItemAdded(sample_item()),
        version: "8".to_string(),
        initiator: sample_collaborator(),
    };
    assert!(matches!(todoist_to_webhook(payload), Err(TransformError::Unmapped)));
}

#[test]
fn json_content_type_check_is_exact() {
    assert!(is_json_content_type(&Some("application/json".to_string())));
    assert!(!is_json_content_type(&Some("text/plain".to_string())));
    assert!(!is_json_content_type(&Some("application/json; charset=utf-8".to_string())));
    assert!(!is_json_content_type(&None));
}

fn length_handler(
    key: ApiKey,
) -> GenericHandler<
    u64,
    u64,
    impl Fn(Vec<u8>) -> Result<u64, IngestionError>,
    impl Fn(u64) -> Result<u64, TransformError>,
    impl Fn(u64) -> Vec<u8>,
> {
    let route = JsonHandler::new("https://destination.example/hook".to_string(), key, |x: u64| {
        if x == 13 {
            Err(TransformError::Unmapped)
        } else {
            Ok(x * 2)
        }
    });
    GenericHandler::new(
        route,
        |b: Vec<u8>| {
            if b.first() == Some(&b'!') {
                Err(IngestionError::SchemaViolation)
            } else {
                Ok(b.len() as u64)
            }
        },
        |y: u64| format!("{}", y).into_bytes(),
    )
}

fn json_ct() -> Option<String> {
    Some("application/json".to_string())
}

#[test]
fn wrong_content_type_never_reaches_the_transform() {
    let calls = Cell::new(0u32);
    let route = JsonHandler::new(
        "https://destination.example/hook".to_string(),
        sample_key(1),
        |x: u64| {
            calls.set(calls.get() + 1);
            Ok::<u64, TransformError>(x)
        },
    );
    let engine = GenericHandler::new(
        route,
        |b: Vec<u8>| Ok::<u64, IngestionError>(b.len() as u64),
        |y: u64| format!("{}", y).into_bytes(),
    );
    let decision = handle(
        &engine,
        &Some("text/plain".to_string()),
        &sample_key(1),
        b"{}".to_vec(),
    );
    assert!(matches!(
        decision,
        RelayDecision::Reject(RelayOutcome::BadRequest(IngestionError::UnsupportedMediaType))
    ));
    assert_eq!(calls.get(), 0);

    let decision = handle(&engine, &None, &sample_key(1), b"{}".to_vec());
    assert!(matches!(
        decision,
        RelayDecision::Reject(RelayOutcome::BadRequest(IngestionError::UnsupportedMediaType))
    ));
    assert_eq!(calls.get(), 0);
}

#[test]
fn wrong_credential_is_unauthorized_and_nothing_is_forwarded() {
    let calls = Cell::new(0u32);
    let route = JsonHandler::new(
        "https://destination.example/hook".to_string(),
        sample_key(1),
        |x: u64| {
            calls.set(calls.get() + 1);
            Ok::<u64, TransformError>(x)
        },
    );
    let engine = GenericHandler::new(
        route,
        |b: Vec<u8>| Ok::<u64, IngestionError>(b.len() as u64),
        |y: u64| format!("{}", y).into_bytes(),
    );
    let decision = handle(&engine, &json_ct(), &sample_key(2), b"{}".to_vec());
    assert!(matches!(
        decision,
        RelayDecision::Reject(RelayOutcome::Unauthorized)
    ));
    assert_eq!(calls.get(), 0);
}

#[test]
fn parse_failure_is_rejected_with_its_classification() {
    let engine = length_handler(sample_key(1));
    let decision = handle(&engine, &json_ct(), &sample_key(1), b"!bad".to_vec());
    assert!(matches!(
        decision,
        RelayDecision::Reject(RelayOutcome::BadRequest(IngestionError::SchemaViolation))
    ));
}

#[test]
fn unmapped_input_fails_only_this_request() {
    let engine = length_handler(sample_key(1));
    let decision = handle(&engine, &json_ct(), &sample_key(1), vec![b'x'; 13]);
    assert!(matches!(
        decision,
        RelayDecision::Reject(RelayOutcome::InternalMappingError)
    ));
}

#[test]
fn good_request_forwards_exactly_the_serialized_output() {
    let engine = length_handler(sample_key(1));
    let decision = handle(&engine, &json_ct(), &sample_key(1), vec![b'x'; 21]);
    match decision {
        RelayDecision::Forward(body) => assert_eq!(body, b"42".to_vec()),
        RelayDecision::Reject(_) => panic!("expected a forward decision"),
    }
}

#[test]
fn hundred_requests_give_independent_paired_outcomes() {
    let engine = length_handler(sample_key(1));
    for i in 0..100usize {
        let decision = handle(&engine, &json_ct(), &sample_key(1), vec![b'x'; i]);
        if i == 13 {
            assert!(matches!(
                decision,
                RelayDecision::Reject(RelayOutcome::InternalMappingError)
            ));
        } else {
            match decision {
                RelayDecision::Forward(body) => {
                    assert_eq!(body, format!("{}", 2 * i).into_bytes())
                }
                RelayDecision::Reject(_) => panic!("expected a forward decision"),
            }
        }
    }
}

#[test]
fn full_route_forwards_the_discord_message() {
    let route = JsonHandler::new(
        "https://destination.example/hook".to_string(),
        sample_key(3),
        todoist_to_webhook,
    );
    let engine = GenericHandler::new(
        route,
        |_b: Vec<u8>| Ok::<TodoistPayload, IngestionError>(note_added_payload("hello")),
        |out: DiscordWebhookPayload| out.content.into_bytes(),
    );
    let decision = handle(&engine, &json_ct(), &sample_key(3), b"{}".to_vec());
    match decision {
        RelayDecision::Forward(body) => assert_eq!(body, b"abx".to_vec()),
        RelayDecision::Reject(_) => panic!("expected a forward decision"),
    }
}

#[test]
fn forwarding_outcome_distinguishes_transport_failure() {
    assert_eq!(forwarding_outcome(true), RelayOutcome::Forwarded);
    assert_eq!(forwarding_outcome(false), RelayOutcome::ForwardingFailed);
    assert_ne!(
        webhook_relay::errors::http_status(&forwarding_outcome(false)),
        204
    );
}
