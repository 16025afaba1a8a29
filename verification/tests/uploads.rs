use transcribe::error::{file_outcome, BrokerStage, FileStage, TranscribeError};
use transcribe::publishing::{PublishEvent, PublishStep, QueueBinding};
use transcribe::saving::{SaveEvent, SaveStep};
use transcribe::storage::FileStorage;
use transcribe::upload::{Upload, UploadEvent, UploadStep};

const ID: &str = "01234567-89ab-4cde-8f01-23456789abcd";

fn message(error: TranscribeError) -> String {
    match error {
        TranscribeError::FileOperation(m) => format!("file: {}", m),
        TranscribeError::RabbitMQ(m) => format!("broker: {}", m),
        TranscribeError::Validation(m) => format!("validation: {}", m),
    }
}

fn save(storage: &FileStorage, chunks: &[u64]) -> (bool, Result<u64, String>) {
    let mut removed = false;
    let mut pending = chunks.iter();
    let mut step = SaveStep::CreateFile;
    loop {
        let event = match &step {
            SaveStep::ReadChunk { .. } => match pending.next() {
                Some(size) => SaveEvent::Chunk(*size),
                None => SaveEvent::EndOfField,
            },
            SaveStep::RemoveFile => {
                removed = true;
                SaveEvent::Done
            }
            SaveStep::Finished(_) => break,
            _ => SaveEvent::Done,
        };
        step = storage.save_next(step, event);
    }
    match step {
        SaveStep::Finished(outcome) => (removed, outcome.map_err(message)),
        _ => panic!("not finished"),
    }
}

#[test]
fn files_up_to_the_limit_are_saved() {
    let s = FileStorage::new("/data".to_string(), 1);
    assert_eq!(save(&s, &[]), (false, Ok(0)));
    assert_eq!(save(&s, &[1_000_000, 0, 48_576]), (false, Ok(1_048_576)));
}

#[test]
fn larger_files_are_removed_and_refused() {
    let s = FileStorage::new("/data".to_string(), 1);
    let refused = Err("validation: File size exceeds limit of 1 MB".to_string());
    assert_eq!(save(&s, &[1_000_000, 48_577]), (true, refused.clone()));
    assert_eq!(save(&s, &[1, u64::MAX]), (true, refused));
    let big = FileStorage::new("/data".to_string(), 500);
    assert_eq!(
        save(&big, &[524_288_001]),
        (true, Err("validation: File size exceeds limit of 500 MB".to_string()))
    );
}

#[test]
fn every_failure_of_a_save_has_its_message() {
    let s = FileStorage::new("/data".to_string(), 1);
    let cases = vec![
        (SaveStep::CreateFile, "file: Cannot create file: why"),
        (SaveStep::ReadChunk { total: 1 }, "file: Failed to read chunk: why"),
        (SaveStep::WriteChunk { total: 1 }, "file: Failed to write chunk: why"),
        (SaveStep::FlushBuffer { total: 1 }, "file: Failed to flush buffer: why"),
        (SaveStep::SyncFile { total: 1 }, "file: Failed to sync file: why"),
        (SaveStep::RemoveFile, "validation: File size exceeds limit of 1 MB"),
    ];
    for (step, expected) in cases {
        match s.save_next(step, SaveEvent::Failed("why".to_string())) {
            SaveStep::Finished(Err(error)) => assert_eq!(message(error), expected),
            other => panic!("{:?}", other),
        }
    }
}

#[test]
fn unexpected_events_change_nothing() {
    let s = FileStorage::new("/data".to_string(), 1);
    assert!(matches!(s.save_next(SaveStep::CreateFile, SaveEvent::Chunk(1)), SaveStep::CreateFile));
    assert!(matches!(
        s.save_next(SaveStep::Finished(Ok(3)), SaveEvent::Done),
        SaveStep::Finished(Ok(3))
    ));
}

#[test]
fn a_task_is_published_as_encoded() {
    let step = PublishStep::EncodeTask.next(PublishEvent::Encoded(vec![1, 2, 3]));
    match &step {
        PublishStep::DeclareExchange { name, kind, .. } => {
            assert_eq!(name, "transcribe");
            assert_eq!(kind, "direct");
        }
        other => panic!("{:?}", other),
    }
    let step = step.next(PublishEvent::Done);
    match &step {
        PublishStep::SendMessage { message } => {
            let binding = QueueBinding::of_tasks();
            assert_eq!(message.payload, vec![1, 2, 3]);
            assert_eq!(message.exchange, "transcribe");
            assert_eq!(message.routing_key, "transcribe.task");
            assert_eq!(message.delivery_mode, 2);
            assert_eq!(message.exchange, binding.exchange);
            assert_eq!(message.routing_key, binding.routing_key);
            assert_eq!(binding.queue, "transcribe.task");
        }
        other => panic!("{:?}", other),
    }
    assert!(matches!(step.next(PublishEvent::Done), PublishStep::Finished(Ok(()))));
}

fn declaring() -> PublishStep {
    PublishStep::EncodeTask.next(PublishEvent::Encoded(vec![]))
}

#[test]
fn every_failure_of_a_publication_has_its_message() {
    let cases = vec![
        (PublishStep::EncodeTask, "broker: JSON serialization failed: why"),
        (declaring(), "broker: Failed to declare exchange: why"),
        (declaring().next(PublishEvent::Done), "broker: Publish failed: why"),
    ];
    for (step, expected) in cases {
        match step.next(PublishEvent::Failed("why".to_string())) {
            PublishStep::Finished(Err(error)) => assert_eq!(message(error), expected),
            other => panic!("{:?}", other),
        }
    }
}

#[test]
fn errors_have_their_status_and_body() {
    let reply = TranscribeError::validation("bad \"name\"").into_response();
    assert_eq!(reply.status, 400);
    assert_eq!(reply.body, "{\"error\":\"bad \\\"name\\\"\"}");
    let reply = TranscribeError::file_operation(FileStage::CreateDir, "full").into_response();
    assert_eq!(reply.status, 500);
    assert_eq!(reply.body, "{\"error\":\"Cannot create tmp dir: full\"}");
    let reply = TranscribeError::broker(BrokerStage::Publish, "gone").into_response();
    assert_eq!(reply.status, 503);
    assert_eq!(reply.body, "{\"error\":\"Publish failed: gone\"}");
}

#[test]
fn outcomes_of_file_operations() {
    assert!(file_outcome(FileStage::DeleteFile, Ok(())).is_ok());
    assert_eq!(
        message(file_outcome(FileStage::DeleteFile, Err("gone".to_string())).unwrap_err()),
        "file: Cannot delete file: gone"
    );
}

fn upload() -> Upload {
    Upload {
        storage: FileStorage::new("/data".to_string(), 500),
        chat_id: "7".to_string(),
        message_id: Some("8".to_string()),
    }
}

fn form_field(name: Option<&str>, file_name: Option<&str>) -> UploadEvent {
    UploadEvent::Field {
        name: name.map(|s| s.to_string()),
        file_name: file_name.map(|s| s.to_string()),
    }
}

fn next(step: UploadStep, event: UploadEvent) -> UploadStep {
    upload().next_with(step, event, ID.to_string(), 1234)
}

fn refusal(step: UploadStep) -> String {
    match step {
        UploadStep::Finished(Err(error)) => message(error),
        other => panic!("{:?}", other),
    }
}

#[test]
fn an_upload_is_queued() {
    let step = next(UploadStep::CreateDir, UploadEvent::Done);
    assert!(matches!(step, UploadStep::ReadField));
    let step = next(step, form_field(Some("comment"), None));
    assert!(matches!(step, UploadStep::ReadField));
    let step = next(step, form_field(Some("file"), Some("a b.mp3")));
    let stored = format!("/data/{}_ab.mp3.mp3", ID);
    match &step {
        UploadStep::SaveFile { path, filename } => {
            assert_eq!(path, &stored);
            assert_eq!(filename, "a b.mp3");
        }
        other => panic!("{:?}", other),
    }
    let step = next(step, UploadEvent::Saved(Ok(10)));
    match &step {
        UploadStep::PublishTask { task } => {
            assert_eq!(task.task_id, ID);
            assert_eq!(task.file_path, stored);
            assert_eq!(task.chat_id, "7");
            assert_eq!(task.message_id, Some("8".to_string()));
            assert_eq!(task.filename, "a b.mp3");
            assert_eq!(task.created_at, 1234);
        }
        other => panic!("{:?}", other),
    }
    match next(step, UploadEvent::Published(Ok(()))) {
        UploadStep::Finished(Ok(response)) => {
            assert_eq!(response.task_id, ID);
            assert_eq!(response.status, "queued");
            assert_eq!(response.file_path, stored);
        }
        other => panic!("{:?}", other),
    }
}

#[test]
fn fields_without_names_have_defaults() {
    match next(UploadStep::ReadField, form_field(None, None)) {
        UploadStep::SaveFile { path, filename } => {
            assert_eq!(path, format!("/data/{}_audio.ogg.ogg", ID));
            assert_eq!(filename, "audio.ogg");
        }
        other => panic!("{:?}", other),
    }
}

#[test]
fn only_the_first_file_field_counts() {
    let step = next(UploadStep::ReadField, form_field(Some("note"), Some("z.wav")));
    assert!(matches!(step, UploadStep::ReadField));
    let step = next(step, form_field(Some("file"), Some("a.ogg")));
    let step = next(step, form_field(Some("file"), Some("b.mp3")));
    match next(step, UploadEvent::NoMoreFields) {
        UploadStep::SaveFile { path, .. } => assert!(path.ends_with("_a.ogg.ogg")),
        other => panic!("{:?}", other),
    }
    // A first file that is refused is not made up for by a second one.
    let step = next(UploadStep::ReadField, form_field(Some("file"), Some("a.txt")));
    let refused = refusal(next(step, form_field(Some("file"), Some("b.mp3"))));
    assert!(refused.contains("Unsupported audio format"));
}

#[test]
fn refused_forms() {
    assert_eq!(
        refusal(next(UploadStep::ReadField, UploadEvent::NoMoreFields)),
        "validation: No file uploaded"
    );
    assert_eq!(
        refusal(next(UploadStep::ReadField, form_field(Some("file"), Some("a.txt")))),
        "validation: Unsupported audio format. Allowed: ogg, mp3, wav, webm, m4a"
    );
    let long = format!("{}.ogg", "a".repeat(252));
    assert_eq!(
        refusal(next(UploadStep::ReadField, form_field(Some("file"), Some(&long)))),
        "validation: Invalid filename length"
    );
    assert_eq!(
        refusal(next(UploadStep::ReadField, UploadEvent::Failed("eof".to_string()))),
        "file: Multipart parsing failed: eof"
    );
    assert_eq!(
        refusal(next(UploadStep::CreateDir, UploadEvent::Failed("full".to_string()))),
        "file: Cannot create tmp dir: full"
    );
}

#[test]
fn failed_uploads_are_rolled_back() {
    let saving = UploadStep::SaveFile { path: "/data/x".to_string(), filename: "x.ogg".to_string() };
    let step = next(saving, UploadEvent::Saved(Err(TranscribeError::validation("large"))));
    match &step {
        UploadStep::DeleteFile { path, .. } => assert_eq!(path, "/data/x"),
        other => panic!("{:?}", other),
    }
    assert_eq!(refusal(next(step, UploadEvent::Failed("gone".to_string()))), "validation: large");

    let saving = UploadStep::SaveFile { path: "/data/x".to_string(), filename: "x.ogg".to_string() };
    let step = next(saving, UploadEvent::Saved(Ok(1)));
    let failed = TranscribeError::broker(BrokerStage::Publish, "down");
    let step = next(step, UploadEvent::Published(Err(failed)));
    match &step {
        UploadStep::DeleteFile { path, .. } => assert_eq!(path, "/data/x"),
        other => panic!("{:?}", other),
    }
    assert_eq!(refusal(next(step, UploadEvent::Done)), "broker: Publish failed: down");
}

#[test]
fn identifiers_and_time_are_drawn() {
    let u = upload();
    let step = u.next(UploadStep::ReadField, form_field(Some("file"), Some("a.ogg")));
    let first = match &step {
        UploadStep::SaveFile { path, .. } => path.clone(),
        other => panic!("{:?}", other),
    };
    assert!(first.starts_with("/data/") && first.ends_with("_a.ogg.ogg"));
    match u.next(step, UploadEvent::Saved(Ok(1))) {
        UploadStep::PublishTask { task } => {
            assert_eq!(task.file_path, first);
            assert_eq!(task.task_id.len(), 36);
            assert!(!first.contains(&task.task_id));
            // Later than the year 2020.
            assert!(task.created_at > 1_577_836_800);
        }
        other => panic!("{:?}", other),
    }
    assert!(matches!(u.next(UploadStep::CreateDir, UploadEvent::Done), UploadStep::ReadField));
}

#[test]
fn an_oversized_upload_is_refused() {
    let s = FileStorage::new("/data".to_string(), 1);
    let mut step = s.save_next(SaveStep::ReadChunk { total: 0 }, SaveEvent::Chunk(1_048_577));
    step = s.save_next(step, SaveEvent::Done);
    let saved = match step {
        SaveStep::Finished(outcome) => outcome,
        other => panic!("{:?}", other),
    };
    let saving = UploadStep::SaveFile { path: "/data/x".to_string(), filename: "x.ogg".to_string() };
    let step = next(next(saving, UploadEvent::Saved(saved)), UploadEvent::Done);
    match step {
        UploadStep::Finished(Err(error)) => {
            let reply = error.into_response();
            assert_eq!(reply.status, 400);
            assert_eq!(reply.body, "{\"error\":\"File size exceeds limit of 1 MB\"}");
        }
        other => panic!("{:?}", other),
    }
}
