use transcribe::cleanup::{is_expired, is_result_name, Cleanup, CleanupEvent, CleanupStep};
use transcribe::json::record_document;
use transcribe::reply::ReplyFormat;
use transcribe::results::{document_reply, health, is_valid_task_id, result_reply, ResultFile};
use transcribe::storage::FileStorage;
use transcribe::task::TranscriptionTask;
use transcribe::topology::{
    bind_address, BrokerSettings, ACK_MULTIPLE, MAX_BODY_BYTES, MAX_UPLOAD_MB, PREFETCH_COUNT,
    PREFETCH_GLOBAL, PREFETCH_SIZE, REQUEUE_REJECTED, SHARED_DIR,
};
use transcribe::worker::{WorkerEvent, WorkerStep};

const ID: &str = "01234567-89ab-4cde-8f01-23456789abcd";

fn task() -> TranscriptionTask {
    TranscriptionTask {
        task_id: ID.to_string(),
        file_path: "/tmp/transcribe/x.ogg".to_string(),
        chat_id: "7".to_string(),
        message_id: None,
        filename: "x.ogg".to_string(),
        created_at: 5,
    }
}

#[test]
fn records_are_written_with_sorted_names() {
    assert_eq!(record_document(&vec![("b", "1"), ("a", "é\u{1}")]), "{\"a\":\"é\\u0001\",\"b\":\"1\"}");
    assert_eq!(record_document(&vec![]), "{}");
}

#[test]
fn service_is_healthy() {
    let reply = health();
    assert_eq!(reply.status, 200);
    assert_eq!(reply.format, ReplyFormat::Json);
    assert_eq!(reply.body, "{\"service\":\"transcribe-api\",\"status\":\"ok\"}");
}

#[test]
fn task_identifiers() {
    assert!(is_valid_task_id(ID));
    assert!(is_valid_task_id("абв-1"));
    assert!(is_valid_task_id(""));
    for id in ["../x", "a/b", "a.b", "a_b", "a b", "a\u{0}"] {
        assert!(!is_valid_task_id(id));
    }
}

#[test]
fn results_are_looked_up_in_the_directory() {
    let s = FileStorage::new("/data".to_string(), 500);
    assert_eq!(s.locate_result(ID).unwrap(), format!("/data/{}.json", ID));
    let refused = s.locate_result("../etc").unwrap_err();
    assert_eq!(refused.status, 400);
    assert_eq!(refused.format, ReplyFormat::PlainText);
    assert_eq!(refused.body, "Invalid task ID");
}

#[test]
fn result_replies() {
    let reply = result_reply(ResultFile::Content("{ \"text\" : \"hi\", \"a\": 1.50 }".to_string()));
    assert_eq!(reply.status, 200);
    assert_eq!(reply.format, ReplyFormat::Json);
    assert_eq!(reply.body, "{\"a\":1.5,\"text\":\"hi\"}");

    let reply = result_reply(ResultFile::Content("{".to_string()));
    assert_eq!((reply.status, reply.body.as_str()), (500, "Invalid JSON result"));
    assert_eq!(reply.format, ReplyFormat::PlainText);

    let reply = result_reply(ResultFile::NotFound);
    assert_eq!((reply.status, reply.body.as_str()), (404, "{\"status\":\"processing_or_not_found\"}"));
    assert_eq!(reply.format, ReplyFormat::Json);

    let reply = result_reply(ResultFile::Unreadable);
    assert_eq!((reply.status, reply.body.as_str()), (500, "Error reading result"));
    assert_eq!(reply.format, ReplyFormat::PlainText);

    assert_eq!(document_reply(Some("1".to_string())).body, "1");
    assert_eq!(document_reply(None).status, 500);
}

#[test]
fn old_results_are_removed() {
    assert!(!is_expired("t1.json", None, 3600));
    assert!(!is_expired("t1.json", Some(3600), 3600));
    assert!(is_expired("t1.json", Some(3601), 3600));
    assert!(!is_expired("u_voice.ogg", Some(3601), 3600));
}

#[test]
fn names_of_results() {
    for name in ["t1.json", ".json", "a.wav.json"] {
        assert!(is_result_name(name));
    }
    for name in ["", "json", "t1.JSON", "t1.json.ogg", "t1.json ", "u_voice.ogg"] {
        assert!(!is_result_name(name));
    }
}

/// What a sweep over these entries is to remove, if every removal ends like this.
fn swept(entries: &[(&str, Option<u64>)], max_age_secs: u64, works: bool) -> Vec<String> {
    let mut state = Cleanup { due_secs: 0, step: CleanupStep::NextEntry };
    let mut removed = Vec::new();
    for (name, age_secs) in entries {
        let entry = CleanupEvent::Entry { name: name.to_string(), age_secs: *age_secs };
        state = state.next(entry, max_age_secs);
        if state.step == CleanupStep::RemoveEntry {
            removed.push(name.to_string());
            let outcome = if works { CleanupEvent::Done } else { CleanupEvent::Failed };
            state = state.next(outcome, max_age_secs);
        }
        assert_eq!(state.step, CleanupStep::NextEntry);
    }
    removed
}

#[test]
fn a_sweep_takes_old_results_only() {
    let entries = [("u_voice.ogg", Some(7200)), ("t1.json", Some(7200))];
    assert_eq!(swept(&entries, 3600, true), vec!["t1.json"]);
    let entries = [
        ("a.json", Some(3)),
        ("b.json", Some(11)),
        ("c.json", None),
        ("d.wav", Some(99)),
        ("e.json", Some(10)),
        ("f.json", Some(99)),
    ];
    assert_eq!(swept(&entries, 10, true), vec!["b.json", "f.json"]);
    assert_eq!(swept(&entries, 10, false), vec!["b.json", "f.json"]);
}

#[test]
fn sweeps_are_made_at_once_and_then_at_intervals() {
    let mut state = Cleanup::start();
    assert_eq!(state, Cleanup { due_secs: 0, step: CleanupStep::AwaitSweep });
    for due_secs in [0, 600, 1200] {
        assert_eq!(state, Cleanup { due_secs, step: CleanupStep::AwaitSweep });
        state = state.next(CleanupEvent::Failed, 10);
        assert_eq!(state, Cleanup { due_secs, step: CleanupStep::AwaitSweep });
        state = state.next(CleanupEvent::Done, 10);
        assert_eq!(state, Cleanup { due_secs, step: CleanupStep::OpenDir });
        state = state.next(CleanupEvent::Done, 10);
        assert_eq!(state, Cleanup { due_secs, step: CleanupStep::NextEntry });
        state = state.next(CleanupEvent::NoMoreEntries, 10);
    }
    let last = Cleanup { due_secs: u64::MAX - 1, step: CleanupStep::OpenDir };
    assert_eq!(last.next(CleanupEvent::Failed, 10).due_secs, u64::MAX);
}

#[test]
fn failures_end_a_sweep_but_not_the_work() {
    let waiting = Cleanup { due_secs: 600, step: CleanupStep::AwaitSweep };
    let opening = Cleanup { due_secs: 0, step: CleanupStep::OpenDir };
    assert_eq!(opening.next(CleanupEvent::Failed, 10), waiting);
    let listing = Cleanup { due_secs: 0, step: CleanupStep::NextEntry };
    assert_eq!(listing.next(CleanupEvent::Failed, 10), waiting);
    let removing = Cleanup { due_secs: 0, step: CleanupStep::RemoveEntry };
    assert_eq!(removing.next(CleanupEvent::Failed, 10), listing);
    // From anywhere, the directory is opened again although everything fails.
    for state in [waiting, opening, listing, removing] {
        let state = state.next(CleanupEvent::Failed, 10).next(CleanupEvent::Failed, 10);
        assert_eq!(state.next(CleanupEvent::Done, 10).step, CleanupStep::OpenDir);
    }
}

#[test]
fn how_messages_are_settled() {
    assert!(!REQUEUE_REJECTED);
    assert!(!ACK_MULTIPLE);
    assert_eq!((PREFETCH_SIZE, PREFETCH_COUNT, PREFETCH_GLOBAL), (0, 1, false));
}

#[test]
fn paths_and_programs_of_a_task() {
    let t = task();
    let wav = format!("/tmp/transcribe/{}.wav", ID);
    assert_eq!(t.wav_path(), wav);
    assert_eq!(t.output_path(), format!("{}.json", wav));
    let convert = t.convert_invocation();
    assert_eq!(convert.program, "ffmpeg");
    assert_eq!(
        convert.args,
        vec![
            "-y", "-i", "/tmp/transcribe/x.ogg", "-ar", "16000", "-ac", "1", "-c:a", "pcm_s16le",
            wav.as_str()
        ]
    );
    let transcribe = t.transcribe_invocation();
    assert_eq!(transcribe.program, "whisper-cli");
    assert_eq!(
        transcribe.args,
        vec!["-m", "/models/ggml-small.bin", "-l", "auto", "-f", wav.as_str(), "-oj"]
    );
}

#[test]
fn a_kept_result_is_served() {
    let service = FileStorage::new(SHARED_DIR.to_string(), MAX_UPLOAD_MB);
    assert_eq!(service.locate_result(ID).unwrap(), task().kept_path());
    let reading = WorkerStep::ReadOutput { task: task() };
    let output = "{\"transcription\":[{\"text\":\" Hi \"}]}".to_string();
    match reading.next(WorkerEvent::Content(output)) {
        WorkerStep::WriteResult { document, .. } => {
            assert_eq!(document, "{\"text\":\"Hi\"}");
            assert_eq!(result_reply(ResultFile::Content(document.clone())).body, document);
        }
        other => panic!("{:?}", other),
    }
}

#[test]
fn messages_that_are_no_task_are_rejected() {
    assert!(matches!(WorkerStep::start(vec![0xff]), WorkerStep::Reject));
    let step = WorkerStep::start("{\"я\":1}".as_bytes().to_vec());
    match &step {
        WorkerStep::DecodeTask { json } => assert_eq!(json, "{\"я\":1}"),
        other => panic!("{:?}", other),
    }
    let step = step.next(WorkerEvent::Failed);
    assert!(matches!(step, WorkerStep::Reject));
    assert!(matches!(step.next(WorkerEvent::Done), WorkerStep::Finished));
}

fn name(step: &WorkerStep) -> &'static str {
    match step {
        WorkerStep::DecodeTask { .. } => "decode",
        WorkerStep::Reject => "reject",
        WorkerStep::Convert { .. } => "convert",
        WorkerStep::Transcribe { .. } => "transcribe",
        WorkerStep::ReadOutput { .. } => "read",
        WorkerStep::WriteResult { .. } => "write",
        WorkerStep::RemoveOutput { .. } => "remove output",
        WorkerStep::RemoveUpload { .. } => "remove upload",
        WorkerStep::RemoveWav { .. } => "remove wav",
        WorkerStep::Acknowledge { .. } => "acknowledge",
        WorkerStep::Finished => "finished",
    }
}

/// The steps of the work on a task where the step named `failing` fails.
fn work(failing: &str, output: &str) -> Vec<&'static str> {
    let mut step = WorkerStep::start(b"{}".to_vec());
    let mut names = Vec::new();
    loop {
        names.push(name(&step));
        let event = match &step {
            WorkerStep::Finished => return names,
            _ if name(&step) == failing => WorkerEvent::Failed,
            WorkerStep::DecodeTask { .. } => WorkerEvent::Decoded(task()),
            WorkerStep::ReadOutput { .. } => WorkerEvent::Content(output.to_string()),
            _ => WorkerEvent::Done,
        };
        step = step.next(event);
    }
}

#[test]
fn work_ends_clean_whatever_fails() {
    let end = vec!["remove upload", "remove wav", "acknowledge", "finished"];
    let full = [
        vec!["decode", "convert", "transcribe", "read", "write", "remove output"],
        end.clone(),
    ]
    .concat();
    for failing in ["", "write", "remove output", "remove upload", "remove wav", "acknowledge"] {
        assert_eq!(work(failing, "{}"), full);
    }
    assert_eq!(work("decode", "{}"), vec!["decode", "reject", "finished"]);
    assert_eq!(work("convert", "{}"), [vec!["decode", "convert"], end.clone()].concat());
    assert_eq!(
        work("transcribe", "{}"),
        [vec!["decode", "convert", "transcribe"], end.clone()].concat()
    );
    let unread = [vec!["decode", "convert", "transcribe", "read", "remove output"], end].concat();
    assert_eq!(work("read", "{}"), unread);
    assert_eq!(work("", "no json"), unread);
}

#[test]
fn settings_have_defaults() {
    let broker = BrokerSettings::from_vars(None, None, None);
    assert_eq!((broker.host.as_str(), broker.user.as_str(), broker.password.as_str()), ("localhost", "guest", "guest"));
    let broker = BrokerSettings::from_vars(Some("h".to_string()), Some("u".to_string()), Some(String::new()));
    assert_eq!((broker.host.as_str(), broker.user.as_str(), broker.password.as_str()), ("h", "u", ""));
    assert_eq!(bind_address(None), "127.0.0.1:3000");
    assert_eq!(bind_address(Some("0.0.0.0".to_string())), "0.0.0.0:3000");
    assert_eq!(MAX_BODY_BYTES, 500 * 1024 * 1024);
}
