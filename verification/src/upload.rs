//! Taking in an upload: from the form to the queue.

use crate::error::{
    broker_error, error_status, file_error, BrokerStage, ErrorView, FileStage, TranscribeError,
};
use crate::file_name::{
    check_format, extension, law_accepted_formats, sanitized, supported_name, unsupported_format,
};
use crate::fresh::{
    drawn_time, drawn_uuid, fresh_uuid, law_drawn_from_the_source, lemma_nil_uuid, nil_uuid,
    unix_now, uuid_text,
};
use crate::saving::{
    chunk_events, law_saved_within_limit, save_run, size_error, total_size, SaveEventView,
    SaveStepView,
};
use crate::storage::{
    law_extension_is_kept, law_refused_names, law_stored_path, name_error, stored_path, FileStorage,
};
use crate::task::{
    optional_text, queued, ResponseView, TaskView, TranscriptionResponse, TranscriptionTask,
};
use crate::text::same_text;
use vstd::prelude::*;
use vstd::string::*;
use vstd::utf8::encode_utf8;

verus! {

/// A request to transcribe a file.
#[derive(Debug)]
pub struct Upload {
    pub storage: FileStorage,
    pub chat_id: String,
    pub message_id: Option<String>,
}

/// The contents of a request, as far as a task depends on them.
#[verifier::ext_equal]
pub struct UploadView {
    pub dir: Seq<char>,
    pub chat_id: Seq<char>,
    pub message_id: Option<Seq<char>>,
}

impl View for Upload {
    type V = UploadView;

    open spec fn view(&self) -> UploadView {
        UploadView {
            dir: self.storage.tmp_dir@,
            chat_id: self.chat_id@,
            message_id: optional_text(self.message_id),
        }
    }
}

/// What is to be done next for an upload.
#[derive(Debug)]
pub enum UploadStep {
    /// Make sure that the directory of the storage is there.
    CreateDir,
    /// Read the next field of the form.
    ReadField,
    /// Save the current field at `path`. It was uploaded under `filename`.
    SaveFile { path: String, filename: String },
    /// Hand the task to the message broker.
    PublishTask { task: TranscriptionTask },
    /// Remove the file of an upload that failed for the reason `error`.
    DeleteFile { path: String, error: TranscribeError },
    /// Nothing: this is the answer.
    Finished(Result<TranscriptionResponse, TranscribeError>),
}

/// The contents of a step.
#[verifier::ext_equal]
pub enum UploadStepView {
    CreateDir,
    ReadField,
    SaveFile { path: Seq<char>, filename: Seq<char> },
    PublishTask { task: TaskView },
    DeleteFile { path: Seq<char>, error: ErrorView },
    Finished(Result<ResponseView, ErrorView>),
}

impl View for UploadStep {
    type V = UploadStepView;

    open spec fn view(&self) -> UploadStepView {
        match self {
            UploadStep::CreateDir => UploadStepView::CreateDir,
            UploadStep::ReadField => UploadStepView::ReadField,
            UploadStep::SaveFile { path, filename } => UploadStepView::SaveFile {
                path: path@,
                filename: filename@,
            },
            UploadStep::PublishTask { task } => UploadStepView::PublishTask { task: task@ },
            UploadStep::DeleteFile { path, error } => UploadStepView::DeleteFile {
                path: path@,
                error: error@,
            },
            UploadStep::Finished(Ok(response)) => UploadStepView::Finished(Ok(response@)),
            UploadStep::Finished(Err(error)) => UploadStepView::Finished(Err(error@)),
        }
    }
}

/// What came of the step that was to be done.
#[derive(Debug)]
pub enum UploadEvent {
    /// The directory is there, or the file is removed.
    Done,
    /// The step failed, for this reason.
    Failed(String),
    /// The form has a further field, with the name and the file name it states.
    Field { name: Option<String>, file_name: Option<String> },
    /// The form has no further field.
    NoMoreFields,
    /// The field was saved with this size, or not.
    Saved(Result<u64, TranscribeError>),
    /// The task was published, or not.
    Published(Result<(), TranscribeError>),
}

/// The contents of an event.
#[verifier::ext_equal]
pub enum UploadEventView {
    Done,
    Failed(Seq<char>),
    Field { name: Option<Seq<char>>, file_name: Option<Seq<char>> },
    NoMoreFields,
    Saved(Result<u64, ErrorView>),
    Published(Result<(), ErrorView>),
}

impl View for UploadEvent {
    type V = UploadEventView;

    open spec fn view(&self) -> UploadEventView {
        match self {
            UploadEvent::Done => UploadEventView::Done,
            UploadEvent::Failed(detail) => UploadEventView::Failed(detail@),
            UploadEvent::Field { name, file_name } => UploadEventView::Field {
                name: optional_text(*name),
                file_name: optional_text(*file_name),
            },
            UploadEvent::NoMoreFields => UploadEventView::NoMoreFields,
            UploadEvent::Saved(Ok(size)) => UploadEventView::Saved(Ok(*size)),
            UploadEvent::Saved(Err(error)) => UploadEventView::Saved(Err(error@)),
            UploadEvent::Published(Ok(_)) => UploadEventView::Published(Ok(())),
            UploadEvent::Published(Err(error)) => UploadEventView::Published(Err(error@)),
        }
    }
}

/// The field that holds the upload: the one named `file`, or one without a name.
pub open spec fn is_file_field(name: Option<Seq<char>>) -> bool {
    match name {
        Some(name) => name == "file"@,
        None => true,
    }
}

/// The name of an uploaded file, with a default where the form states none.
pub open spec fn upload_name(file_name: Option<Seq<char>>) -> Seq<char> {
    match file_name {
        Some(name) => name,
        None => "audio.ogg"@,
    }
}

/// What follows on the field that holds the upload: it is refused for its format
/// or for its name, or saved under a path made unique by `id`.
pub open spec fn after_file_field(
    dir: Seq<char>,
    filename: Seq<char>,
    id: Seq<char>,
) -> UploadStepView {
    if !supported_name(filename) {
        UploadStepView::Finished(Err(unsupported_format()))
    } else {
        match name_error(filename) {
            Some(error) => UploadStepView::Finished(Err(error)),
            None => UploadStepView::SaveFile { path: stored_path(dir, id, filename), filename },
        }
    }
}

/// The step that follows on `event`. Where the step needs an identifier, it is
/// `id`; where it needs the time, it is `now`. An event that does not answer the
/// step leaves it as it is.
pub open spec fn upload_next(
    upload: UploadView,
    step: UploadStepView,
    event: UploadEventView,
    id: Seq<char>,
    now: i64,
) -> UploadStepView {
    match (step, event) {
        (UploadStepView::CreateDir, UploadEventView::Done) => UploadStepView::ReadField,
        (UploadStepView::CreateDir, UploadEventView::Failed(detail)) => UploadStepView::Finished(
            Err(file_error(FileStage::CreateDir, detail)),
        ),
        (UploadStepView::ReadField, UploadEventView::Field { name, file_name }) =>
            if is_file_field(name) {
                after_file_field(upload.dir, upload_name(file_name), id)
            } else {
                UploadStepView::ReadField
            },
        (UploadStepView::ReadField, UploadEventView::NoMoreFields) => UploadStepView::Finished(
            Err(ErrorView::Validation("No file uploaded"@)),
        ),
        (UploadStepView::ReadField, UploadEventView::Failed(detail)) => UploadStepView::Finished(
            Err(file_error(FileStage::ParseMultipart, detail)),
        ),
        (UploadStepView::SaveFile { path, filename }, UploadEventView::Saved(Ok(_))) =>
            UploadStepView::PublishTask {
                task: TaskView {
                    task_id: id,
                    file_path: path,
                    chat_id: upload.chat_id,
                    message_id: upload.message_id,
                    filename,
                    created_at: now,
                },
            },
        (UploadStepView::SaveFile { path, .. }, UploadEventView::Saved(Err(error))) =>
            UploadStepView::DeleteFile { path, error },
        (UploadStepView::PublishTask { task }, UploadEventView::Published(Ok(_))) =>
            UploadStepView::Finished(Ok(queued(task))),
        (UploadStepView::PublishTask { task }, UploadEventView::Published(Err(error))) =>
            UploadStepView::DeleteFile { path: task.file_path, error },
        (UploadStepView::DeleteFile { error, .. }, UploadEventView::Done) =>
            UploadStepView::Finished(Err(error)),
        (UploadStepView::DeleteFile { error, .. }, UploadEventView::Failed(_)) =>
            UploadStepView::Finished(Err(error)),
        (step, _) => step,
    }
}

impl Upload {
    fn after_file_field(&self, file_name: Option<String>, id: &str) -> (r: UploadStep)
        ensures
            r@ == after_file_field(
                self@.dir,
                upload_name(optional_text(file_name)),
                id@,
            ),
    {
        let filename = match file_name {
            Some(name) => name,
            None => "audio.ogg".to_owned(),
        };
        if let Err(error) = check_format(filename.as_str()) {
            return UploadStep::Finished(Err(error));
        }
        match self.storage.file_path_with_id(filename.as_str(), id) {
            Ok(path) => UploadStep::SaveFile { path, filename },
            Err(error) => UploadStep::Finished(Err(error)),
        }
    }

    /// The step that follows on `event`, with the identifier and the time that
    /// it may need.
    pub fn next_with(&self, step: UploadStep, event: UploadEvent, id: String, now: i64) -> (r:
        UploadStep)
        ensures
            r@ == upload_next(self@, step@, event@, id@, now),
            (step, event) matches (
                UploadStep::SaveFile { path, filename },
                UploadEvent::Saved(Ok(_)),
            ) ==> (r matches UploadStep::PublishTask { task } && task.task_id@ == id@
                && task.file_path@ == path@ && task.chat_id@ == self.chat_id@ && optional_text(
                task.message_id,
            ) == optional_text(self.message_id) && task.filename@ == filename@ && task.created_at
                == now),
            (step, event) matches (
                UploadStep::PublishTask { task },
                UploadEvent::Published(Ok(_)),
            ) ==> (r matches UploadStep::Finished(Ok(response)) && response.task_id@
                == task.task_id@ && response.file_path@ == task.file_path@ && response.status@
                == "queued"@),
            (step, event) matches (
                UploadStep::ReadField,
                UploadEvent::Field { file_name: Some(file_name), .. },
            ) ==> (r matches UploadStep::SaveFile { path, filename } ==> filename@ == file_name@
                && (self.storage.tmp_dir@ + "/"@ + id@ + "_"@).is_prefix_of(path@)),
            (step, event) matches (
                UploadStep::SaveFile { path, .. },
                UploadEvent::Saved(Err(error)),
            ) ==> (r matches UploadStep::DeleteFile { path: removed, error: told } && removed@
                == path@ && told@ == error@),
            (step, event) matches (
                UploadStep::PublishTask { task },
                UploadEvent::Published(Err(error)),
            ) ==> (r matches UploadStep::DeleteFile { path: removed, error: told } && removed@
                == task.file_path@ && told@ == error@),
    {
        match (step, event) {
            (UploadStep::CreateDir, UploadEvent::Done) => UploadStep::ReadField,
            (UploadStep::CreateDir, UploadEvent::Failed(detail)) => UploadStep::Finished(
                Err(TranscribeError::file_operation(FileStage::CreateDir, detail.as_str())),
            ),
            (UploadStep::ReadField, UploadEvent::Field { name, file_name }) => {
                let is_file = match name {
                    Some(name) => same_text(name.as_str(), "file"),
                    None => true,
                };
                if is_file {
                    self.after_file_field(file_name, id.as_str())
                } else {
                    UploadStep::ReadField
                }
            },
            (UploadStep::ReadField, UploadEvent::NoMoreFields) => UploadStep::Finished(
                Err(TranscribeError::validation("No file uploaded")),
            ),
            (UploadStep::ReadField, UploadEvent::Failed(detail)) => UploadStep::Finished(
                Err(TranscribeError::file_operation(FileStage::ParseMultipart, detail.as_str())),
            ),
            (UploadStep::SaveFile { path, filename }, UploadEvent::Saved(Ok(_))) => {
                let message_id = match &self.message_id {
                    Some(message_id) => Some(message_id.clone()),
                    None => None,
                };
                UploadStep::PublishTask {
                    task: TranscriptionTask {
                        task_id: id,
                        file_path: path,
                        chat_id: self.chat_id.clone(),
                        message_id,
                        filename,
                        created_at: now,
                    },
                }
            },
            (UploadStep::SaveFile { path, .. }, UploadEvent::Saved(Err(error))) =>
                UploadStep::DeleteFile { path, error },
            (UploadStep::PublishTask { task }, UploadEvent::Published(Ok(_))) =>
                UploadStep::Finished(Ok(TranscriptionResponse::queued(&task))),
            (UploadStep::PublishTask { task }, UploadEvent::Published(Err(error))) =>
                UploadStep::DeleteFile { path: task.file_path, error },
            (UploadStep::DeleteFile { error, .. }, UploadEvent::Done) => UploadStep::Finished(
                Err(error),
            ),
            (UploadStep::DeleteFile { error, .. }, UploadEvent::Failed(_)) =>
                UploadStep::Finished(Err(error)),
            (step, _) => step,
        }
    }

    /// The step that follows on `event`. It draws a random identifier for the
    /// path of a file and for a task, and takes the time for a task.
    pub fn next(&self, step: UploadStep, event: UploadEvent) -> (r: UploadStep)
        ensures
            exists|id: Seq<char>, now: i64|
                #![trigger upload_next(self@, step@, event@, id, now)]
                uuid_text(id) && now >= 0 && r@ == upload_next(self@, step@, event@, id, now),
            (step, event) matches (
                UploadStep::SaveFile { path, filename },
                UploadEvent::Saved(Ok(_)),
            ) ==> (r matches UploadStep::PublishTask { task } && drawn_uuid(task.task_id@)
                && drawn_time(task.created_at) && task.file_path@ == path@ && task.chat_id@
                == self.chat_id@ && optional_text(task.message_id) == optional_text(
                self.message_id,
            ) && task.filename@ == filename@),
            (step, event) matches (UploadStep::ReadField, UploadEvent::Field { .. }) ==> exists|
                id: Seq<char>,
            | #[trigger]
                drawn_uuid(id) && forall|now: i64| #[trigger]
                    upload_next(self@, step@, event@, id, now) == r@,
            !((step, event) matches (UploadStep::ReadField, UploadEvent::Field { .. }))
                && !((step, event) matches (
                UploadStep::SaveFile { .. },
                UploadEvent::Saved(Ok(_)),
            )) ==> forall|id: Seq<char>, now: i64| #[trigger]
                upload_next(self@, step@, event@, id, now) == r@,
    {
        let (id, now): (String, i64) = match (&step, &event) {
            (UploadStep::ReadField, UploadEvent::Field { .. }) => (fresh_uuid(), 0),
            (UploadStep::SaveFile { .. }, UploadEvent::Saved(Ok(_))) => (
                fresh_uuid(),
                unix_now(),
            ),
            _ => (String::new(), 0),
        };
        let ghost (some_id, time) = (if uuid_text(id@) {
            id@
        } else {
            nil_uuid()
        }, now);
        proof {
            lemma_nil_uuid();
            law_drawn_from_the_source(id@, now);
        }
        let ghost (drawn, done) = (id@, event@);
        let ghost before = step@;
        let r = self.next_with(step, event, id, now);
        assert(r@ == upload_next(self@, before, done, some_id, time));
        assert(before is ReadField && done is Field ==> forall|now: i64| #[trigger]
            upload_next(self@, before, done, drawn, now) == r@);
        r
    }
}

/// Where an upload stands after `inputs`: each holds an event, and the
/// identifier and the time that were drawn on it.
pub open spec fn upload_run(
    upload: UploadView,
    step: UploadStepView,
    inputs: Seq<(UploadEventView, Seq<char>, i64)>,
) -> UploadStepView
    decreases inputs.len(),
{
    if inputs.len() == 0 {
        step
    } else {
        let (event, id, now) = inputs.first();
        upload_run(upload, upload_next(upload, step, event, id, now), inputs.drop_first())
    }
}

/// Whether an upload comes to a step that satisfies `target` in the course of
/// `inputs`.
pub open spec fn upload_visits(
    upload: UploadView,
    step: UploadStepView,
    inputs: Seq<(UploadEventView, Seq<char>, i64)>,
    target: spec_fn(UploadStepView) -> bool,
) -> bool
    decreases inputs.len(),
{
    target(step) || (inputs.len() > 0 && {
        let (event, id, now) = inputs.first();
        upload_visits(
            upload,
            upload_next(upload, step, event, id, now),
            inputs.drop_first(),
            target,
        )
    })
}

/// The step removes the file at `path`.
pub open spec fn deletes(path: Seq<char>) -> spec_fn(UploadStepView) -> bool {
    |step: UploadStepView| step is DeleteFile && step->DeleteFile_path == path
}

/// The step removes a file.
pub open spec fn deletes_any() -> spec_fn(UploadStepView) -> bool {
    |step: UploadStepView| step is DeleteFile
}

/// The step publishes a task that is answered by `response`.
pub open spec fn publishes(response: ResponseView) -> spec_fn(UploadStepView) -> bool {
    |step: UploadStepView| step is PublishTask && queued(step->PublishTask_task) == response
}

/// The file that a step is about.
pub open spec fn file_of(step: UploadStepView) -> Option<Seq<char>> {
    match step {
        UploadStepView::SaveFile { path, .. } => Some(path),
        UploadStepView::PublishTask { task } => Some(task.file_path),
        UploadStepView::DeleteFile { path, .. } => Some(path),
        _ => None,
    }
}

proof fn lemma_upload_finished(
    upload: UploadView,
    outcome: Result<ResponseView, ErrorView>,
    inputs: Seq<(UploadEventView, Seq<char>, i64)>,
)
    ensures
        upload_run(upload, UploadStepView::Finished(outcome), inputs) == UploadStepView::Finished(
            outcome,
        ),
        !upload_visits(upload, UploadStepView::Finished(outcome), inputs, deletes_any()),
    decreases inputs.len(),
{
    if inputs.len() > 0 {
        lemma_upload_finished(upload, outcome, inputs.drop_first());
    }
}

/// Once a file was to be saved, an upload that fails has had that file removed.
pub proof fn law_failed_upload_is_removed(
    upload: UploadView,
    step: UploadStepView,
    inputs: Seq<(UploadEventView, Seq<char>, i64)>,
    path: Seq<char>,
)
    requires
        file_of(step) == Some(path),
        upload_run(upload, step, inputs) matches UploadStepView::Finished(Err(_)),
    ensures
        upload_visits(upload, step, inputs, deletes(path)),
    decreases inputs.len(),
{
    if inputs.len() > 0 && step !is DeleteFile {
        let (event, id, now) = inputs.first();
        let next = upload_next(upload, step, event, id, now);
        if next is Finished {
            lemma_upload_finished(upload, next->Finished_0, inputs.drop_first());
        } else {
            law_failed_upload_is_removed(upload, next, inputs.drop_first(), path);
        }
    }
}

/// The error that an upload is answered with is the one for which its file was
/// removed: removing the file does not change it.
pub proof fn law_removal_keeps_the_error(
    upload: UploadView,
    path: Seq<char>,
    error: ErrorView,
    inputs: Seq<(UploadEventView, Seq<char>, i64)>,
)
    ensures
        ({
            let end = upload_run(upload, UploadStepView::DeleteFile { path, error }, inputs);
            end == UploadStepView::DeleteFile { path, error } || end == UploadStepView::Finished(
                Err(error),
            )
        }),
    decreases inputs.len(),
{
    if inputs.len() > 0 {
        let (event, id, now) = inputs.first();
        let step = UploadStepView::DeleteFile { path, error };
        if upload_next(upload, step, event, id, now) == step {
            law_removal_keeps_the_error(upload, path, error, inputs.drop_first());
        } else {
            lemma_upload_finished(upload, Err(error), inputs.drop_first());
        }
    }
}

/// An upload that is answered as queued was published, with the task identifier
/// and the path of the answer, and its file was not removed.
pub proof fn law_queued_upload_is_published(
    upload: UploadView,
    inputs: Seq<(UploadEventView, Seq<char>, i64)>,
    response: ResponseView,
)
    requires
        upload_run(upload, UploadStepView::CreateDir, inputs) == UploadStepView::Finished(
            Ok(response),
        ),
    ensures
        upload_visits(upload, UploadStepView::CreateDir, inputs, publishes(response)),
        !upload_visits(upload, UploadStepView::CreateDir, inputs, deletes_any()),
{
    lemma_queued(upload, UploadStepView::CreateDir, inputs, response);
}

proof fn lemma_queued(
    upload: UploadView,
    step: UploadStepView,
    inputs: Seq<(UploadEventView, Seq<char>, i64)>,
    response: ResponseView,
)
    requires
        step !is Finished,
        upload_run(upload, step, inputs) == UploadStepView::Finished(Ok(response)),
    ensures
        upload_visits(upload, step, inputs, publishes(response)),
        !upload_visits(upload, step, inputs, deletes_any()),
    decreases inputs.len(),
{
    if inputs.len() > 0 {
        let (event, id, now) = inputs.first();
        let next = upload_next(upload, step, event, id, now);
        if next is Finished {
            lemma_upload_finished(upload, next->Finished_0, inputs.drop_first());
        } else {
            lemma_queued(upload, next, inputs.drop_first(), response);
        }
    }
}

/// The answer to a queued upload names a task by a fresh identifier, and a file
/// in the directory of the storage whose name starts with another one.
pub proof fn law_answer_is_well_formed(
    upload: UploadView,
    inputs: Seq<(UploadEventView, Seq<char>, i64)>,
    response: ResponseView,
)
    requires
        forall|i: int| 0 <= i < inputs.len() ==> uuid_text((#[trigger] inputs[i]).1),
        upload_run(upload, UploadStepView::CreateDir, inputs) == UploadStepView::Finished(
            Ok(response),
        ),
    ensures
        uuid_text(response.task_id),
        response.status == "queued"@,
        exists|id: Seq<char>, name: Seq<char>|
            #![trigger stored_path(upload.dir, id, name)]
            uuid_text(id) && supported_name(name) && name_error(name) is None
                && response.file_path == stored_path(upload.dir, id, name),
{
    lemma_answer(upload, UploadStepView::CreateDir, inputs, response);
}

/// A path that an upload may be stored at.
spec fn upload_path(dir: Seq<char>, path: Seq<char>) -> bool {
    exists|id: Seq<char>, name: Seq<char>|
        #![trigger stored_path(dir, id, name)]
        uuid_text(id) && supported_name(name) && name_error(name) is None && path == stored_path(
            dir,
            id,
            name,
        )
}

proof fn lemma_answer(
    upload: UploadView,
    step: UploadStepView,
    inputs: Seq<(UploadEventView, Seq<char>, i64)>,
    response: ResponseView,
)
    requires
        forall|i: int| 0 <= i < inputs.len() ==> uuid_text((#[trigger] inputs[i]).1),
        file_of(step) matches Some(path) ==> upload_path(upload.dir, path),
        step matches UploadStepView::PublishTask { task } ==> uuid_text(task.task_id),
        step !is Finished,
        upload_run(upload, step, inputs) == UploadStepView::Finished(Ok(response)),
    ensures
        uuid_text(response.task_id),
        response.status == "queued"@,
        upload_path(upload.dir, response.file_path),
    decreases inputs.len(),
{
    if inputs.len() > 0 {
        let (event, id, now) = inputs.first();
        assert(uuid_text(inputs[0].1));
        let rest = inputs.drop_first();
        assert forall|i: int| 0 <= i < rest.len() implies uuid_text((#[trigger] rest[i]).1) by {
            assert(rest[i] == inputs[i + 1]);
        }
        let next = upload_next(upload, step, event, id, now);
        if next is Finished {
            lemma_upload_finished(upload, next->Finished_0, rest);
        } else {
            if let (UploadStepView::ReadField, UploadEventView::Field { file_name, .. }) = (
                step,
                event,
            ) {
                if next is SaveFile {
                    let name = upload_name(file_name);
                    assert(file_of(next) == Some(stored_path(upload.dir, id, name)));
                }
            }
            lemma_answer(upload, next, rest, response);
        }
    }
}

/// The step reads a field.
pub open spec fn reads_field() -> spec_fn(UploadStepView) -> bool {
    |step: UploadStepView| step is ReadField
}

/// Only the first field of a form that holds a file counts: what stands before it
/// is skipped, no field after it changes what becomes of it, and no further field
/// is ever asked for.
pub proof fn law_only_the_first_file_counts(
    upload: UploadView,
    before: Seq<(UploadEventView, Seq<char>, i64)>,
    name: Option<Seq<char>>,
    file_name: Option<Seq<char>>,
    id: Seq<char>,
    now: i64,
    after: Seq<(UploadEventView, Seq<char>, i64)>,
    inputs: Seq<(UploadEventView, Seq<char>, i64)>,
)
    requires
        forall|i: int|
            0 <= i < before.len() ==> ((#[trigger] before[i]).0 matches UploadEventView::Field {
                name: other,
                ..
            } && !is_file_field(other)),
        is_file_field(name),
        forall|i: int|
            0 <= i < after.len() ==> (#[trigger] after[i]).0 is Field || after[i].0 is NoMoreFields,
    ensures
        upload_run(
            upload,
            UploadStepView::ReadField,
            before + seq![(UploadEventView::Field { name, file_name }, id, now)] + after,
        ) == after_file_field(upload.dir, upload_name(file_name), id),
        !upload_visits(
            upload,
            after_file_field(upload.dir, upload_name(file_name), id),
            inputs,
            reads_field(),
        ),
    decreases before.len(),
{
    let file = seq![(UploadEventView::Field { name, file_name }, id, now)];
    let whole = before + file + after;
    let chosen = after_file_field(upload.dir, upload_name(file_name), id);
    lemma_no_more_fields(upload, chosen, inputs);
    if before.len() == 0 {
        assert(whole.first() == file[0]);
        assert(whole.drop_first() =~= after);
        lemma_fields_ignored(upload, chosen, after);
    } else {
        let rest = before.drop_first();
        assert(whole.first() == before[0]);
        assert(whole.drop_first() =~= rest + file + after);
        assert forall|i: int| 0 <= i < rest.len() implies ((
        #[trigger] rest[i]).0 matches UploadEventView::Field { name: other, .. }
            && !is_file_field(other)) by {
            assert(rest[i] == before[i + 1]);
        }
        law_only_the_first_file_counts(upload, rest, name, file_name, id, now, after, inputs);
    }
}

proof fn lemma_fields_ignored(
    upload: UploadView,
    step: UploadStepView,
    inputs: Seq<(UploadEventView, Seq<char>, i64)>,
)
    requires
        step !is ReadField,
        forall|i: int|
            0 <= i < inputs.len() ==> (#[trigger] inputs[i]).0 is Field
                || inputs[i].0 is NoMoreFields,
    ensures
        upload_run(upload, step, inputs) == step,
    decreases inputs.len(),
{
    if inputs.len() > 0 {
        let rest = inputs.drop_first();
        assert(inputs[0] == inputs.first());
        assert forall|i: int| 0 <= i < rest.len() implies (#[trigger] rest[i]).0 is Field
            || rest[i].0 is NoMoreFields by {
            assert(rest[i] == inputs[i + 1]);
        }
        lemma_fields_ignored(upload, step, rest);
    }
}

proof fn lemma_no_more_fields(
    upload: UploadView,
    step: UploadStepView,
    inputs: Seq<(UploadEventView, Seq<char>, i64)>,
)
    requires
        step !is ReadField,
        step !is CreateDir,
    ensures
        !upload_visits(upload, step, inputs, reads_field()),
    decreases inputs.len(),
{
    if inputs.len() > 0 {
        let (event, id, now) = inputs.first();
        lemma_no_more_fields(
            upload,
            upload_next(upload, step, event, id, now),
            inputs.drop_first(),
        );
    }
}

/// An upload that is larger than the limit is refused as the caller's fault, and
/// its file is removed, however it is cut into chunks.
pub proof fn law_oversized_upload_is_refused(
    upload: UploadView,
    path: Seq<char>,
    filename: Seq<char>,
    max: u64,
    chunks: Seq<u64>,
    id: Seq<char>,
    now: i64,
)
    requires
        total_size(chunks) > max,
    ensures
        ({
            let events = seq![SaveEventView::Done] + chunk_events(chunks);
            let saving = UploadStepView::SaveFile { path, filename };
            save_run(max, SaveStepView::CreateFile, events) matches SaveStepView::Finished(saved)
                && {
                let inputs = seq![
                    (UploadEventView::Saved(saved), id, now),
                    (UploadEventView::Done, id, now),
                ];
                &&& upload_run(upload, saving, inputs) == UploadStepView::Finished(
                    Err(size_error(max)),
                )
                &&& upload_visits(upload, saving, inputs, deletes(path))
            }
        }),
        error_status(size_error(max)) == 400,
{
    law_saved_within_limit(max, chunks);
    let saving = UploadStepView::SaveFile { path, filename };
    let inputs = seq![
        (UploadEventView::Saved(Err(size_error(max))), id, now),
        (UploadEventView::Done, id, now),
    ];
    reveal_with_fuel(upload_run, 3);
    let rest = inputs.drop_first();
    assert(rest.first() == (UploadEventView::Done, id, now));
    assert(rest.drop_first() =~= Seq::empty());
    law_failed_upload_is_removed(upload, saving, inputs, path);
}

/// Whatever is wrong with the upload itself is answered as the caller's fault; a
/// failure of the file system as the server's; one of the broker as a service
/// that is not available.
pub proof fn law_status_tells_whose_fault(
    name: Seq<char>,
    max: u64,
    file_stage: FileStage,
    broker_stage: BrokerStage,
    detail: Seq<char>,
)
    ensures
        error_status(unsupported_format()) == 400,
        name_error(name) matches Some(error) ==> error_status(error) == 400,
        error_status(size_error(max)) == 400,
        error_status(file_error(file_stage, detail)) == 500,
        error_status(broker_error(broker_stage, detail)) == 503,
{
}

/// A form without a field for the upload is refused, whatever other fields it has.
pub proof fn law_form_without_file_is_refused(
    upload: UploadView,
    fields: Seq<(UploadEventView, Seq<char>, i64)>,
    id: Seq<char>,
    now: i64,
)
    requires
        forall|i: int|
            0 <= i < fields.len() ==> ((#[trigger] fields[i]).0 matches UploadEventView::Field {
                name,
                ..
            } && !is_file_field(name)),
    ensures
        upload_run(
            upload,
            UploadStepView::ReadField,
            fields.push((UploadEventView::NoMoreFields, id, now)),
        ) == UploadStepView::Finished(Err(ErrorView::Validation("No file uploaded"@))),
    decreases fields.len(),
{
    let inputs = fields.push((UploadEventView::NoMoreFields, id, now));
    if fields.len() == 0 {
        reveal_with_fuel(upload_run, 2);
        assert(inputs.first() == (UploadEventView::NoMoreFields, id, now));
        assert(inputs.drop_first() =~= Seq::empty());
    } else {
        let rest = fields.drop_first();
        assert(inputs.first() == fields[0]);
        assert(inputs.drop_first() =~= rest.push((UploadEventView::NoMoreFields, id, now)));
        assert forall|i: int| 0 <= i < rest.len() implies ((
        #[trigger] rest[i]).0 matches UploadEventView::Field { name, .. } && !is_file_field(
            name,
        )) by {
            assert(rest[i] == fields[i + 1]);
        }
        law_form_without_file_is_refused(upload, rest, id, now);
    }
}

/// The field that holds the upload is the one named `file`, or one without a name; any
/// other is skipped. A file whose name is not stated is taken for `audio.ogg`.
pub proof fn law_fields_go_by_name(
    upload: UploadView,
    name: Seq<char>,
    file_name: Option<Seq<char>>,
    id: Seq<char>,
    now: i64,
)
    ensures
        name != "file"@ ==> upload_next(
            upload,
            UploadStepView::ReadField,
            UploadEventView::Field { name: Some(name), file_name },
            id,
            now,
        ) is ReadField,
        upload_next(
            upload,
            UploadStepView::ReadField,
            UploadEventView::Field { name: Some("file"@), file_name },
            id,
            now,
        ) !is ReadField,
        upload_next(
            upload,
            UploadStepView::ReadField,
            UploadEventView::Field { name: None, file_name },
            id,
            now,
        ) == upload_next(
            upload,
            UploadStepView::ReadField,
            UploadEventView::Field { name: Some("file"@), file_name },
            id,
            now,
        ),
        upload_next(
            upload,
            UploadStepView::ReadField,
            UploadEventView::Field { name: None, file_name: None },
            id,
            now,
        ) == upload_next(
            upload,
            UploadStepView::ReadField,
            UploadEventView::Field { name: None, file_name: Some("audio.ogg"@) },
            id,
            now,
        ),
{
}

/// A file is saved exactly where its extension is one of the five, its name is not too
/// long and something is left of it. It is saved at its own path, under the identifier
/// that was drawn for it, and keeps the name that it was uploaded under. Any other is
/// refused as the caller's fault, and nothing is saved.
pub proof fn law_accepted_files_are_saved(
    upload: UploadView,
    filename: Seq<char>,
    id: Seq<char>,
    now: i64,
)
    ensures
        ({
            let next = upload_next(
                upload,
                UploadStepView::ReadField,
                UploadEventView::Field { name: Some("file"@), file_name: Some(filename) },
                id,
                now,
            );
            let format = extension(filename) matches Some(ext) && (ext == "ogg"@ || ext == "mp3"@
                || ext == "wav"@ || ext == "webm"@ || ext == "m4a"@);
            let length = 0 < filename.len() && encode_utf8(filename).len() <= 255;
            &&& format && length && sanitized(filename).len() > 0 ==> next == (
            UploadStepView::SaveFile {
                path: upload.dir + "/"@ + (id + "_"@ + sanitized(filename) + "."@ + extension(
                    filename,
                )->Some_0),
                filename,
            })
            &&& !format ==> next == UploadStepView::Finished(
                Err(
                    ErrorView::Validation(
                        "Unsupported audio format. Allowed: ogg, mp3, wav, webm, m4a"@,
                    ),
                ),
            )
            &&& format && !length ==> next == UploadStepView::Finished(
                Err(ErrorView::Validation("Invalid filename length"@)),
            )
            &&& format && length && sanitized(filename).len() == 0 ==> next
                == UploadStepView::Finished(
                Err(ErrorView::Validation("Filename contains no valid characters"@)),
            )
        }),
{
    law_accepted_formats(filename);
    law_refused_names(filename);
    if supported_name(filename) {
        law_extension_is_kept(id, filename, extension(filename)->Some_0);
        law_stored_path(upload.dir, id, filename);
    }
}

/// The task of a saved file is the caller's: it has the chat and the message of the
/// request, the path at which the file was saved, the name that it was uploaded under,
/// and the identifier and the time that were drawn for it. The size changes nothing.
pub proof fn law_task_is_the_callers(
    upload: UploadView,
    path: Seq<char>,
    filename: Seq<char>,
    size: u64,
    id: Seq<char>,
    now: i64,
)
    ensures
        upload_next(
            upload,
            UploadStepView::SaveFile { path, filename },
            UploadEventView::Saved(Ok(size)),
            id,
            now,
        ) matches UploadStepView::PublishTask { task } && task.task_id == id && task.file_path
            == path && task.chat_id == upload.chat_id && task.message_id == upload.message_id
            && task.filename == filename && task.created_at == now,
{
}

/// A task that is published is answered as queued, with its identifier and its file.
pub proof fn law_published_task_is_answered(
    upload: UploadView,
    task: TaskView,
    id: Seq<char>,
    now: i64,
)
    ensures
        upload_next(
            upload,
            UploadStepView::PublishTask { task },
            UploadEventView::Published(Ok(())),
            id,
            now,
        ) matches UploadStepView::Finished(Ok(response)) && response.task_id == task.task_id
            && response.file_path == task.file_path && response.status == "queued"@,
{
}

/// A file that could not be saved, or whose task could not be published, is removed, and
/// the caller gets the error that led to it, whether the removal works or not.
pub proof fn law_failures_are_rolled_back(
    upload: UploadView,
    path: Seq<char>,
    filename: Seq<char>,
    task: TaskView,
    error: ErrorView,
    detail: Seq<char>,
    id: Seq<char>,
    now: i64,
)
    ensures
        upload_next(
            upload,
            UploadStepView::SaveFile { path, filename },
            UploadEventView::Saved(Err(error)),
            id,
            now,
        ) == (UploadStepView::DeleteFile { path, error }),
        upload_next(
            upload,
            UploadStepView::PublishTask { task },
            UploadEventView::Published(Err(error)),
            id,
            now,
        ) == (UploadStepView::DeleteFile { path: task.file_path, error }),
        upload_next(
            upload,
            UploadStepView::DeleteFile { path, error },
            UploadEventView::Done,
            id,
            now,
        ) == UploadStepView::Finished(Err(error)),
        upload_next(
            upload,
            UploadStepView::DeleteFile { path, error },
            UploadEventView::Failed(detail),
            id,
            now,
        ) == UploadStepView::Finished(Err(error)),
{
}

/// An upload begins with the directory and then reads the form. Where either fails, the
/// caller is told what failed and why; a form that ends without a file is refused.
pub proof fn law_upload_begins_with_the_form(
    upload: UploadView,
    detail: Seq<char>,
    id: Seq<char>,
    now: i64,
)
    ensures
        upload_next(upload, UploadStepView::CreateDir, UploadEventView::Done, id, now)
            is ReadField,
        upload_next(upload, UploadStepView::CreateDir, UploadEventView::Failed(detail), id, now)
            == UploadStepView::Finished(
            Err(ErrorView::FileOperation("Cannot create tmp dir: "@ + detail)),
        ),
        upload_next(upload, UploadStepView::ReadField, UploadEventView::Failed(detail), id, now)
            == UploadStepView::Finished(
            Err(ErrorView::FileOperation("Multipart parsing failed: "@ + detail)),
        ),
        upload_next(upload, UploadStepView::ReadField, UploadEventView::NoMoreFields, id, now)
            == UploadStepView::Finished(Err(ErrorView::Validation("No file uploaded"@))),
{
}

/// What does not answer the step that is to be done changes nothing.
pub proof fn law_upload_waits_for_its_step(
    upload: UploadView,
    step: UploadStepView,
    event: UploadEventView,
    id: Seq<char>,
    now: i64,
)
    ensures
        step is Finished ==> upload_next(upload, step, event, id, now) == step,
        step !is ReadField && (event is Field || event is NoMoreFields) ==> upload_next(
            upload,
            step,
            event,
            id,
            now,
        ) == step,
        step !is SaveFile && event is Saved ==> upload_next(upload, step, event, id, now) == step,
        step !is PublishTask && event is Published ==> upload_next(upload, step, event, id, now)
            == step,
        !(step is CreateDir || step is DeleteFile) && event is Done ==> upload_next(
            upload,
            step,
            event,
            id,
            now,
        ) == step,
        (step is SaveFile || step is PublishTask) && event is Failed ==> upload_next(
            upload,
            step,
            event,
            id,
            now,
        ) == step,
{
}

/// An acceptable file that is saved and published is queued: the caller is told the
/// identifier that was drawn when it was saved, and the path that was made with the
/// identifier that was drawn when its field was read.
pub proof fn law_acceptable_upload_is_queued(
    upload: UploadView,
    filename: Seq<char>,
    ext: Seq<char>,
    size: u64,
    dir_draw: (Seq<char>, i64),
    field_draw: (Seq<char>, i64),
    task_draw: (Seq<char>, i64),
    answer_draw: (Seq<char>, i64),
)
    requires
        extension(filename) == Some(ext),
        ext == "ogg"@ || ext == "mp3"@ || ext == "wav"@ || ext == "webm"@ || ext == "m4a"@,
        0 < filename.len(),
        encode_utf8(filename).len() <= 255,
        sanitized(filename).len() > 0,
    ensures
        upload_run(
            upload,
            UploadStepView::CreateDir,
            seq![
                (UploadEventView::Done, dir_draw.0, dir_draw.1),
                (
                    UploadEventView::Field { name: Some("file"@), file_name: Some(filename) },
                    field_draw.0,
                    field_draw.1,
                ),
                (UploadEventView::Saved(Ok(size)), task_draw.0, task_draw.1),
                (UploadEventView::Published(Ok(())), answer_draw.0, answer_draw.1),
            ],
        ) == UploadStepView::Finished(
            Ok(
                ResponseView {
                    task_id: task_draw.0,
                    status: "queued"@,
                    file_path: upload.dir + "/"@ + (field_draw.0 + "_"@ + sanitized(filename) + "."@
                        + ext),
                },
            ),
        ),
{
    law_accepted_files_are_saved(upload, filename, field_draw.0, field_draw.1);
    let inputs = seq![
        (UploadEventView::Done, dir_draw.0, dir_draw.1),
        (
            UploadEventView::Field { name: Some("file"@), file_name: Some(filename) },
            field_draw.0,
            field_draw.1,
        ),
        (UploadEventView::Saved(Ok(size)), task_draw.0, task_draw.1),
        (UploadEventView::Published(Ok(())), answer_draw.0, answer_draw.1),
    ];
    let after_dir = inputs.drop_first();
    let after_field = after_dir.drop_first();
    let after_save = after_field.drop_first();
    assert(after_dir.first() == inputs[1]);
    assert(after_field.first() == inputs[2]);
    assert(after_save.first() == inputs[3]);
    assert(after_save.drop_first() =~= Seq::empty());
    reveal_with_fuel(upload_run, 5);
}

/// What is said of a request is said of its own directory, chat and message.
pub proof fn law_contents_of_requests(upload: Upload)
    ensures
        upload@.dir == upload.storage.tmp_dir@,
        upload@.chat_id == upload.chat_id@,
        upload.message_id matches Some(message_id) ==> upload@.message_id == Some(message_id@),
        upload.message_id is None ==> upload@.message_id is None,
{
}

} // verus!
