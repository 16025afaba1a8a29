//! The messages of the service.

use vstd::prelude::*;

verus! {

/// The work that the queue hands to a worker.
#[derive(Debug, Clone)]
pub struct TranscriptionTask {
    /// Unique identifier of the task.
    pub task_id: String,
    /// Full path of the uploaded file on the server.
    pub file_path: String,
    /// Telegram chat.
    pub chat_id: String,
    /// Telegram message, for editing it later.
    pub message_id: Option<String>,
    /// Name that the file was uploaded under.
    pub filename: String,
    /// Seconds since the Unix epoch at which the task was made.
    pub created_at: i64,
}

/// The contents of a task.
#[verifier::ext_equal]
pub struct TaskView {
    pub task_id: Seq<char>,
    pub file_path: Seq<char>,
    pub chat_id: Seq<char>,
    pub message_id: Option<Seq<char>>,
    pub filename: Seq<char>,
    pub created_at: i64,
}

/// The contents of an optional string.
pub open spec fn optional_text(s: Option<String>) -> Option<Seq<char>> {
    match s {
        Some(s) => Some(s@),
        None => None,
    }
}

impl View for TranscriptionTask {
    type V = TaskView;

    open spec fn view(&self) -> TaskView {
        TaskView {
            task_id: self.task_id@,
            file_path: self.file_path@,
            chat_id: self.chat_id@,
            message_id: optional_text(self.message_id),
            filename: self.filename@,
            created_at: self.created_at,
        }
    }
}

/// The answer to an accepted upload.
#[derive(Debug)]
pub struct TranscriptionResponse {
    pub task_id: String,
    pub status: String,
    pub file_path: String,
}

/// The contents of an answer.
#[verifier::ext_equal]
pub struct ResponseView {
    pub task_id: Seq<char>,
    pub status: Seq<char>,
    pub file_path: Seq<char>,
}

impl View for TranscriptionResponse {
    type V = ResponseView;

    open spec fn view(&self) -> ResponseView {
        ResponseView { task_id: self.task_id@, status: self.status@, file_path: self.file_path@ }
    }
}

/// The answer that tells the caller that a task was queued.
pub open spec fn queued(task: TaskView) -> ResponseView {
    ResponseView { task_id: task.task_id, status: "queued"@, file_path: task.file_path }
}

impl TranscriptionResponse {
    /// The answer that tells the caller that `task` was queued.
    pub fn queued(task: &TranscriptionTask) -> (r: TranscriptionResponse)
        ensures
            r@ == queued(task@),
            r.task_id@ == task.task_id@,
            r.status@ == "queued"@,
            r.file_path@ == task.file_path@,
    {
        TranscriptionResponse {
            task_id: task.task_id.clone(),
            status: "queued".to_owned(),
            file_path: task.file_path.clone(),
        }
    }
}

/// The answer to an upload names its task and its file, and tells that it is queued.
pub proof fn law_answer_names_the_task(task: TaskView)
    ensures
        queued(task).task_id == task.task_id,
        queued(task).file_path == task.file_path,
        queued(task).status == "queued"@,
{
}

/// What is said of a task or of an answer is said of its own fields.
pub proof fn law_contents_of_messages(task: TranscriptionTask, response: TranscriptionResponse)
    ensures
        task@.task_id == task.task_id@,
        task@.file_path == task.file_path@,
        task@.chat_id == task.chat_id@,
        task.message_id matches Some(message_id) ==> task@.message_id == Some(message_id@),
        task.message_id is None ==> task@.message_id is None,
        task@.filename == task.filename@,
        task@.created_at == task.created_at,
        response@.task_id == response.task_id@,
        response@.status == response.status@,
        response@.file_path == response.file_path@,
{
}

} // verus!
