//! The worker: from a queued task to a kept transcript.

use crate::json::{is_record_document, json_parse, json_record, JsonTree};
use crate::reply::{ReplyFormat, ReplyView};
use crate::results::{content_answer, law_result_is_served_as_written, valid_task_id};
use crate::storage::result_path;
use crate::task::{TaskView, TranscriptionTask};
use crate::text::{string_from_utf8, trimmed};
use crate::topology::SHARED_DIR;
use crate::whisper::{
    document_of_output, joined, result_document, result_fields, segments, transcript,
};
use vstd::prelude::*;
use vstd::string::*;
use vstd::utf8::{
    decode_utf8, decode_utf8_encode_utf8, encode_utf8, encode_utf8_decode_utf8,
    encode_utf8_valid_utf8, valid_utf8,
};

verus! {

/// A program to run, with its arguments.
#[derive(Debug)]
pub struct Invocation {
    pub program: String,
    pub args: Vec<String>,
}

/// The contents of an invocation.
#[verifier::ext_equal]
pub struct InvocationView {
    pub program: Seq<char>,
    pub args: Seq<Seq<char>>,
}

impl View for Invocation {
    type V = InvocationView;

    open spec fn view(&self) -> InvocationView {
        InvocationView {
            program: self.program@,
            args: self.args@.map_values(|arg: String| arg@),
        }
    }
}

fn invocation(program: &str, args: &Vec<&str>) -> (r: Invocation)
    ensures
        r@ == (InvocationView {
            program: program@,
            args: args@.map_values(|arg: &str| arg@),
        }),
{
    let mut owned: Vec<String> = Vec::new();
    let mut i: usize = 0;
    while i < args.len()
        invariant
            i <= args@.len(),
            owned@.len() == i,
            forall|j: int| 0 <= j < i ==> (#[trigger] owned@[j])@ == args@[j]@,
        decreases args@.len() - i,
    {
        owned.push(args[i].to_owned());
        i = i + 1;
    }
    assert(owned@.map_values(|arg: String| arg@) =~= args@.map_values(|arg: &str| arg@));
    Invocation { program: program.to_owned(), args: owned }
}

/// The arguments of an invocation are what its view holds.
proof fn lemma_args(invocation: Invocation)
    ensures
        invocation.args@.len() == invocation@.args.len(),
        forall|i: int|
            0 <= i < invocation.args@.len() ==> (#[trigger] invocation.args@[i])@
                == invocation@.args[i],
{
}

/// The converted audio of a task.
pub open spec fn wav_path(task: TaskView) -> Seq<char> {
    "/tmp/transcribe/"@ + task.task_id + ".wav"@
}

/// What the recognizer writes for a task: it adds `.json` to the name of its input.
pub open spec fn output_path(task: TaskView) -> Seq<char> {
    wav_path(task) + ".json"@
}

/// The kept result of a task.
pub open spec fn kept_path(task: TaskView) -> Seq<char> {
    "/tmp/transcribe/"@ + task.task_id + ".json"@
}

/// The conversion of an upload to the audio that the recognizer asks for: 16 kHz,
/// one channel, 16 bits. An older file is overwritten.
pub open spec fn convert_invocation(task: TaskView) -> InvocationView {
    InvocationView {
        program: "ffmpeg"@,
        args: seq![
            "-y"@,
            "-i"@,
            task.file_path,
            "-ar"@,
            "16000"@,
            "-ac"@,
            "1"@,
            "-c:a"@,
            "pcm_s16le"@,
            wav_path(task),
        ],
    }
}

/// The recognition of the converted audio, in whatever language it is, with the
/// output as JSON.
pub open spec fn transcribe_invocation(task: TaskView) -> InvocationView {
    InvocationView {
        program: "whisper-cli"@,
        args: seq![
            "-m"@,
            "/models/ggml-small.bin"@,
            "-l"@,
            "auto"@,
            "-f"@,
            wav_path(task),
            "-oj"@,
        ],
    }
}

impl TranscriptionTask {
    /// The converted audio of the task.
    pub fn wav_path(&self) -> (r: String)
        ensures
            r@ == wav_path(self@),
            r@ == "/tmp/transcribe/"@ + self.task_id@ + ".wav"@,
    {
        "/tmp/transcribe/".to_owned().concat(self.task_id.as_str()).concat(".wav")
    }

    /// What the recognizer writes for the task.
    pub fn output_path(&self) -> (r: String)
        ensures
            r@ == output_path(self@),
            r@ == "/tmp/transcribe/"@ + self.task_id@ + ".wav"@ + ".json"@,
    {
        self.wav_path().concat(".json")
    }

    /// The kept result of the task.
    pub fn kept_path(&self) -> (r: String)
        ensures
            r@ == kept_path(self@),
            r@ == "/tmp/transcribe/"@ + self.task_id@ + ".json"@,
    {
        "/tmp/transcribe/".to_owned().concat(self.task_id.as_str()).concat(".json")
    }

    /// The conversion of the upload.
    pub fn convert_invocation(&self) -> (r: Invocation)
        ensures
            r@ == convert_invocation(self@),
            r.program@ == "ffmpeg"@,
            r.args@.len() == 10,
            r.args@[0]@ == "-y"@,
            r.args@[1]@ == "-i"@ && r.args@[2]@ == self.file_path@,
            r.args@[3]@ == "-ar"@ && r.args@[4]@ == "16000"@,
            r.args@[5]@ == "-ac"@ && r.args@[6]@ == "1"@,
            r.args@[7]@ == "-c:a"@ && r.args@[8]@ == "pcm_s16le"@,
            r.args@[9]@ == "/tmp/transcribe/"@ + self.task_id@ + ".wav"@,
    {
        let wav = self.wav_path();
        let args: Vec<&str> = vec![
            "-y",
            "-i",
            self.file_path.as_str(),
            "-ar",
            "16000",
            "-ac",
            "1",
            "-c:a",
            "pcm_s16le",
            wav.as_str(),
        ];
        assert(args@.map_values(|arg: &str| arg@) =~= convert_invocation(self@).args);
        let r = invocation("ffmpeg", &args);
        proof {
            lemma_args(r);
        }
        r
    }

    /// The recognition of the converted audio.
    pub fn transcribe_invocation(&self) -> (r: Invocation)
        ensures
            r@ == transcribe_invocation(self@),
            r.program@ == "whisper-cli"@,
            r.args@.len() == 7,
            r.args@[0]@ == "-m"@ && r.args@[1]@ == "/models/ggml-small.bin"@,
            r.args@[2]@ == "-l"@ && r.args@[3]@ == "auto"@,
            r.args@[4]@ == "-f"@ && r.args@[5]@ == "/tmp/transcribe/"@ + self.task_id@ + ".wav"@,
            r.args@[6]@ == "-oj"@,
    {
        let wav = self.wav_path();
        let args: Vec<&str> = vec![
            "-m",
            "/models/ggml-small.bin",
            "-l",
            "auto",
            "-f",
            wav.as_str(),
            "-oj",
        ];
        assert(args@.map_values(|arg: &str| arg@) =~= transcribe_invocation(self@).args);
        let r = invocation("whisper-cli", &args);
        proof {
            lemma_args(r);
        }
        r
    }
}

/// What is to be done next with a message from the queue.
#[derive(Debug)]
pub enum WorkerStep {
    /// Read the task from its JSON.
    DecodeTask { json: String },
    /// Refuse the message, with `REQUEUE_REJECTED`.
    Reject,
    /// Run the conversion of the upload.
    Convert { task: TranscriptionTask },
    /// Run the recognition.
    Transcribe { task: TranscriptionTask },
    /// Read what the recognizer wrote.
    ReadOutput { task: TranscriptionTask },
    /// Keep the document as the result of the task.
    WriteResult { task: TranscriptionTask, document: String },
    /// Remove what the recognizer wrote.
    RemoveOutput { task: TranscriptionTask },
    /// Remove the upload.
    RemoveUpload { task: TranscriptionTask },
    /// Remove the converted audio.
    RemoveWav { task: TranscriptionTask },
    /// Tell the broker that the message is dealt with, with `ACK_MULTIPLE`.
    Acknowledge { task: TranscriptionTask },
    /// Nothing.
    Finished,
}

/// The contents of a step.
#[verifier::ext_equal]
pub enum WorkerStepView {
    DecodeTask { json: Seq<char> },
    Reject,
    Convert { task: TaskView },
    Transcribe { task: TaskView },
    ReadOutput { task: TaskView },
    WriteResult { task: TaskView, document: Seq<char> },
    RemoveOutput { task: TaskView },
    RemoveUpload { task: TaskView },
    RemoveWav { task: TaskView },
    Acknowledge { task: TaskView },
    Finished,
}

impl View for WorkerStep {
    type V = WorkerStepView;

    open spec fn view(&self) -> WorkerStepView {
        match self {
            WorkerStep::DecodeTask { json } => WorkerStepView::DecodeTask { json: json@ },
            WorkerStep::Reject => WorkerStepView::Reject,
            WorkerStep::Convert { task } => WorkerStepView::Convert { task: task@ },
            WorkerStep::Transcribe { task } => WorkerStepView::Transcribe { task: task@ },
            WorkerStep::ReadOutput { task } => WorkerStepView::ReadOutput { task: task@ },
            WorkerStep::WriteResult { task, document } => WorkerStepView::WriteResult {
                task: task@,
                document: document@,
            },
            WorkerStep::RemoveOutput { task } => WorkerStepView::RemoveOutput { task: task@ },
            WorkerStep::RemoveUpload { task } => WorkerStepView::RemoveUpload { task: task@ },
            WorkerStep::RemoveWav { task } => WorkerStepView::RemoveWav { task: task@ },
            WorkerStep::Acknowledge { task } => WorkerStepView::Acknowledge { task: task@ },
            WorkerStep::Finished => WorkerStepView::Finished,
        }
    }
}

/// What came of the step that was to be done.
#[derive(Debug)]
pub enum WorkerEvent {
    /// A task was read from the JSON.
    Decoded(TranscriptionTask),
    /// The file has this content.
    Content(String),
    /// The step was done; for a program, it ended with success.
    Done,
    /// The step failed.
    Failed,
}

/// The contents of an event.
#[verifier::ext_equal]
pub enum WorkerEventView {
    Decoded(TaskView),
    Content(Seq<char>),
    Done,
    Failed,
}

impl View for WorkerEvent {
    type V = WorkerEventView;

    open spec fn view(&self) -> WorkerEventView {
        match self {
            WorkerEvent::Decoded(task) => WorkerEventView::Decoded(task@),
            WorkerEvent::Content(content) => WorkerEventView::Content(content@),
            WorkerEvent::Done => WorkerEventView::Done,
            WorkerEvent::Failed => WorkerEventView::Failed,
        }
    }
}

/// The first step for a message: it is refused unless it is UTF-8.
pub open spec fn worker_start(content: Seq<u8>) -> WorkerStepView {
    if valid_utf8(content) {
        WorkerStepView::DecodeTask { json: decode_utf8(content) }
    } else {
        WorkerStepView::Reject
    }
}

/// What follows once the output of the recognizer was read: the transcript in
/// it is kept, if it is JSON.
pub open spec fn after_output(task: TaskView, output: Seq<char>) -> WorkerStepView {
    match json_parse(output) {
        Some(tree) => WorkerStepView::WriteResult {
            task,
            document: result_document(transcript(segments(tree))),
        },
        None => WorkerStepView::RemoveOutput { task },
    }
}

/// The step that follows on `event`. An event that does not answer the step
/// leaves it as it is.
pub open spec fn worker_next(step: WorkerStepView, event: WorkerEventView) -> WorkerStepView {
    let ended = event is Done || event is Failed;
    match step {
        WorkerStepView::DecodeTask { .. } => match event {
            WorkerEventView::Decoded(task) => WorkerStepView::Convert { task },
            WorkerEventView::Failed => WorkerStepView::Reject,
            _ => step,
        },
        WorkerStepView::Convert { task } => match event {
            WorkerEventView::Done => WorkerStepView::Transcribe { task },
            WorkerEventView::Failed => WorkerStepView::RemoveUpload { task },
            _ => step,
        },
        WorkerStepView::Transcribe { task } => match event {
            WorkerEventView::Done => WorkerStepView::ReadOutput { task },
            WorkerEventView::Failed => WorkerStepView::RemoveUpload { task },
            _ => step,
        },
        WorkerStepView::ReadOutput { task } => match event {
            WorkerEventView::Content(output) => after_output(task, output),
            WorkerEventView::Failed => WorkerStepView::RemoveOutput { task },
            _ => step,
        },
        WorkerStepView::WriteResult { task, .. } => if ended {
            WorkerStepView::RemoveOutput { task }
        } else {
            step
        },
        WorkerStepView::RemoveOutput { task } => if ended {
            WorkerStepView::RemoveUpload { task }
        } else {
            step
        },
        WorkerStepView::RemoveUpload { task } => if ended {
            WorkerStepView::RemoveWav { task }
        } else {
            step
        },
        WorkerStepView::RemoveWav { task } => if ended {
            WorkerStepView::Acknowledge { task }
        } else {
            step
        },
        WorkerStepView::Acknowledge { .. } => if ended {
            WorkerStepView::Finished
        } else {
            step
        },
        WorkerStepView::Reject => if ended {
            WorkerStepView::Finished
        } else {
            step
        },
        WorkerStepView::Finished => step,
    }
}

impl WorkerStep {
    /// The first step for a message with this content.
    pub fn start(content: Vec<u8>) -> (r: WorkerStep)
        ensures
            r@ == worker_start(content@),
    {
        match string_from_utf8(content) {
            Some(json) => WorkerStep::DecodeTask { json },
            None => WorkerStep::Reject,
        }
    }

    /// The step that follows on `event`.
    pub fn next(self, event: WorkerEvent) -> (r: WorkerStep)
        ensures
            r@ == worker_next(self@, event@),
            (self, event) matches (WorkerStep::ReadOutput { .. }, WorkerEvent::Content(output))
                ==> (r matches WorkerStep::WriteResult { document, .. } ==> is_record_document(
                document@,
                result_fields(transcript(segments(json_parse(output@)->Some_0))),
            )),
            (self, event) matches (
                WorkerStep::ReadOutput { task },
                WorkerEvent::Content(output),
            ) ==> match json_parse(output@) {
                Some(tree) => r matches WorkerStep::WriteResult { task: worked, document }
                    && worked@ == task@ && json_parse(document@) == Some(
                    JsonTree::Record(
                        Map::empty().insert(
                            "text"@,
                            JsonTree::Text(trimmed(joined(segments(tree)))),
                        ),
                    ),
                ),
                None => r matches WorkerStep::RemoveOutput { task: worked } && worked@ == task@,
            },
            (self, event) matches (
                WorkerStep::DecodeTask { .. },
                WorkerEvent::Decoded(task),
            ) ==> (r matches WorkerStep::Convert { task: worked } && worked@ == task@),
    {
        match (self, event) {
            (WorkerStep::DecodeTask { .. }, WorkerEvent::Decoded(task)) => WorkerStep::Convert {
                task,
            },
            (WorkerStep::DecodeTask { .. }, WorkerEvent::Failed) => WorkerStep::Reject,
            (WorkerStep::Convert { task }, WorkerEvent::Done) => WorkerStep::Transcribe { task },
            (WorkerStep::Convert { task }, WorkerEvent::Failed) => WorkerStep::RemoveUpload {
                task,
            },
            (WorkerStep::Transcribe { task }, WorkerEvent::Done) => WorkerStep::ReadOutput {
                task,
            },
            (WorkerStep::Transcribe { task }, WorkerEvent::Failed) => WorkerStep::RemoveUpload {
                task,
            },
            (WorkerStep::ReadOutput { task }, WorkerEvent::Content(output)) => {
                match document_of_output(output.as_str()) {
                    Some(document) => WorkerStep::WriteResult { task, document },
                    None => WorkerStep::RemoveOutput { task },
                }
            },
            (WorkerStep::ReadOutput { task }, WorkerEvent::Failed) => WorkerStep::RemoveOutput {
                task,
            },
            (WorkerStep::WriteResult { task, .. }, WorkerEvent::Done) =>
                WorkerStep::RemoveOutput { task },
            (WorkerStep::WriteResult { task, .. }, WorkerEvent::Failed) =>
                WorkerStep::RemoveOutput { task },
            (WorkerStep::RemoveOutput { task }, WorkerEvent::Done) => WorkerStep::RemoveUpload {
                task,
            },
            (WorkerStep::RemoveOutput { task }, WorkerEvent::Failed) => WorkerStep::RemoveUpload {
                task,
            },
            (WorkerStep::RemoveUpload { task }, WorkerEvent::Done) => WorkerStep::RemoveWav {
                task,
            },
            (WorkerStep::RemoveUpload { task }, WorkerEvent::Failed) => WorkerStep::RemoveWav {
                task,
            },
            (WorkerStep::RemoveWav { task }, WorkerEvent::Done) => WorkerStep::Acknowledge {
                task,
            },
            (WorkerStep::RemoveWav { task }, WorkerEvent::Failed) => WorkerStep::Acknowledge {
                task,
            },
            (WorkerStep::Acknowledge { .. }, WorkerEvent::Done) => WorkerStep::Finished,
            (WorkerStep::Acknowledge { .. }, WorkerEvent::Failed) => WorkerStep::Finished,
            (WorkerStep::Reject, WorkerEvent::Done) => WorkerStep::Finished,
            (WorkerStep::Reject, WorkerEvent::Failed) => WorkerStep::Finished,
            (step, _) => step,
        }
    }
}

/// Where the work on a message stands after `events`.
pub open spec fn worker_run(step: WorkerStepView, events: Seq<WorkerEventView>) -> WorkerStepView
    decreases events.len(),
{
    if events.len() == 0 {
        step
    } else {
        worker_run(worker_next(step, events.first()), events.drop_first())
    }
}

/// Whether the work on a message comes to the step `target` in the course of `events`.
pub open spec fn worker_visits(
    step: WorkerStepView,
    events: Seq<WorkerEventView>,
    target: WorkerStepView,
) -> bool
    decreases events.len(),
{
    step == target || (events.len() > 0 && worker_visits(
        worker_next(step, events.first()),
        events.drop_first(),
        target,
    ))
}

/// The task that a step is about.
pub open spec fn task_of(step: WorkerStepView) -> Option<TaskView> {
    match step {
        WorkerStepView::Convert { task } => Some(task),
        WorkerStepView::Transcribe { task } => Some(task),
        WorkerStepView::ReadOutput { task } => Some(task),
        WorkerStepView::WriteResult { task, .. } => Some(task),
        WorkerStepView::RemoveOutput { task } => Some(task),
        WorkerStepView::RemoveUpload { task } => Some(task),
        WorkerStepView::RemoveWav { task } => Some(task),
        WorkerStepView::Acknowledge { task } => Some(task),
        _ => None,
    }
}

/// How many steps are left at most.
pub open spec fn steps_left(step: WorkerStepView) -> nat {
    match step {
        WorkerStepView::DecodeTask { .. } => 9,
        WorkerStepView::Convert { .. } => 8,
        WorkerStepView::Transcribe { .. } => 7,
        WorkerStepView::ReadOutput { .. } => 6,
        WorkerStepView::WriteResult { .. } => 5,
        WorkerStepView::RemoveOutput { .. } => 4,
        WorkerStepView::RemoveUpload { .. } => 3,
        WorkerStepView::RemoveWav { .. } => 2,
        WorkerStepView::Acknowledge { .. } => 1,
        WorkerStepView::Reject => 1,
        WorkerStepView::Finished => 0,
    }
}

/// An event that changes the step brings the work closer to its end, and a
/// failure always does: no message keeps the worker for ever.
pub proof fn law_work_comes_to_an_end(step: WorkerStepView, event: WorkerEventView)
    ensures
        worker_next(step, event) == step || steps_left(worker_next(step, event)) < steps_left(step),
        step !is Finished ==> steps_left(worker_next(step, WorkerEventView::Failed)) < steps_left(
            step,
        ),
        steps_left(step) == 0 <==> step is Finished,
{
}

/// Once a task was read, the work on it does not end before the upload and the
/// converted audio are removed and the message is acknowledged, whatever fails.
pub proof fn law_work_ends_clean(task: TaskView, events: Seq<WorkerEventView>)
    requires
        worker_run(WorkerStepView::Convert { task }, events) is Finished,
    ensures
        worker_visits(
            WorkerStepView::Convert { task },
            events,
            WorkerStepView::RemoveUpload { task },
        ),
        worker_visits(
            WorkerStepView::Convert { task },
            events,
            WorkerStepView::RemoveWav { task },
        ),
        worker_visits(
            WorkerStepView::Convert { task },
            events,
            WorkerStepView::Acknowledge { task },
        ),
{
    lemma_ends_clean(WorkerStepView::Convert { task }, task, events);
}

proof fn lemma_ends_clean(step: WorkerStepView, task: TaskView, events: Seq<WorkerEventView>)
    requires
        task_of(step) == Some(task),
        worker_run(step, events) is Finished,
    ensures
        steps_left(step) >= 3 ==> worker_visits(
            step,
            events,
            WorkerStepView::RemoveUpload { task },
        ),
        steps_left(step) >= 2 ==> worker_visits(step, events, WorkerStepView::RemoveWav { task }),
        worker_visits(step, events, WorkerStepView::Acknowledge { task }),
    decreases events.len(),
{
    if events.len() > 0 && step !is Acknowledge {
        lemma_ends_clean(worker_next(step, events.first()), task, events.drop_first());
    }
}

/// The work on a message that comes to its end has either acknowledged it or
/// refused it, and never both. It is refused if and only if no task was read.
pub proof fn law_settled_once(content: Seq<u8>, events: Seq<WorkerEventView>)
    requires
        worker_run(worker_start(content), events) is Finished,
    ensures
        worker_visits(worker_start(content), events, WorkerStepView::Reject) <==> !exists|
            task: TaskView,
        | #[trigger]
            worker_visits(worker_start(content), events, WorkerStepView::Acknowledge { task }),
        worker_visits(worker_start(content), events, WorkerStepView::Reject) <==> !exists|
            task: TaskView,
        | #[trigger]
            worker_visits(worker_start(content), events, WorkerStepView::Convert { task }),
{
    let start = worker_start(content);
    lemma_settled(start, events);
    if worker_visits(start, events, WorkerStepView::Reject) {
        assert forall|task: TaskView| !(#[trigger] worker_visits(
            start,
            events,
            WorkerStepView::Convert { task },
        )) by {
            assert(!worker_visits(start, events, WorkerStepView::Acknowledge { task }));
        }
    }
}

proof fn lemma_settled(step: WorkerStepView, events: Seq<WorkerEventView>)
    requires
        step is DecodeTask || step is Reject,
        worker_run(step, events) is Finished,
    ensures
        worker_visits(step, events, WorkerStepView::Reject) ==> forall|task: TaskView|
            !(#[trigger] worker_visits(step, events, WorkerStepView::Acknowledge { task }))
                && !worker_visits(step, events, WorkerStepView::Convert { task }),
        !worker_visits(step, events, WorkerStepView::Reject) ==> exists|task: TaskView|
            #[trigger] worker_visits(step, events, WorkerStepView::Acknowledge { task })
                && worker_visits(step, events, WorkerStepView::Convert { task }),
    decreases events.len(),
{
    if step is Reject {
        assert forall|task: TaskView|
            !(#[trigger] worker_visits(step, events, WorkerStepView::Acknowledge { task }))
                && !worker_visits(step, events, WorkerStepView::Convert { task }) by {
            lemma_rejected(step, events, task);
        }
    } else if events.len() > 0 {
        let next = worker_next(step, events.first());
        let rest = events.drop_first();
        if next is Convert {
            let task = next->Convert_task;
            lemma_ends_clean(next, task, rest);
            lemma_not_rejected(next, rest);
            assert(worker_visits(next, rest, WorkerStepView::Convert { task }));
            assert(worker_visits(step, events, WorkerStepView::Acknowledge { task }));
        } else {
            lemma_settled(next, rest);
            if worker_visits(step, events, WorkerStepView::Reject) {
                assert forall|task: TaskView|
                    !(#[trigger] worker_visits(step, events, WorkerStepView::Acknowledge { task }))
                        && !worker_visits(step, events, WorkerStepView::Convert { task }) by {
                    assert(!worker_visits(next, rest, WorkerStepView::Acknowledge { task }));
                }
            } else {
                let task = choose|task: TaskView| #[trigger]
                    worker_visits(next, rest, WorkerStepView::Acknowledge { task })
                        && worker_visits(next, rest, WorkerStepView::Convert { task });
                assert(worker_visits(step, events, WorkerStepView::Acknowledge { task }));
                assert(worker_visits(step, events, WorkerStepView::Convert { task }));
            }
        }
    }
}

proof fn lemma_rejected(step: WorkerStepView, events: Seq<WorkerEventView>, task: TaskView)
    requires
        step is Reject || step is Finished,
    ensures
        !worker_visits(step, events, WorkerStepView::Acknowledge { task }),
        !worker_visits(step, events, WorkerStepView::Convert { task }),
    decreases events.len(),
{
    if events.len() > 0 {
        lemma_rejected(worker_next(step, events.first()), events.drop_first(), task);
    }
}

proof fn lemma_not_rejected(step: WorkerStepView, events: Seq<WorkerEventView>)
    requires
        step is Finished || task_of(step) is Some,
    ensures
        !worker_visits(step, events, WorkerStepView::Reject),
    decreases events.len(),
{
    if events.len() > 0 {
        lemma_not_rejected(worker_next(step, events.first()), events.drop_first());
    }
}

/// A result is only kept for a task whose conversion and recognition succeeded,
/// and it is the transcript in what the recognizer wrote.
pub proof fn law_kept_result_is_the_transcript(
    task: TaskView,
    events: Seq<WorkerEventView>,
    document: Seq<char>,
)
    requires
        worker_visits(
            WorkerStepView::Convert { task },
            events,
            WorkerStepView::WriteResult { task, document },
        ),
    ensures
        worker_visits(WorkerStepView::Convert { task }, events, WorkerStepView::Transcribe { task }),
        worker_visits(WorkerStepView::Convert { task }, events, WorkerStepView::ReadOutput { task }),
        exists|i: int|
            0 <= i < events.len() && ((#[trigger] events[i]) matches WorkerEventView::Content(
                output,
            ) && json_parse(output) is Some && document == result_document(
                transcript(segments(json_parse(output)->Some_0)),
            )),
{
    lemma_kept(WorkerStepView::Convert { task }, task, events, document);
}

proof fn lemma_kept(
    step: WorkerStepView,
    task: TaskView,
    events: Seq<WorkerEventView>,
    document: Seq<char>,
)
    requires
        step is Convert || step is Transcribe || step is ReadOutput,
        task_of(step) == Some(task),
        worker_visits(step, events, WorkerStepView::WriteResult { task, document }),
    ensures
        step is Convert ==> worker_visits(step, events, WorkerStepView::Transcribe { task }),
        worker_visits(step, events, WorkerStepView::ReadOutput { task }),
        exists|i: int|
            0 <= i < events.len() && ((#[trigger] events[i]) matches WorkerEventView::Content(
                output,
            ) && json_parse(output) is Some && document == result_document(
                transcript(segments(json_parse(output)->Some_0)),
            )),
    decreases events.len(),
{
    let next = worker_next(step, events.first());
    let rest = events.drop_first();
    if next is Convert || next is Transcribe || next is ReadOutput {
        lemma_kept(next, task, rest, document);
        reveal_with_fuel(worker_visits, 2);
        let i = choose|i: int|
            0 <= i < rest.len() && ((#[trigger] rest[i]) matches WorkerEventView::Content(output)
                && json_parse(output) is Some && document == result_document(
                transcript(segments(json_parse(output)->Some_0)),
            ));
        assert(events[i + 1] == rest[i]);
    } else if next is WriteResult {
        if next->WriteResult_document != document {
            lemma_one_result(next, task, rest, document);
        }
        assert(events[0] == events.first());
    } else {
        lemma_nothing_kept(next, task, rest, document);
    }
}

proof fn lemma_one_result(
    step: WorkerStepView,
    task: TaskView,
    events: Seq<WorkerEventView>,
    document: Seq<char>,
)
    requires
        step is WriteResult,
        step->WriteResult_document != document,
    ensures
        !worker_visits(step, events, WorkerStepView::WriteResult { task, document }),
    decreases events.len(),
{
    if events.len() > 0 {
        let next = worker_next(step, events.first());
        if next == step {
            lemma_one_result(step, task, events.drop_first(), document);
        } else {
            lemma_nothing_kept(next, task, events.drop_first(), document);
        }
    }
}

proof fn lemma_nothing_kept(
    step: WorkerStepView,
    task: TaskView,
    events: Seq<WorkerEventView>,
    document: Seq<char>,
)
    requires
        steps_left(step) <= 4,
    ensures
        !worker_visits(step, events, WorkerStepView::WriteResult { task, document }),
    decreases events.len(),
{
    if events.len() > 0 {
        lemma_nothing_kept(
            worker_next(step, events.first()),
            task,
            events.drop_first(),
            document,
        );
    }
}

/// The result that the worker keeps for a task is the file that the service
/// reads when it is asked for the task, where both use the shared directory.
pub proof fn law_result_is_found_where_kept(task: TaskView)
    ensures
        kept_path(task) == result_path(SHARED_DIR@, task.task_id),
{
    reveal_strlit("/tmp/transcribe/");
    reveal_strlit("/tmp/transcribe");
    reveal_strlit("/");
    assert("/tmp/transcribe/"@ =~= "/tmp/transcribe"@ + "/"@);
}

/// What the recognizer wrote for a task reaches whoever asks for it by an
/// accepted identifier: the worker keeps the document of the transcript, the
/// identifier leads to that document, and the answer holds it as it was kept.
pub proof fn law_transcript_reaches_the_caller(
    task: TaskView,
    output: Seq<char>,
    document: Seq<char>,
)
    requires
        valid_task_id(task.task_id),
        json_parse(output) is Some,
        is_record_document(
            document,
            result_fields(transcript(segments(json_parse(output)->Some_0))),
        ),
    ensures
        after_output(task, output) == (WorkerStepView::WriteResult { task, document }),
        result_path(SHARED_DIR@, task.task_id) == kept_path(task),
        content_answer(document) == (ReplyView {
            status: 200,
            format: ReplyFormat::Json,
            body: document,
        }),
        json_parse(document) == Some(
            JsonTree::Record(
                json_record(
                    result_fields(transcript(segments(json_parse(output)->Some_0))),
                ),
            ),
        ),
{
    law_result_is_found_where_kept(task);
    law_result_is_served_as_written(document, transcript(segments(json_parse(output)->Some_0)));
}

/// The conversion reads the upload and writes the audio of the task: 16 kHz, one
/// channel, 16 bits, in place of an older file.
pub proof fn law_conversion_reads_the_upload(task: TaskView)
    ensures
        ({
            let args = convert_invocation(task).args;
            &&& convert_invocation(task).program == "ffmpeg"@
            &&& args.len() == 10
            &&& args[0] == "-y"@
            &&& args[1] == "-i"@ && args[2] == task.file_path
            &&& args[3] == "-ar"@ && args[4] == "16000"@
            &&& args[5] == "-ac"@ && args[6] == "1"@
            &&& args[7] == "-c:a"@ && args[8] == "pcm_s16le"@
            &&& args[9] == "/tmp/transcribe/"@ + task.task_id + ".wav"@
        }),
{
}

/// The recognition reads what the conversion wrote, finds the language by itself and
/// writes JSON, to the file that is then read and removed.
pub proof fn law_recognition_reads_the_conversion(task: TaskView)
    ensures
        ({
            let args = transcribe_invocation(task).args;
            &&& transcribe_invocation(task).program == "whisper-cli"@
            &&& args.len() == 7
            &&& args[0] == "-m"@ && args[1] == "/models/ggml-small.bin"@
            &&& args[2] == "-l"@ && args[3] == "auto"@
            &&& args[4] == "-f"@ && args[5] == convert_invocation(task).args.last()
            &&& args[6] == "-oj"@
            &&& args[5] == wav_path(task)
            &&& output_path(task) == args[5] + ".json"@
        }),
{
}

/// What is done for a task goes by its identifier, and the conversion also by its file:
/// the chat, the message, the name of the file and the time change nothing.
pub proof fn law_work_goes_by_identifier(task1: TaskView, task2: TaskView)
    ensures
        task1.task_id == task2.task_id ==> transcribe_invocation(task1) == transcribe_invocation(
            task2,
        ) && wav_path(task1) == wav_path(task2) && output_path(task1) == output_path(task2)
            && kept_path(task1) == kept_path(task2),
        task1.task_id == task2.task_id && task1.file_path == task2.file_path ==> convert_invocation(
            task1,
        ) == convert_invocation(task2),
{
}

/// Tasks with different identifiers have different files, and the files of one task
/// differ from each other.
pub proof fn law_tasks_have_their_own_files(task1: TaskView, task2: TaskView)
    ensures
        task1.task_id != task2.task_id ==> wav_path(task1) != wav_path(task2) && output_path(task1)
            != output_path(task2) && kept_path(task1) != kept_path(task2),
        wav_path(task1) != output_path(task1),
        wav_path(task1) != kept_path(task1),
        output_path(task1) != kept_path(task1),
{
    reveal_strlit("/tmp/transcribe/");
    reveal_strlit(".wav");
    reveal_strlit(".json");
    let n = "/tmp/transcribe/"@.len() as int;
    assert(wav_path(task1).subrange(n, wav_path(task1).len() - 4) =~= task1.task_id);
    assert(wav_path(task2).subrange(n, wav_path(task2).len() - 4) =~= task2.task_id);
    assert(kept_path(task1).subrange(n, kept_path(task1).len() - 5) =~= task1.task_id);
    assert(kept_path(task2).subrange(n, kept_path(task2).len() - 5) =~= task2.task_id);
    assert(output_path(task1).subrange(n, output_path(task1).len() - 9) =~= task1.task_id);
    assert(output_path(task2).subrange(n, output_path(task2).len() - 9) =~= task2.task_id);
}

/// Where the work on a message begins: a message that is text is read as that text,
/// whole, and any other is refused.
pub proof fn law_messages_are_read_as_text(content: Seq<u8>, json: Seq<char>)
    ensures
        worker_start(encode_utf8(json)) == (WorkerStepView::DecodeTask { json }),
        worker_start(content) matches WorkerStepView::DecodeTask { json: read } ==> encode_utf8(read)
            == content,
        worker_start(content) is DecodeTask <==> valid_utf8(content),
        worker_start(content) is Reject <==> !valid_utf8(content),
{
    encode_utf8_valid_utf8(json);
    encode_utf8_decode_utf8(json);
    if valid_utf8(content) {
        decode_utf8_encode_utf8(content);
    }
}

/// A message that holds a task is worked on: the task is taken as it was read, and
/// each step that is done leads to the next one, up to the acknowledgement.
pub proof fn law_work_goes_on(
    json: Seq<char>,
    task: TaskView,
    document: Seq<char>,
    output: Seq<char>,
)
    ensures
        worker_next(WorkerStepView::DecodeTask { json }, WorkerEventView::Decoded(task)) == (
        WorkerStepView::Convert { task }),
        worker_next(WorkerStepView::Convert { task }, WorkerEventView::Done) == (
        WorkerStepView::Transcribe { task }),
        worker_next(WorkerStepView::Transcribe { task }, WorkerEventView::Done) == (
        WorkerStepView::ReadOutput { task }),
        json_parse(output) matches Some(tree) ==> worker_next(
            WorkerStepView::ReadOutput { task },
            WorkerEventView::Content(output),
        ) == (WorkerStepView::WriteResult {
            task,
            document: result_document(trimmed(joined(segments(tree)))),
        }),
        worker_next(WorkerStepView::WriteResult { task, document }, WorkerEventView::Done) == (
        WorkerStepView::RemoveOutput { task }),
        worker_next(WorkerStepView::RemoveOutput { task }, WorkerEventView::Done) == (
        WorkerStepView::RemoveUpload { task }),
        worker_next(WorkerStepView::RemoveUpload { task }, WorkerEventView::Done) == (
        WorkerStepView::RemoveWav { task }),
        worker_next(WorkerStepView::RemoveWav { task }, WorkerEventView::Done) == (
        WorkerStepView::Acknowledge { task }),
        worker_next(WorkerStepView::Acknowledge { task }, WorkerEventView::Done)
            == WorkerStepView::Finished,
        worker_next(WorkerStepView::Reject, WorkerEventView::Done) == WorkerStepView::Finished,
{
}

/// A failure leads to the cleaning that is then due: a message that is no task is
/// refused; what fails before there is output leads to the upload; output that cannot
/// be read, or is no JSON, is removed; and what fails from then on holds nothing up.
pub proof fn law_failures_lead_to_cleaning(
    json: Seq<char>,
    task: TaskView,
    document: Seq<char>,
    output: Seq<char>,
)
    ensures
        worker_next(WorkerStepView::DecodeTask { json }, WorkerEventView::Failed)
            == WorkerStepView::Reject,
        worker_next(WorkerStepView::Convert { task }, WorkerEventView::Failed) == (
        WorkerStepView::RemoveUpload { task }),
        worker_next(WorkerStepView::Transcribe { task }, WorkerEventView::Failed) == (
        WorkerStepView::RemoveUpload { task }),
        worker_next(WorkerStepView::ReadOutput { task }, WorkerEventView::Failed) == (
        WorkerStepView::RemoveOutput { task }),
        json_parse(output) is None ==> worker_next(
            WorkerStepView::ReadOutput { task },
            WorkerEventView::Content(output),
        ) == (WorkerStepView::RemoveOutput { task }),
        worker_next(WorkerStepView::WriteResult { task, document }, WorkerEventView::Failed)
            == worker_next(WorkerStepView::WriteResult { task, document }, WorkerEventView::Done),
        worker_next(WorkerStepView::RemoveOutput { task }, WorkerEventView::Failed) == worker_next(
            WorkerStepView::RemoveOutput { task },
            WorkerEventView::Done,
        ),
        worker_next(WorkerStepView::RemoveUpload { task }, WorkerEventView::Failed) == worker_next(
            WorkerStepView::RemoveUpload { task },
            WorkerEventView::Done,
        ),
        worker_next(WorkerStepView::RemoveWav { task }, WorkerEventView::Failed) == worker_next(
            WorkerStepView::RemoveWav { task },
            WorkerEventView::Done,
        ),
        worker_next(WorkerStepView::Acknowledge { task }, WorkerEventView::Failed)
            == WorkerStepView::Finished,
        worker_next(WorkerStepView::Reject, WorkerEventView::Failed) == WorkerStepView::Finished,
{
}

/// What does not answer the step that is to be done changes nothing.
pub proof fn law_work_waits_for_its_step(step: WorkerStepView, event: WorkerEventView)
    ensures
        step is Finished ==> worker_next(step, event) == step,
        step !is DecodeTask && event is Decoded ==> worker_next(step, event) == step,
        step !is ReadOutput && event is Content ==> worker_next(step, event) == step,
        (step is DecodeTask || step is ReadOutput) && event is Done ==> worker_next(step, event)
            == step,
{
}

} // verus!
