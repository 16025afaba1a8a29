//! Saving an upload chunk by chunk.

use crate::error::{file_error, ErrorView, FileStage, TranscribeError};
use crate::storage::FileStorage;
use crate::text::{decimal, decimal_string};
use vstd::prelude::*;
use vstd::string::*;

verus! {

/// What is to be done next to save a file. `total` counts the bytes that are
/// written once the step is done.
#[derive(Debug)]
pub enum SaveStep {
    CreateFile,
    ReadChunk { total: u64 },
    WriteChunk { total: u64 },
    FlushBuffer { total: u64 },
    SyncFile { total: u64 },
    /// Remove the incomplete file of an upload that is too large.
    RemoveFile,
    /// Nothing: the file is saved with this size, or it failed.
    Finished(Result<u64, TranscribeError>),
}

/// The contents of a step.
#[verifier::ext_equal]
pub enum SaveStepView {
    CreateFile,
    ReadChunk { total: u64 },
    WriteChunk { total: u64 },
    FlushBuffer { total: u64 },
    SyncFile { total: u64 },
    RemoveFile,
    Finished(Result<u64, ErrorView>),
}

impl View for SaveStep {
    type V = SaveStepView;

    open spec fn view(&self) -> SaveStepView {
        match self {
            SaveStep::CreateFile => SaveStepView::CreateFile,
            SaveStep::ReadChunk { total } => SaveStepView::ReadChunk { total: *total },
            SaveStep::WriteChunk { total } => SaveStepView::WriteChunk { total: *total },
            SaveStep::FlushBuffer { total } => SaveStepView::FlushBuffer { total: *total },
            SaveStep::SyncFile { total } => SaveStepView::SyncFile { total: *total },
            SaveStep::RemoveFile => SaveStepView::RemoveFile,
            SaveStep::Finished(Ok(total)) => SaveStepView::Finished(Ok(*total)),
            SaveStep::Finished(Err(error)) => SaveStepView::Finished(Err(error@)),
        }
    }
}

/// What came of the step that was to be done.
#[derive(Debug)]
pub enum SaveEvent {
    /// It was done.
    Done,
    /// It failed, for this reason.
    Failed(String),
    /// The next chunk was read, with this many bytes.
    Chunk(u64),
    /// There was no further chunk to read.
    EndOfField,
}

/// The contents of an event.
#[verifier::ext_equal]
pub enum SaveEventView {
    Done,
    Failed(Seq<char>),
    Chunk(u64),
    EndOfField,
}

impl View for SaveEvent {
    type V = SaveEventView;

    open spec fn view(&self) -> SaveEventView {
        match self {
            SaveEvent::Done => SaveEventView::Done,
            SaveEvent::Failed(detail) => SaveEventView::Failed(detail@),
            SaveEvent::Chunk(size) => SaveEventView::Chunk(*size),
            SaveEvent::EndOfField => SaveEventView::EndOfField,
        }
    }
}

/// The error that refuses an upload of more than `max` bytes.
pub open spec fn size_error(max: u64) -> ErrorView {
    ErrorView::Validation(
        "File size exceeds limit of "@ + decimal((max / 1048576) as nat) + " MB"@,
    )
}

/// The end of a save whose current step failed.
pub open spec fn save_failed(stage: FileStage, detail: Seq<char>) -> SaveStepView {
    SaveStepView::Finished(Err(file_error(stage, detail)))
}

/// The step that follows on `event`, where files of up to `max` bytes are
/// saved. An event that does not answer the step leaves it as it is.
pub open spec fn save_next(max: u64, step: SaveStepView, event: SaveEventView) -> SaveStepView {
    match (step, event) {
        (SaveStepView::CreateFile, SaveEventView::Done) => SaveStepView::ReadChunk { total: 0 },
        (SaveStepView::CreateFile, SaveEventView::Failed(detail)) => save_failed(
            FileStage::CreateFile,
            detail,
        ),
        (SaveStepView::ReadChunk { total }, SaveEventView::Chunk(size)) => if total + size > max {
            SaveStepView::RemoveFile
        } else {
            SaveStepView::WriteChunk { total: (total + size) as u64 }
        },
        (SaveStepView::ReadChunk { total }, SaveEventView::EndOfField) =>
            SaveStepView::FlushBuffer { total },
        (SaveStepView::ReadChunk { .. }, SaveEventView::Failed(detail)) => save_failed(
            FileStage::ReadChunk,
            detail,
        ),
        (SaveStepView::WriteChunk { total }, SaveEventView::Done) => SaveStepView::ReadChunk {
            total,
        },
        (SaveStepView::WriteChunk { .. }, SaveEventView::Failed(detail)) => save_failed(
            FileStage::WriteChunk,
            detail,
        ),
        (SaveStepView::FlushBuffer { total }, SaveEventView::Done) => SaveStepView::SyncFile {
            total,
        },
        (SaveStepView::FlushBuffer { .. }, SaveEventView::Failed(detail)) => save_failed(
            FileStage::FlushBuffer,
            detail,
        ),
        (SaveStepView::SyncFile { total }, SaveEventView::Done) => SaveStepView::Finished(
            Ok(total),
        ),
        (SaveStepView::SyncFile { .. }, SaveEventView::Failed(detail)) => save_failed(
            FileStage::SyncFile,
            detail,
        ),
        (SaveStepView::RemoveFile, SaveEventView::Done) => SaveStepView::Finished(
            Err(size_error(max)),
        ),
        (SaveStepView::RemoveFile, SaveEventView::Failed(_)) => SaveStepView::Finished(
            Err(size_error(max)),
        ),
        (step, _) => step,
    }
}

impl FileStorage {
    /// The error that refuses an upload for its size.
    pub fn size_error(&self) -> (r: TranscribeError)
        ensures
            r@ == size_error(self.max_file_size),
    {
        let limit = decimal_string(self.max_file_size / 1048576);
        let message = "File size exceeds limit of ".to_owned().concat(limit.as_str()).concat(
            " MB",
        );
        TranscribeError::Validation(message)
    }

    /// The step that follows on `event` while a file is saved.
    pub fn save_next(&self, step: SaveStep, event: SaveEvent) -> (r: SaveStep)
        ensures
            r@ == save_next(self.max_file_size, step@, event@),
            (step, event) matches (SaveStep::ReadChunk { total }, SaveEvent::Chunk(size)) ==> (
            if total + size <= self.max_file_size {
                r matches SaveStep::WriteChunk { total: counted } && counted == total + size
            } else {
                r is RemoveFile
            }),
            (step, event) matches (SaveStep::SyncFile { total }, SaveEvent::Done) ==> (
            r matches SaveStep::Finished(Ok(size)) && size == total),
    {
        match (step, event) {
            (SaveStep::CreateFile, SaveEvent::Done) => SaveStep::ReadChunk { total: 0 },
            (SaveStep::CreateFile, SaveEvent::Failed(detail)) => SaveStep::Finished(
                Err(TranscribeError::file_operation(FileStage::CreateFile, detail.as_str())),
            ),
            (SaveStep::ReadChunk { total }, SaveEvent::Chunk(size)) => {
                match total.checked_add(size) {
                    Some(sum) if sum <= self.max_file_size => SaveStep::WriteChunk { total: sum },
                    _ => SaveStep::RemoveFile,
                }
            },
            (SaveStep::ReadChunk { total }, SaveEvent::EndOfField) => SaveStep::FlushBuffer {
                total,
            },
            (SaveStep::ReadChunk { .. }, SaveEvent::Failed(detail)) => SaveStep::Finished(
                Err(TranscribeError::file_operation(FileStage::ReadChunk, detail.as_str())),
            ),
            (SaveStep::WriteChunk { total }, SaveEvent::Done) => SaveStep::ReadChunk { total },
            (SaveStep::WriteChunk { .. }, SaveEvent::Failed(detail)) => SaveStep::Finished(
                Err(TranscribeError::file_operation(FileStage::WriteChunk, detail.as_str())),
            ),
            (SaveStep::FlushBuffer { total }, SaveEvent::Done) => SaveStep::SyncFile { total },
            (SaveStep::FlushBuffer { .. }, SaveEvent::Failed(detail)) => SaveStep::Finished(
                Err(TranscribeError::file_operation(FileStage::FlushBuffer, detail.as_str())),
            ),
            (SaveStep::SyncFile { total }, SaveEvent::Done) => SaveStep::Finished(Ok(total)),
            (SaveStep::SyncFile { .. }, SaveEvent::Failed(detail)) => SaveStep::Finished(
                Err(TranscribeError::file_operation(FileStage::SyncFile, detail.as_str())),
            ),
            (SaveStep::RemoveFile, SaveEvent::Done) => SaveStep::Finished(Err(self.size_error())),
            (SaveStep::RemoveFile, SaveEvent::Failed(_)) => SaveStep::Finished(
                Err(self.size_error()),
            ),
            (step, _) => step,
        }
    }
}

/// Where a save stands after `events`.
pub open spec fn save_run(
    max: u64,
    step: SaveStepView,
    events: Seq<SaveEventView>,
) -> SaveStepView
    decreases events.len(),
{
    if events.len() == 0 {
        step
    } else {
        save_run(max, save_next(max, step, events.first()), events.drop_first())
    }
}

/// The number of bytes in `chunks`.
pub open spec fn total_size(chunks: Seq<u64>) -> nat
    decreases chunks.len(),
{
    if chunks.len() == 0 {
        0
    } else {
        chunks.first() as nat + total_size(chunks.drop_first())
    }
}

/// What happens from the first read on when `chunks` arrive and nothing fails.
pub open spec fn chunk_events(chunks: Seq<u64>) -> Seq<SaveEventView>
    decreases chunks.len(),
{
    if chunks.len() == 0 {
        seq![SaveEventView::EndOfField, SaveEventView::Done, SaveEventView::Done]
    } else {
        seq![SaveEventView::Chunk(chunks.first()), SaveEventView::Done] + chunk_events(
            chunks.drop_first(),
        )
    }
}

/// A file that arrives without a failure is saved, with the size of its chunks,
/// if and only if that size is within the limit. A larger one is removed and
/// refused, however it is cut into chunks.
pub proof fn law_saved_within_limit(max: u64, chunks: Seq<u64>)
    ensures
        save_run(
            max,
            SaveStepView::CreateFile,
            seq![SaveEventView::Done] + chunk_events(chunks),
        ) == (if total_size(chunks) <= max {
            SaveStepView::Finished(Ok(total_size(chunks) as u64))
        } else {
            SaveStepView::Finished(Err(size_error(max)))
        }),
{
    let events = seq![SaveEventView::Done] + chunk_events(chunks);
    assert(events.drop_first() =~= chunk_events(chunks));
    lemma_save_chunks(max, 0, chunks);
}

proof fn lemma_save_chunks(max: u64, total: u64, chunks: Seq<u64>)
    requires
        total <= max,
    ensures
        save_run(max, SaveStepView::ReadChunk { total }, chunk_events(chunks)) == (if total
            + total_size(chunks) <= max {
            SaveStepView::Finished(Ok((total + total_size(chunks)) as u64))
        } else {
            SaveStepView::Finished(Err(size_error(max)))
        }),
    decreases chunks.len(),
{
    let events = chunk_events(chunks);
    let first = events.drop_first();
    let second = first.drop_first();
    reveal_with_fuel(save_run, 4);
    if chunks.len() == 0 {
        assert(events.len() == 3);
        assert(second.drop_first() =~= Seq::empty());
    } else {
        let rest = chunks.drop_first();
        assert(second =~= chunk_events(rest));
        let size = chunks.first();
        if total + size <= max {
            lemma_save_chunks(max, (total + size) as u64, rest);
        } else {
            assert(save_next(max, SaveStepView::ReadChunk { total }, events.first())
                == SaveStepView::RemoveFile);
            lemma_save_finished(max, Err(size_error(max)), second);
        }
    }
}

proof fn lemma_save_finished(
    max: u64,
    outcome: Result<u64, ErrorView>,
    events: Seq<SaveEventView>,
)
    ensures
        save_run(max, SaveStepView::Finished(outcome), events) == SaveStepView::Finished(outcome),
    decreases events.len(),
{
    if events.len() > 0 {
        lemma_save_finished(max, outcome, events.drop_first());
    }
}

/// No count of a step exceeds the limit.
pub open spec fn within_limit(max: u64, step: SaveStepView) -> bool {
    match step {
        SaveStepView::ReadChunk { total } => total <= max,
        SaveStepView::WriteChunk { total } => total <= max,
        SaveStepView::FlushBuffer { total } => total <= max,
        SaveStepView::SyncFile { total } => total <= max,
        SaveStepView::Finished(Ok(total)) => total <= max,
        _ => true,
    }
}

/// Whatever happens while a file is saved, no more than the limit is ever
/// written, or reported as saved.
pub proof fn law_never_over_limit(max: u64, events: Seq<SaveEventView>)
    ensures
        within_limit(max, save_run(max, SaveStepView::CreateFile, events)),
{
    lemma_within_limit(max, SaveStepView::CreateFile, events);
}

proof fn lemma_within_limit(max: u64, step: SaveStepView, events: Seq<SaveEventView>)
    requires
        within_limit(max, step),
    ensures
        within_limit(max, save_run(max, step, events)),
    decreases events.len(),
{
    if events.len() > 0 {
        lemma_within_limit(max, save_next(max, step, events.first()), events.drop_first());
    }
}

/// Whether a save comes to the step `target` in the course of `events`.
pub open spec fn save_visits(
    max: u64,
    step: SaveStepView,
    events: Seq<SaveEventView>,
    target: SaveStepView,
) -> bool
    decreases events.len(),
{
    step == target || (events.len() > 0 && save_visits(
        max,
        save_next(max, step, events.first()),
        events.drop_first(),
        target,
    ))
}

/// A save that ends in a refusal has had its incomplete file removed.
pub proof fn law_refused_file_is_removed(max: u64, events: Seq<SaveEventView>)
    requires
        save_run(max, SaveStepView::CreateFile, events) matches SaveStepView::Finished(Err(e))
            && e is Validation,
    ensures
        save_visits(max, SaveStepView::CreateFile, events, SaveStepView::RemoveFile),
{
    lemma_refused_after_removal(max, SaveStepView::CreateFile, events);
}

proof fn lemma_refused_after_removal(max: u64, step: SaveStepView, events: Seq<SaveEventView>)
    requires
        step !is Finished,
        save_run(max, step, events) matches SaveStepView::Finished(Err(e)) && e is Validation,
    ensures
        save_visits(max, step, events, SaveStepView::RemoveFile),
    decreases events.len(),
{
    if events.len() > 0 && step != SaveStepView::RemoveFile {
        let next = save_next(max, step, events.first());
        if next is Finished {
            lemma_save_finished(max, next->Finished_0, events.drop_first());
        } else {
            lemma_refused_after_removal(max, next, events.drop_first());
        }
    }
}

/// Every chunk is counted in full, and written before the next one is read. The first
/// that goes over the limit has the file removed, and none within it does.
pub proof fn law_chunks_are_counted(max: u64, total: u64, size: u64)
    ensures
        total + size <= max ==> (save_next(
            max,
            SaveStepView::ReadChunk { total },
            SaveEventView::Chunk(size),
        ) matches SaveStepView::WriteChunk { total: counted } && counted == total + size),
        total + size > max ==> save_next(
            max,
            SaveStepView::ReadChunk { total },
            SaveEventView::Chunk(size),
        ) == SaveStepView::RemoveFile,
        save_next(max, SaveStepView::WriteChunk { total }, SaveEventView::Done) == (
        SaveStepView::ReadChunk { total }),
        save_next(max, SaveStepView::CreateFile, SaveEventView::Done) == (
        SaveStepView::ReadChunk { total: 0 }),
        save_next(max, SaveStepView::ReadChunk { total }, SaveEventView::EndOfField) == (
        SaveStepView::FlushBuffer { total }),
{
}

/// A file that is reported as saved was flushed and brought to the disk, with the
/// size that is reported, and was not removed.
pub proof fn law_saved_file_is_on_disk(max: u64, events: Seq<SaveEventView>, total: u64)
    requires
        save_run(max, SaveStepView::CreateFile, events) == SaveStepView::Finished(Ok(total)),
    ensures
        save_visits(max, SaveStepView::CreateFile, events, SaveStepView::FlushBuffer { total }),
        save_visits(max, SaveStepView::CreateFile, events, SaveStepView::SyncFile { total }),
        !save_visits(max, SaveStepView::CreateFile, events, SaveStepView::RemoveFile),
{
    lemma_on_disk(max, SaveStepView::CreateFile, events, total);
}

proof fn lemma_on_disk(max: u64, step: SaveStepView, events: Seq<SaveEventView>, total: u64)
    requires
        step !is Finished,
        save_run(max, step, events) == SaveStepView::Finished(Ok(total)),
    ensures
        step !is SyncFile ==> save_visits(max, step, events, SaveStepView::FlushBuffer { total }),
        save_visits(max, step, events, SaveStepView::SyncFile { total }),
        !save_visits(max, step, events, SaveStepView::RemoveFile),
        step matches SaveStepView::FlushBuffer { total: size } ==> size == total,
        step matches SaveStepView::SyncFile { total: size } ==> size == total,
        step !is RemoveFile,
    decreases events.len(),
{
    if events.len() > 0 {
        let next = save_next(max, step, events.first());
        let rest = events.drop_first();
        if next is Finished {
            lemma_save_finished(max, next->Finished_0, rest);
            lemma_finished_stays(max, next->Finished_0, rest);
        } else {
            lemma_on_disk(max, next, rest, total);
        }
    }
}

proof fn lemma_finished_stays(
    max: u64,
    outcome: Result<u64, ErrorView>,
    events: Seq<SaveEventView>,
)
    ensures
        !save_visits(max, SaveStepView::Finished(outcome), events, SaveStepView::RemoveFile),
    decreases events.len(),
{
    if events.len() > 0 {
        lemma_finished_stays(max, outcome, events.drop_first());
    }
}

/// Every step that fails ends the save at once, with an error that tells what failed
/// and why. A file that is too large is refused with the limit in mebibytes, whether
/// it could be removed or not.
pub proof fn law_failed_save_tells_why(max: u64, total: u64, detail: Seq<char>)
    ensures
        save_next(max, SaveStepView::CreateFile, SaveEventView::Failed(detail))
            == SaveStepView::Finished(
            Err(ErrorView::FileOperation("Cannot create file: "@ + detail)),
        ),
        save_next(max, SaveStepView::ReadChunk { total }, SaveEventView::Failed(detail))
            == SaveStepView::Finished(
            Err(ErrorView::FileOperation("Failed to read chunk: "@ + detail)),
        ),
        save_next(max, SaveStepView::WriteChunk { total }, SaveEventView::Failed(detail))
            == SaveStepView::Finished(
            Err(ErrorView::FileOperation("Failed to write chunk: "@ + detail)),
        ),
        save_next(max, SaveStepView::FlushBuffer { total }, SaveEventView::Failed(detail))
            == SaveStepView::Finished(
            Err(ErrorView::FileOperation("Failed to flush buffer: "@ + detail)),
        ),
        save_next(max, SaveStepView::SyncFile { total }, SaveEventView::Failed(detail))
            == SaveStepView::Finished(
            Err(ErrorView::FileOperation("Failed to sync file: "@ + detail)),
        ),
        save_next(max, SaveStepView::RemoveFile, SaveEventView::Done) == SaveStepView::Finished(
            Err(
                ErrorView::Validation(
                    "File size exceeds limit of "@ + decimal((max / 1048576) as nat) + " MB"@,
                ),
            ),
        ),
        save_next(max, SaveStepView::RemoveFile, SaveEventView::Failed(detail)) == save_next(
            max,
            SaveStepView::RemoveFile,
            SaveEventView::Done,
        ),
{
}

/// What does not answer the step that is to be done changes nothing.
pub proof fn law_save_waits_for_its_step(max: u64, step: SaveStepView, event: SaveEventView)
    ensures
        step is Finished ==> save_next(max, step, event) == step,
        step is ReadChunk && event is Done ==> save_next(max, step, event) == step,
        step !is ReadChunk && (event is Chunk || event is EndOfField) ==> save_next(
            max,
            step,
            event,
        ) == step,
{
}

} // verus!
