//! What can go wrong with an upload.

use crate::json::{
    field_texts, is_record_document, json_parse, law_document_of_one_text, reserved_key, JsonTree,
};
use crate::reply::{record_reply, Reply, ReplyFormat};
use vstd::prelude::*;
use vstd::string::*;

verus! {

/// Why an upload was not accepted. Each variant holds the message for the caller.
#[derive(Debug)]
pub enum TranscribeError {
    FileOperation(String),
    RabbitMQ(String),
    Validation(String),
}

/// The contents of an error.
#[verifier::ext_equal]
pub enum ErrorView {
    FileOperation(Seq<char>),
    RabbitMQ(Seq<char>),
    Validation(Seq<char>),
}

impl View for TranscribeError {
    type V = ErrorView;

    open spec fn view(&self) -> ErrorView {
        match self {
            TranscribeError::FileOperation(message) => ErrorView::FileOperation(message@),
            TranscribeError::RabbitMQ(message) => ErrorView::RabbitMQ(message@),
            TranscribeError::Validation(message) => ErrorView::Validation(message@),
        }
    }
}

/// The message of an error.
pub open spec fn error_message(error: ErrorView) -> Seq<char> {
    match error {
        ErrorView::FileOperation(message) => message,
        ErrorView::RabbitMQ(message) => message,
        ErrorView::Validation(message) => message,
    }
}

/// The HTTP status that answers an error: the caller's fault, the server's own,
/// or the message broker's.
pub open spec fn error_status(error: ErrorView) -> u16 {
    match error {
        ErrorView::Validation(_) => 400,
        ErrorView::FileOperation(_) => 500,
        ErrorView::RabbitMQ(_) => 503,
    }
}

/// The file operation that failed.
#[derive(Debug, Clone, Copy, PartialEq, Eq, Structural)]
pub enum FileStage {
    CreateDir,
    CreateFile,
    ReadChunk,
    WriteChunk,
    FlushBuffer,
    SyncFile,
    DeleteFile,
    ParseMultipart,
}

/// How the message of a failed file operation begins.
pub open spec fn file_stage_prefix(stage: FileStage) -> Seq<char> {
    match stage {
        FileStage::CreateDir => "Cannot create tmp dir: "@,
        FileStage::CreateFile => "Cannot create file: "@,
        FileStage::ReadChunk => "Failed to read chunk: "@,
        FileStage::WriteChunk => "Failed to write chunk: "@,
        FileStage::FlushBuffer => "Failed to flush buffer: "@,
        FileStage::SyncFile => "Failed to sync file: "@,
        FileStage::DeleteFile => "Cannot delete file: "@,
        FileStage::ParseMultipart => "Multipart parsing failed: "@,
    }
}

/// The error of a file operation that failed for the reason `detail`.
pub open spec fn file_error(stage: FileStage, detail: Seq<char>) -> ErrorView {
    ErrorView::FileOperation(file_stage_prefix(stage) + detail)
}

/// The broker operation that failed.
#[derive(Debug, Clone, Copy, PartialEq, Eq, Structural)]
pub enum BrokerStage {
    Encode,
    DeclareExchange,
    Publish,
}

/// How the message of a failed broker operation begins.
pub open spec fn broker_stage_prefix(stage: BrokerStage) -> Seq<char> {
    match stage {
        BrokerStage::Encode => "JSON serialization failed: "@,
        BrokerStage::DeclareExchange => "Failed to declare exchange: "@,
        BrokerStage::Publish => "Publish failed: "@,
    }
}

/// The error of a broker operation that failed for the reason `detail`.
pub open spec fn broker_error(stage: BrokerStage, detail: Seq<char>) -> ErrorView {
    ErrorView::RabbitMQ(broker_stage_prefix(stage) + detail)
}

impl TranscribeError {
    /// The error of a file operation that failed for the reason `detail`.
    pub fn file_operation(stage: FileStage, detail: &str) -> (r: TranscribeError)
        ensures
            r@ == file_error(stage, detail@),
    {
        let prefix = match stage {
            FileStage::CreateDir => "Cannot create tmp dir: ",
            FileStage::CreateFile => "Cannot create file: ",
            FileStage::ReadChunk => "Failed to read chunk: ",
            FileStage::WriteChunk => "Failed to write chunk: ",
            FileStage::FlushBuffer => "Failed to flush buffer: ",
            FileStage::SyncFile => "Failed to sync file: ",
            FileStage::DeleteFile => "Cannot delete file: ",
            FileStage::ParseMultipart => "Multipart parsing failed: ",
        };
        TranscribeError::FileOperation(prefix.to_owned().concat(detail))
    }

    /// The error of a broker operation that failed for the reason `detail`.
    pub fn broker(stage: BrokerStage, detail: &str) -> (r: TranscribeError)
        ensures
            r@ == broker_error(stage, detail@),
    {
        let prefix = match stage {
            BrokerStage::Encode => "JSON serialization failed: ",
            BrokerStage::DeclareExchange => "Failed to declare exchange: ",
            BrokerStage::Publish => "Publish failed: ",
        };
        TranscribeError::RabbitMQ(prefix.to_owned().concat(detail))
    }

    /// The error of a request that is refused with `message`.
    pub fn validation(message: &str) -> (r: TranscribeError)
        ensures
            r@ == ErrorView::Validation(message@),
    {
        TranscribeError::Validation(message.to_owned())
    }

    /// The HTTP answer: the status of the error, and a JSON record with its message.
    pub fn into_response(self) -> (r: Reply)
        ensures
            r@ == record_reply(error_status(self@), seq![("error"@, error_message(self@))]),
            is_record_document(r.body@, seq![("error"@, error_message(self@))]),
            r.format == ReplyFormat::Json,
            match self {
                TranscribeError::Validation(message) => r.status == 400 && json_parse(r.body@)
                    == Some(
                    JsonTree::Record(Map::empty().insert("error"@, JsonTree::Text(message@))),
                ),
                TranscribeError::FileOperation(message) => r.status == 500 && json_parse(r.body@)
                    == Some(
                    JsonTree::Record(Map::empty().insert("error"@, JsonTree::Text(message@))),
                ),
                TranscribeError::RabbitMQ(message) => r.status == 503 && json_parse(r.body@)
                    == Some(
                    JsonTree::Record(Map::empty().insert("error"@, JsonTree::Text(message@))),
                ),
            },
    {
        let (status, message): (u16, String) = match self {
            TranscribeError::Validation(message) => (400, message),
            TranscribeError::FileOperation(message) => (500, message),
            TranscribeError::RabbitMQ(message) => (503, message),
        };
        let fields: Vec<(&str, &str)> = vec![("error", message.as_str())];
        proof {
            reveal_strlit("error");
            reveal_strlit("$serde_json::private::RawValue");
            assert("error"@.len() != reserved_key().len());
            assert(field_texts(fields@) =~= seq![("error"@, message@)]);
        }
        let reply = Reply::record(status, &fields);
        proof {
            law_document_of_one_text(reply.body@, "error"@, message@);
        }
        reply
    }
}

/// The outcome of a file operation, with the reason of a failure made an error.
pub fn file_outcome(stage: FileStage, outcome: Result<(), String>) -> (r: Result<
    (),
    TranscribeError,
>)
    ensures
        match outcome {
            Ok(_) => r is Ok,
            Err(detail) => r is Err && r->Err_0@ == file_error(stage, detail@),
        },
{
    match outcome {
        Ok(_) => Ok(()),
        Err(detail) => Err(TranscribeError::file_operation(stage, detail.as_str())),
    }
}

/// An error is answered by its kind alone: the caller's fault with 400, the
/// server's with 500, the broker's with 503. The caller gets its whole message.
pub proof fn law_errors_are_answered_by_kind(message: Seq<char>)
    ensures
        error_status(ErrorView::Validation(message)) == 400,
        error_status(ErrorView::FileOperation(message)) == 500,
        error_status(ErrorView::RabbitMQ(message)) == 503,
        error_message(ErrorView::Validation(message)) == message,
        error_message(ErrorView::FileOperation(message)) == message,
        error_message(ErrorView::RabbitMQ(message)) == message,
{
}

/// A failed operation on a file is the server's fault, and its message tells what
/// failed and ends in the whole reason.
pub proof fn law_file_errors_tell_what_failed(detail: Seq<char>)
    ensures
        file_error(FileStage::CreateDir, detail) == ErrorView::FileOperation(
            "Cannot create tmp dir: "@ + detail,
        ),
        file_error(FileStage::CreateFile, detail) == ErrorView::FileOperation(
            "Cannot create file: "@ + detail,
        ),
        file_error(FileStage::ReadChunk, detail) == ErrorView::FileOperation(
            "Failed to read chunk: "@ + detail,
        ),
        file_error(FileStage::WriteChunk, detail) == ErrorView::FileOperation(
            "Failed to write chunk: "@ + detail,
        ),
        file_error(FileStage::FlushBuffer, detail) == ErrorView::FileOperation(
            "Failed to flush buffer: "@ + detail,
        ),
        file_error(FileStage::SyncFile, detail) == ErrorView::FileOperation(
            "Failed to sync file: "@ + detail,
        ),
        file_error(FileStage::DeleteFile, detail) == ErrorView::FileOperation(
            "Cannot delete file: "@ + detail,
        ),
        file_error(FileStage::ParseMultipart, detail) == ErrorView::FileOperation(
            "Multipart parsing failed: "@ + detail,
        ),
{
}

/// A failed operation on the broker is the broker's fault, and its message tells
/// what failed and ends in the whole reason.
pub proof fn law_broker_errors_tell_what_failed(detail: Seq<char>)
    ensures
        broker_error(BrokerStage::Encode, detail) == ErrorView::RabbitMQ(
            "JSON serialization failed: "@ + detail,
        ),
        broker_error(BrokerStage::DeclareExchange, detail) == ErrorView::RabbitMQ(
            "Failed to declare exchange: "@ + detail,
        ),
        broker_error(BrokerStage::Publish, detail) == ErrorView::RabbitMQ(
            "Publish failed: "@ + detail,
        ),
{
}

/// What is said of an error is said of its own kind and message.
pub proof fn law_contents_of_errors(message: String)
    ensures
        TranscribeError::Validation(message)@ == ErrorView::Validation(message@),
        TranscribeError::FileOperation(message)@ == ErrorView::FileOperation(message@),
        TranscribeError::RabbitMQ(message)@ == ErrorView::RabbitMQ(message@),
{
}

} // verus!
