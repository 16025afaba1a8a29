//! Serving results, and the state of the service.

use crate::file_name::{last_component, lemma_last_component};
use crate::fresh::{lower_hex, uuid_text};
use crate::json::{
    field_texts, is_record_document, json_parse, json_record, json_text, law_document_of_one_text,
    parse, reserved_key, value_to_string, JsonTree,
};
use crate::reply::{plain_reply, record_reply, Reply, ReplyFormat, ReplyView};
use crate::storage::{result_path, FileStorage};
use crate::task::optional_text;
use crate::text::{alphanumeric, chars_of, is_alphanumeric, unicode_alphanumeric};
use crate::whisper::result_fields;
use vstd::prelude::*;

verus! {

/// A character that may stand in a task identifier.
pub open spec fn task_id_char(c: char) -> bool {
    alphanumeric(c) || c == '-'
}

/// An identifier that a result may be asked for by.
pub open spec fn valid_task_id(task_id: Seq<char>) -> bool {
    forall|i: int| 0 <= i < task_id.len() ==> task_id_char(#[trigger] task_id[i])
}

/// Whether a result may be asked for by this identifier.
pub fn is_valid_task_id(task_id: &str) -> (r: bool)
    ensures
        r == valid_task_id(task_id@),
{
    let chars = chars_of(task_id);
    let mut i: usize = 0;
    while i < chars.len()
        invariant
            i <= chars@.len(),
            chars@ == task_id@,
            forall|j: int| 0 <= j < i ==> task_id_char(#[trigger] task_id@[j]),
        decreases chars@.len() - i,
    {
        let c = chars[i];
        if !(is_alphanumeric(c) || c == '-') {
            assert(!task_id_char(task_id@[i as int]));
            return false;
        }
        i = i + 1;
    }
    true
}

/// What came of reading the file of a result.
#[derive(Debug)]
pub enum ResultFile {
    Content(String),
    NotFound,
    Unreadable,
}

/// The answer that hands out a JSON document as it is.
pub open spec fn document_answer(document: Option<Seq<char>>) -> ReplyView {
    match document {
        Some(text) => ReplyView { status: 200, format: ReplyFormat::Json, body: text },
        None => plain_reply(500, "Invalid JSON result"@),
    }
}

/// The answer to a request for a result whose file has this content.
pub open spec fn content_answer(content: Seq<char>) -> ReplyView {
    document_answer(
        match json_parse(content) {
            Some(tree) => Some(json_text(tree)),
            None => None,
        },
    )
}

/// The fields of the answer to a request for a result that is not there.
pub open spec fn not_found_fields() -> Seq<(Seq<char>, Seq<char>)> {
    seq![("status"@, "processing_or_not_found"@)]
}

/// The fields of the answer that tells that the service is up.
pub open spec fn health_fields() -> Seq<(Seq<char>, Seq<char>)> {
    seq![("status"@, "ok"@), ("service"@, "transcribe-api"@)]
}

impl FileStorage {
    /// The file to read for the result of `task_id`, or the answer that refuses
    /// the identifier.
    pub fn locate_result(&self, task_id: &str) -> (r: Result<String, Reply>)
        ensures
            r is Ok <==> valid_task_id(task_id@),
            r matches Ok(path) ==> path@ == result_path(self.tmp_dir@, task_id@),
            r matches Err(reply) ==> reply@ == plain_reply(400, "Invalid task ID"@),
            r matches Ok(path) ==> path@ == self.tmp_dir@ + "/"@ + task_id@ + ".json"@,
            r matches Err(reply) ==> reply.status == 400 && reply.format == ReplyFormat::PlainText
                && reply.body@ == "Invalid task ID"@,
    {
        if !is_valid_task_id(task_id) {
            return Err(Reply::plain(400, "Invalid task ID"));
        }
        Ok(self.result_path(task_id))
    }
}

/// The answer that hands out a document, or tells that there is none.
pub fn document_reply(document: Option<String>) -> (r: Reply)
    ensures
        r@ == document_answer(optional_text(document)),
        match document {
            Some(text) => r.status == 200 && r.format == ReplyFormat::Json && r.body@ == text@,
            None => r.status == 500 && r.format == ReplyFormat::PlainText && r.body@
                == "Invalid JSON result"@,
        },
{
    match document {
        Some(text) => Reply { status: 200, format: ReplyFormat::Json, body: text },
        None => Reply::plain(500, "Invalid JSON result"),
    }
}

/// The answer to a request for a result, once its file was read.
pub fn result_reply(file: ResultFile) -> (r: Reply)
    ensures
        match file {
            ResultFile::Content(content) => r@ == content_answer(content@),
            ResultFile::NotFound => r@ == record_reply(404, not_found_fields())
                && is_record_document(r.body@, not_found_fields()),
            ResultFile::Unreadable => r@ == plain_reply(500, "Error reading result"@),
        },
        match file {
            ResultFile::Content(content) => match json_parse(content@) {
                Some(tree) => r.status == 200 && r.format == ReplyFormat::Json && r.body@
                    == json_text(tree),
                None => r.status == 500 && r.format == ReplyFormat::PlainText && r.body@
                    == "Invalid JSON result"@,
            },
            ResultFile::NotFound => r.status == 404 && r.format == ReplyFormat::Json && json_parse(
                r.body@,
            ) == Some(
                JsonTree::Record(
                    Map::empty().insert("status"@, JsonTree::Text("processing_or_not_found"@)),
                ),
            ),
            ResultFile::Unreadable => r.status == 500 && r.format == ReplyFormat::PlainText
                && r.body@ == "Error reading result"@,
        },
{
    match file {
        ResultFile::Content(content) => {
            let document = match parse(content.as_str()) {
                Ok(value) => match value_to_string(&value) {
                    Ok(text) => Some(text),
                    Err(_) => None,
                },
                Err(_) => None,
            };
            document_reply(document)
        },
        ResultFile::NotFound => {
            let fields: Vec<(&str, &str)> = vec![("status", "processing_or_not_found")];
            proof {
                reveal_strlit("status");
                reveal_strlit("$serde_json::private::RawValue");
                assert("status"@.len() != reserved_key().len());
                assert(field_texts(fields@) =~= not_found_fields());
            }
            let reply = Reply::record(404, &fields);
            proof {
                law_document_of_one_text(reply.body@, "status"@, "processing_or_not_found"@);
            }
            reply
        },
        ResultFile::Unreadable => Reply::plain(500, "Error reading result"),
    }
}

/// The answer that tells that the service is up.
pub fn health() -> (r: Reply)
    ensures
        r@ == record_reply(200, health_fields()),
        is_record_document(r.body@, health_fields()),
        r.status == 200,
        r.format == ReplyFormat::Json,
        json_parse(r.body@) == Some(
            JsonTree::Record(
                Map::empty().insert("status"@, JsonTree::Text("ok"@)).insert(
                    "service"@,
                    JsonTree::Text("transcribe-api"@),
                ),
            ),
        ),
{
    let fields: Vec<(&str, &str)> = vec![("status", "ok"), ("service", "transcribe-api")];
    proof {
        reveal_strlit("status");
        reveal_strlit("service");
        reveal_strlit("$serde_json::private::RawValue");
        assert("status"@.len() != "service"@.len());
        assert(field_texts(fields@) =~= health_fields());
        reveal_with_fuel(json_record, 3);
        assert(health_fields().drop_last() =~= seq![("status"@, "ok"@)]);
        assert(health_fields().drop_last().drop_last() =~= Seq::empty());
    }
    Reply::record(200, &fields)
}

/// The answer for a result that was kept as the document of a text holds that
/// very document: what is read is what was written.
pub proof fn law_result_is_served_as_written(document: Seq<char>, text: Seq<char>)
    requires
        is_record_document(document, result_fields(text)),
    ensures
        content_answer(document) == (ReplyView {
            status: 200,
            format: ReplyFormat::Json,
            body: document,
        }),
{
}

/// The identifiers that the service hands out are accepted when a result is
/// asked for.
pub proof fn law_issued_ids_are_accepted(id: Seq<char>)
    requires
        uuid_text(id),
    ensures
        valid_task_id(id),
{
    assert forall|i: int| 0 <= i < id.len() implies task_id_char(#[trigger] id[i]) by {
        if i == 8 || i == 13 || i == 18 || i == 23 {
            assert(id[i] == '-');
        } else {
            assert(lower_hex(id[i]));
        }
    }
}

/// An accepted identifier leads to a file that lies in the directory itself.
pub proof fn law_result_stays_in_directory(dir: Seq<char>, task_id: Seq<char>)
    requires
        valid_task_id(task_id),
    ensures
        result_path(dir, task_id) == dir + "/"@ + (task_id + ".json"@),
        !(task_id + ".json"@).contains('/'),
        last_component(result_path(dir, task_id)) == task_id + ".json"@,
{
    reveal_strlit(".json");
    reveal_strlit("/");
    let name = task_id + ".json"@;
    assert(result_path(dir, task_id) =~= dir + "/"@ + name);
    assert forall|i: int| 0 <= i < name.len() implies #[trigger] name[i] != '/' by {
        if i < task_id.len() {
            assert(task_id_char(task_id[i]));
        }
    }
    lemma_last_component(dir, name);
}

/// An identifier is accepted or not by each of its characters alone: ASCII letters
/// and digits, hyphens and, beyond ASCII, what is alphanumeric are accepted.
pub proof fn law_identifiers_go_by_character(a: Seq<char>, b: Seq<char>, c: char)
    ensures
        valid_task_id(Seq::empty()),
        valid_task_id(a + b) <==> valid_task_id(a) && valid_task_id(b),
        valid_task_id(seq![c]) <==> 'a' <= c <= 'z' || 'A' <= c <= 'Z' || '0' <= c <= '9' || c
            == '-' || (c as u32 >= 128 && unicode_alphanumeric(c)),
{
    let whole = a + b;
    if valid_task_id(whole) {
        assert forall|i: int| 0 <= i < a.len() implies task_id_char(#[trigger] a[i]) by {
            assert(task_id_char(whole[i]));
        }
        assert forall|i: int| 0 <= i < b.len() implies task_id_char(#[trigger] b[i]) by {
            assert(task_id_char(whole[i + a.len()]));
        }
    }
    if valid_task_id(seq![c]) {
        assert(task_id_char(seq![c][0]));
    }
}

/// A result that can be read is answered with the JSON document that it holds, and
/// one that is no JSON document as the server's fault.
pub proof fn law_answers_for_contents(content: Seq<char>)
    ensures
        json_parse(content) matches Some(tree) ==> content_answer(content) == (ReplyView {
            status: 200,
            format: ReplyFormat::Json,
            body: json_text(tree),
        }),
        json_parse(content) is None ==> content_answer(content) == (ReplyView {
            status: 500,
            format: ReplyFormat::PlainText,
            body: "Invalid JSON result"@,
        }),
{
}

} // verus!
