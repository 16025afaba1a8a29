//! HTTP answers.

use crate::json::{
    field_texts, json_parse, json_record, json_text, plain_fields, record_document, JsonTree,
};
use vstd::prelude::*;

verus! {

/// How the body of an answer is to be read.
#[derive(Debug, Clone, Copy, PartialEq, Eq, Structural)]
pub enum ReplyFormat {
    Json,
    PlainText,
}

/// An HTTP answer.
#[derive(Debug)]
pub struct Reply {
    pub status: u16,
    pub format: ReplyFormat,
    pub body: String,
}

/// The contents of an answer.
#[verifier::ext_equal]
pub struct ReplyView {
    pub status: u16,
    pub format: ReplyFormat,
    pub body: Seq<char>,
}

impl View for Reply {
    type V = ReplyView;

    open spec fn view(&self) -> ReplyView {
        ReplyView { status: self.status, format: self.format, body: self.body@ }
    }
}

/// An answer with a short plain text.
pub open spec fn plain_reply(status: u16, text: Seq<char>) -> ReplyView {
    ReplyView { status, format: ReplyFormat::PlainText, body: text }
}

/// An answer with the JSON document of a record of texts.
pub open spec fn record_reply(status: u16, fields: Seq<(Seq<char>, Seq<char>)>) -> ReplyView {
    ReplyView {
        status,
        format: ReplyFormat::Json,
        body: json_text(JsonTree::Record(json_record(fields))),
    }
}

impl Reply {
    /// An answer with a short plain text.
    pub fn plain(status: u16, text: &str) -> (r: Reply)
        ensures
            r@ == plain_reply(status, text@),
            r.status == status,
            r.format == ReplyFormat::PlainText,
            r.body@ == text@,
    {
        Reply { status, format: ReplyFormat::PlainText, body: text.to_owned() }
    }

    /// An answer with the JSON document of a record of texts. No two fields may
    /// have the same name, and none the reserved one.
    pub fn record(status: u16, fields: &Vec<(&str, &str)>) -> (r: Reply)
        requires
            plain_fields(field_texts(fields@)),
        ensures
            r@ == record_reply(status, field_texts(fields@)),
            r.status == status,
            r.format == ReplyFormat::Json,
            json_parse(r.body@) == Some(JsonTree::Record(json_record(field_texts(fields@)))),
    {
        Reply { status, format: ReplyFormat::Json, body: record_document(fields) }
    }
}

/// An answer has the status that it is given, and tells how its body is to be read.
pub proof fn law_answers_as_given(
    status: u16,
    text: Seq<char>,
    fields: Seq<(Seq<char>, Seq<char>)>,
)
    ensures
        plain_reply(status, text).status == status,
        plain_reply(status, text).format == ReplyFormat::PlainText,
        plain_reply(status, text).body == text,
        record_reply(status, fields).status == status,
        record_reply(status, fields).format == ReplyFormat::Json,
        record_reply(status, fields).body == json_text(JsonTree::Record(json_record(fields))),
{
}

} // verus!
