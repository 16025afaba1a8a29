//! The transcript in the output of the speech recognizer.

use crate::json::{
    field, field_texts, is_record_document, json_field, json_parse, json_record, json_text, json_tree,
    law_document_of_one_text, parse, record_document, reserved_key, JsonTree,
};
use crate::task::optional_text;
use crate::text::{law_trimmed, trim, trimmed, white_space};
use vstd::prelude::*;
use vstd::string::*;

verus! {

/// The text of one item of a transcription, where it has one.
pub open spec fn segment_text(item: JsonTree) -> Option<Seq<char>> {
    match json_field(item, "text"@) {
        Some(JsonTree::Text(text)) => Some(text),
        _ => None,
    }
}

/// The texts of the items under `transcription`; none where there is no such list.
pub open spec fn segments(output: JsonTree) -> Seq<Option<Seq<char>>> {
    match json_field(output, "transcription"@) {
        Some(JsonTree::List(items)) => items.map_values(|item: JsonTree| segment_text(item)),
        _ => Seq::empty(),
    }
}

/// The texts of the segments, one after the other.
pub open spec fn joined(segments: Seq<Option<Seq<char>>>) -> Seq<char>
    decreases segments.len(),
{
    if segments.len() == 0 {
        Seq::empty()
    } else {
        joined(segments.drop_last()) + match segments.last() {
            Some(text) => text,
            None => Seq::empty(),
        }
    }
}

/// The transcript: the texts of the segments, without white space around them.
pub open spec fn transcript(segments: Seq<Option<Seq<char>>>) -> Seq<char> {
    trimmed(joined(segments))
}

/// The fields of the result of a task.
pub open spec fn result_fields(text: Seq<char>) -> Seq<(Seq<char>, Seq<char>)> {
    seq![("text"@, text)]
}

/// The document that is kept as the result of a task.
pub open spec fn result_document(text: Seq<char>) -> Seq<char> {
    json_text(JsonTree::Record(json_record(result_fields(text))))
}

/// The segments that the recognizer wrote.
pub fn read_segments(output: &serde_json::Value) -> (r: Vec<Option<String>>)
    ensures
        r@.map_values(|s: Option<String>| optional_text(s)) == segments(json_tree(*output)),
{
    let mut out: Vec<Option<String>> = Vec::new();
    let ghost expected = segments(json_tree(*output));
    let list = match field(output, "transcription") {
        Some(list) => list,
        None => {
            assert(out@.map_values(|s: Option<String>| optional_text(s)) =~= expected);
            return out;
        },
    };
    match list.as_array() {
        None => {
            assert(out@.map_values(|s: Option<String>| optional_text(s)) =~= expected);
        },
        Some(items) => {
            let ghost trees = items@.map_values(|item: serde_json::Value| json_tree(item));
            assert(json_tree(*list) == JsonTree::List(trees));
            let mut i: usize = 0;
            while i < items.len()
                invariant
                    i <= items@.len(),
                    out@.len() == i,
                    trees == items@.map_values(|item: serde_json::Value| json_tree(item)),
                    forall|j: int|
                        0 <= j < i ==> optional_text(#[trigger] out@[j]) == segment_text(trees[j]),
                decreases items@.len() - i,
            {
                let text = match field(&items[i], "text") {
                    Some(value) => match value.as_str() {
                        Some(text) => Some(text.to_owned()),
                        None => None,
                    },
                    None => None,
                };
                assert(trees[i as int] == json_tree(items@[i as int]));
                assert(optional_text(text) == segment_text(trees[i as int]));
                out.push(text);
                i = i + 1;
            }
            assert(out@.map_values(|s: Option<String>| optional_text(s)) =~= expected);
        },
    }
    out
}

/// Puts the texts of the segments one after the other.
pub fn join_segments(segments: &Vec<Option<String>>) -> (r: String)
    ensures
        r@ == joined(segments@.map_values(|s: Option<String>| optional_text(s))),
{
    let mut out = String::new();
    let ghost texts = segments@.map_values(|s: Option<String>| optional_text(s));
    let mut i: usize = 0;
    while i < segments.len()
        invariant
            i <= segments@.len(),
            texts == segments@.map_values(|s: Option<String>| optional_text(s)),
            out@ == joined(texts.take(i as int)),
        decreases segments@.len() - i,
    {
        proof {
            assert(texts.take(i + 1).drop_last() =~= texts.take(i as int));
            assert(texts.take(i + 1).last() == optional_text(segments@[i as int]));
        }
        let ghost before = out@;
        if let Some(text) = &segments[i] {
            out.append(text.as_str());
        } else {
            assert(before + Seq::<char>::empty() =~= before);
        }
        i = i + 1;
    }
    assert(texts.take(i as int) =~= texts);
    out
}

/// The document that is kept as the result of a task with these segments.
pub fn transcript_document(segments: &Vec<Option<String>>) -> (r: String)
    ensures
        is_record_document(
            r@,
            result_fields(
                transcript(segments@.map_values(|s: Option<String>| optional_text(s))),
            ),
        ),
{
    let full_text = join_segments(segments);
    let text = trim(full_text.as_str());
    let fields: Vec<(&str, &str)> = vec![("text", text)];
    proof {
        reveal_strlit("text");
        reveal_strlit("$serde_json::private::RawValue");
        assert("text"@.len() != reserved_key().len());
        assert(field_texts(fields@) =~= result_fields(text@));
    }
    record_document(&fields)
}

/// The document that is kept for what the recognizer wrote; none where that is
/// not a JSON document.
pub fn document_of_output(output: &str) -> (r: Option<String>)
    ensures
        match json_parse(output@) {
            Some(tree) => r is Some && is_record_document(
                r->Some_0@,
                result_fields(transcript(segments(tree))),
            ),
            None => r is None,
        },
        json_parse(output@) is Some <==> r is Some,
        r matches Some(document) ==> json_parse(document@) == Some(
            JsonTree::Record(
                Map::empty().insert(
                    "text"@,
                    JsonTree::Text(trimmed(joined(segments(json_parse(output@)->Some_0)))),
                ),
            ),
        ),
{
    match parse(output) {
        Ok(value) => {
            let segments = read_segments(&value);
            let document = transcript_document(&segments);
            proof {
                law_document_of_one_text(
                    document@,
                    "text"@,
                    transcript(segments@.map_values(|s: Option<String>| optional_text(s))),
                );
            }
            Some(document)
        },
        Err(_) => None,
    }
}

/// Joining goes by segment: what two lists give together is what the first gives
/// and then what the second gives; one text gives itself, and a segment without a
/// text gives nothing. So the text of every segment is there in order, however many
/// there are.
pub proof fn law_joining_goes_by_segment(
    a: Seq<Option<Seq<char>>>,
    b: Seq<Option<Seq<char>>>,
    text: Seq<char>,
)
    ensures
        joined(Seq::empty()) == Seq::<char>::empty(),
        joined(seq![None]) == Seq::<char>::empty(),
        joined(seq![Some(text)]) == text,
        joined(a + b) == joined(a) + joined(b),
    decreases b.len(),
{
    let none: Seq<Option<Seq<char>>> = seq![None];
    let one = seq![Some(text)];
    reveal_with_fuel(joined, 2);
    assert(none.drop_last() =~= Seq::empty());
    assert(one.drop_last() =~= Seq::empty());
    assert(joined(none) =~= Seq::empty());
    assert(joined(one) =~= text);
    if b.len() == 0 {
        assert(a + b =~= a);
        assert(joined(a) + joined(b) =~= joined(a));
    } else {
        assert((a + b).drop_last() =~= a + b.drop_last());
        assert((a + b).last() == b.last());
        law_joining_goes_by_segment(a, b.drop_last(), text);
        assert(joined(a + b) =~= joined(a) + joined(b));
    }
}

/// The text of every segment stands whole in what is joined, after the texts of the
/// segments before it and before those of the segments after it.
pub proof fn law_every_segment_is_joined(segments: Seq<Option<Seq<char>>>, i: int)
    requires
        0 <= i < segments.len(),
    ensures
        segments[i] matches Some(text) ==> joined(segments) == joined(segments.take(i)) + text
            + joined(segments.skip(i + 1)),
        segments[i] is None ==> joined(segments) == joined(segments.take(i)) + joined(
            segments.skip(i + 1),
        ),
{
    let before = segments.take(i);
    let this = seq![segments[i]];
    let after = segments.skip(i + 1);
    let text = match segments[i] {
        Some(text) => text,
        None => Seq::empty(),
    };
    assert(segments =~= before + this + after);
    law_joining_goes_by_segment(before + this, after, text);
    law_joining_goes_by_segment(before, this, text);
    assert(joined(before) + Seq::<char>::empty() =~= joined(before));
}

/// A transcript is what is joined, but for the white space at its ends. Nothing else
/// is taken from it.
pub proof fn law_transcript_is_what_is_joined(segments: Seq<Option<Seq<char>>>) -> (r: (
    Seq<char>,
    Seq<char>,
))
    ensures
        joined(segments) == r.0 + transcript(segments) + r.1,
        forall|i: int| 0 <= i < r.0.len() ==> white_space(#[trigger] r.0[i]),
        forall|i: int| 0 <= i < r.1.len() ==> white_space(#[trigger] r.1[i]),
        transcript(segments).len() > 0 ==> !white_space(transcript(segments).first())
            && !white_space(transcript(segments).last()),
{
    law_trimmed(joined(segments))
}

/// There is a segment for every item of the list under `transcription`, with the text
/// under its name `text`; what has no such text is a segment without one. Where there
/// is no such list, there are no segments.
pub proof fn law_segments_are_the_items(output: JsonTree, i: int)
    ensures
        output matches JsonTree::Record(fields) ==> (fields.contains_key("transcription"@) ==> (
        fields["transcription"@] matches JsonTree::List(items) ==> segments(output).len()
            == items.len() && (0 <= i < items.len() ==> (match items[i] {
            JsonTree::Record(item) => if item.contains_key("text"@) {
                match item["text"@] {
                    JsonTree::Text(text) => segments(output)[i] == Some(text),
                    _ => segments(output)[i] is None,
                }
            } else {
                segments(output)[i] is None
            },
            _ => segments(output)[i] is None,
        })))),
        !(output matches JsonTree::Record(fields) && fields.contains_key("transcription"@)
            && fields["transcription"@] is List) ==> segments(output).len() == 0,
{
}

/// The result of a task is a record with its transcript under the name `text`, and
/// nothing else.
pub proof fn law_result_holds_the_text(document: Seq<char>, text: Seq<char>)
    requires
        is_record_document(document, result_fields(text)),
    ensures
        document == result_document(text),
        json_parse(document) == Some(
            JsonTree::Record(Map::empty().insert("text"@, JsonTree::Text(text))),
        ),
{
    law_document_of_one_text(document, "text"@, text);
}

} // verus!
