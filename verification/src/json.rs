//! JSON values, as `serde_json` reads and writes them.

use vstd::prelude::*;
use vstd::string::*;

verus! {

/// What a JSON value holds.
#[verifier::ext_equal]
pub enum JsonTree {
    Null,
    Bool(bool),
    /// A number, by the text that it is written with.
    Number(Seq<char>),
    Text(Seq<char>),
    List(Seq<JsonTree>),
    /// A record keeps no order: its fields are written sorted by their names.
    Record(Map<Seq<char>, JsonTree>),
}

/// The JSON value of `serde_json`.
#[verifier::external_type_specification]
#[verifier::external_body]
pub struct ExValue(serde_json::Value);

/// The error type of `serde_json`.
#[verifier::external_type_specification]
#[verifier::external_body]
pub struct ExError(serde_json::Error);

/// What a `serde_json::Value` holds.
pub uninterp spec fn json_tree(value: serde_json::Value) -> JsonTree;

/// What `serde_json::from_str` reads from a text, if the text is a JSON document.
pub uninterp spec fn json_parse(text: Seq<char>) -> Option<JsonTree>;

/// What `serde_json::to_string` writes for a value.
pub uninterp spec fn json_text(tree: JsonTree) -> Seq<char>;

/// The field `key` of a JSON record; nothing for any other value.
pub open spec fn json_field(tree: JsonTree, key: Seq<char>) -> Option<JsonTree> {
    match tree {
        JsonTree::Record(fields) => if fields.contains_key(key) {
            Some(fields[key])
        } else {
            None
        },
        _ => None,
    }
}

/// The field name by which `serde_json` marks a text that holds raw JSON: a
/// record that begins with it is read as what that text holds.
pub open spec fn reserved_key() -> Seq<char> {
    "$serde_json::private::RawValue"@
}

/// A record whose fields are all texts, none of them under the reserved name.
pub open spec fn is_text_record(tree: JsonTree) -> bool {
    tree matches JsonTree::Record(fields) && !fields.contains_key(reserved_key()) && forall|
        key: Seq<char>,
    | #[trigger] fields.contains_key(key) ==> fields[key] is Text
}

/// Fields with distinct names, none of them reserved.
pub open spec fn plain_fields(fields: Seq<(Seq<char>, Seq<char>)>) -> bool {
    &&& forall|i: int, j: int|
        0 <= i < j < fields.len() ==> #[trigger] fields[i].0 != #[trigger] fields[j].0
    &&& forall|i: int| 0 <= i < fields.len() ==> (#[trigger] fields[i]).0 != reserved_key()
}

/// The record with the given fields.
pub open spec fn json_record(fields: Seq<(Seq<char>, Seq<char>)>) -> Map<Seq<char>, JsonTree>
    decreases fields.len(),
{
    if fields.len() == 0 {
        Map::empty()
    } else {
        json_record(fields.drop_last()).insert(fields.last().0, JsonTree::Text(fields.last().1))
    }
}

/// Calls `serde_json::from_str` for a `Value`. Whether the text is a JSON
/// document, and what it holds, is only named.
#[verifier::external_body]
pub(crate) fn parse(text: &str) -> (r: Result<serde_json::Value, serde_json::Error>)
    ensures
        r is Ok <==> json_parse(text@) is Some,
        r matches Ok(value) ==> json_parse(text@) == Some(json_tree(value)),
{
    serde_json::from_str(text)
}

/// Calls `serde_json::Value::get` with a string: the field of that name where
/// the value is a record that has it, and nothing otherwise.
#[verifier::external_body]
pub(crate) fn field<'a>(value: &'a serde_json::Value, key: &str) -> (r: Option<
    &'a serde_json::Value,
>)
    ensures
        r is Some <==> json_field(json_tree(*value), key@) is Some,
        r matches Some(found) ==> json_field(json_tree(*value), key@) == Some(json_tree(*found)),
{
    value.get(key)
}

/// `serde_json::Value::as_array` gives the items of a list, and nothing for any
/// other value.
pub assume_specification[ serde_json::Value::as_array ](value: &serde_json::Value) -> (r: Option<
    &Vec<serde_json::Value>,
>)
    ensures
        r is Some <==> json_tree(*value) is List,
        r matches Some(items) ==> json_tree(*value) == JsonTree::List(
            items@.map_values(|item: serde_json::Value| json_tree(item)),
        ),
;

/// `serde_json::Value::as_str` gives the characters of a text, and nothing for
/// any other value.
pub assume_specification[ serde_json::Value::as_str ](value: &serde_json::Value) -> (r: Option<&str>)
    ensures
        r is Some <==> json_tree(*value) is Text,
        r matches Some(text) ==> json_tree(*value) == JsonTree::Text(text@),
;

/// Builds a `serde_json::Value::String`.
#[verifier::external_body]
pub(crate) fn text_value(text: &str) -> (r: serde_json::Value)
    ensures
        json_tree(r) == JsonTree::Text(text@),
{
    serde_json::Value::String(text.to_owned())
}

/// Builds a `serde_json::Value::Object` from a `serde_json::Map` that is
/// collected from the fields. No two fields may have the same name.
#[verifier::external_body]
pub(crate) fn record_value(fields: Vec<(String, serde_json::Value)>) -> (r: serde_json::Value)
    requires
        forall|i: int, j: int|
            0 <= i < j < fields@.len() ==> #[trigger] fields@[i].0@ != #[trigger] fields@[j].0@,
    ensures
        json_tree(r) is Record,
        forall|i: int|
            0 <= i < fields@.len() ==> json_field(json_tree(r), (#[trigger] fields@[i]).0@) == Some(
                json_tree(fields@[i].1),
            ),
        forall|key: Seq<char>| #[trigger]
            json_field(json_tree(r), key) is Some ==> exists|i: int|
                0 <= i < fields@.len() && (#[trigger] fields@[i]).0@ == key,
{
    serde_json::Value::Object(fields.into_iter().collect())
}

/// Calls `serde_json::to_string` on a `Value`. Its keys are strings, so it is
/// always written. The text is only named; a record of texts without the
/// reserved name is read back from it as it was (other values need not be: a
/// fraction may be rounded, a value nested too deeply is not read, and the
/// reserved name stands for raw JSON).
#[verifier::external_body]
pub(crate) fn value_to_string(value: &serde_json::Value) -> (r: Result<String, serde_json::Error>)
    ensures
        r is Ok,
        r matches Ok(text) ==> text@ == json_text(json_tree(*value)),
        r matches Ok(text) ==> is_text_record(json_tree(*value)) ==> json_parse(text@) == Some(
            json_tree(*value),
        ),
{
    serde_json::to_string(value)
}

/// The names and texts of the given fields.
pub open spec fn field_texts(fields: Seq<(&str, &str)>) -> Seq<(Seq<char>, Seq<char>)> {
    fields.map_values(|f: (&str, &str)| (f.0@, f.1@))
}

/// The JSON document of a record of texts. No two fields may have the same name,
/// and none the reserved one.
pub fn record_document(fields: &Vec<(&str, &str)>) -> (r: String)
    requires
        plain_fields(field_texts(fields@)),
    ensures
        is_record_document(r@, field_texts(fields@)),
{
    let mut values: Vec<(String, serde_json::Value)> = Vec::new();
    let mut i: usize = 0;
    while i < fields.len()
        invariant
            i <= fields@.len(),
            values@.len() == i,
            forall|j: int|
                0 <= j < i ==> (#[trigger] values@[j]).0@ == fields@[j].0@ && json_tree(values@[j].1)
                    == JsonTree::Text(fields@[j].1@),
        decreases fields@.len() - i,
    {
        let (key, text) = fields[i];
        values.push((key.to_owned(), text_value(text)));
        i = i + 1;
    }
    let ghost all = values@;
    let ghost pairs = field_texts(fields@);
    proof {
        assert forall|i: int, j: int| 0 <= i < j < all.len() implies #[trigger] all[i].0@
            != #[trigger] all[j].0@ by {
            assert(pairs[i].0 != pairs[j].0);
        }
    }
    let value = record_value(values);
    proof {
        lemma_json_record(pairs);
        let record = json_tree(value)->Record_0;
        assert forall|key: Seq<char>| #[trigger] record.contains_key(key) implies exists|k: int|
            0 <= k < all.len() && (#[trigger] all[k]).0@ == key by {
            assert(json_field(json_tree(value), key) is Some);
        }
        assert forall|k: int| 0 <= k < all.len() implies record.contains_key(
            (#[trigger] all[k]).0@,
        ) && record[all[k].0@] == json_tree(all[k].1) by {
            assert(json_field(json_tree(value), all[k].0@) is Some);
        }
        assert forall|key: Seq<char>|
            record.contains_key(key) == #[trigger] json_record(pairs).contains_key(key) by {
            if record.contains_key(key) {
                let k = choose|k: int| 0 <= k < all.len() && (#[trigger] all[k]).0@ == key;
                assert(pairs[k].0 == key);
            }
            if json_record(pairs).contains_key(key) {
                let k = choose|k: int| 0 <= k < pairs.len() && (#[trigger] pairs[k]).0 == key;
                assert(all[k].0@ == key);
            }
        }
        assert forall|key: Seq<char>| #[trigger] record.contains_key(key) implies record[key]
            == json_record(pairs)[key] by {
            let k = choose|k: int| 0 <= k < all.len() && (#[trigger] all[k]).0@ == key;
            assert(pairs[k].0 == key);
        }
        assert(record =~= json_record(pairs));
        lemma_json_record_texts(pairs);
    }
    match value_to_string(&value) {
        Ok(text) => text,
        Err(_) => String::new(),
    }
}

/// `document` is what `serde_json` writes for the record with the given fields,
/// and reading it gives that record back.
pub open spec fn is_record_document(
    document: Seq<char>,
    fields: Seq<(Seq<char>, Seq<char>)>,
) -> bool {
    let record = JsonTree::Record(json_record(fields));
    &&& document == json_text(record)
    &&& json_parse(document) == Some(record)
}

/// Fields with distinct names are all found in their record, and nothing else is.
proof fn lemma_json_record(fields: Seq<(Seq<char>, Seq<char>)>)
    requires
        forall|i: int, j: int|
            0 <= i < j < fields.len() ==> #[trigger] fields[i].0 != #[trigger] fields[j].0,
    ensures
        forall|i: int|
            0 <= i < fields.len() ==> json_record(fields).contains_key((#[trigger] fields[i]).0)
                && json_record(fields)[fields[i].0] == JsonTree::Text(fields[i].1),
        forall|key: Seq<char>| #[trigger]
            json_record(fields).contains_key(key) ==> exists|i: int|
                0 <= i < fields.len() && (#[trigger] fields[i]).0 == key,
    decreases fields.len(),
{
    if fields.len() > 0 {
        let init = fields.drop_last();
        lemma_json_record(init);
        assert forall|i: int| 0 <= i < fields.len() implies json_record(fields).contains_key(
            (#[trigger] fields[i]).0,
        ) && json_record(fields)[fields[i].0] == JsonTree::Text(fields[i].1) by {
            if i < fields.len() - 1 {
                assert(init[i] == fields[i]);
            }
        }
        assert forall|key: Seq<char>| #[trigger]
            json_record(fields).contains_key(key) implies exists|i: int|
            0 <= i < fields.len() && (#[trigger] fields[i]).0 == key by {
            if key == fields.last().0 {
                assert(fields[fields.len() - 1].0 == key);
            } else {
                assert(json_record(init).contains_key(key));
                let k = choose|k: int| 0 <= k < init.len() && (#[trigger] init[k]).0 == key;
                assert(fields[k].0 == key);
            }
        }
    }
}

/// The fields of a record built from texts are texts.
proof fn lemma_json_record_texts(fields: Seq<(Seq<char>, Seq<char>)>)
    requires
        forall|i: int| 0 <= i < fields.len() ==> (#[trigger] fields[i]).0 != reserved_key(),
    ensures
        is_text_record(JsonTree::Record(json_record(fields))),
    decreases fields.len(),
{
    if fields.len() > 0 {
        let rest = fields.drop_last();
        assert forall|i: int| 0 <= i < rest.len() implies (#[trigger] rest[i]).0
            != reserved_key() by {
            assert(rest[i] == fields[i]);
        }
        lemma_json_record_texts(rest);
        let init = json_record(rest);
        assert(fields[fields.len() - 1].0 != reserved_key());
        assert forall|key: Seq<char>| #[trigger]
            json_record(fields).contains_key(key) implies json_record(fields)[key] is Text by {
            if key != fields.last().0 {
                assert(init.contains_key(key));
            }
        }
    }
}

/// A field of a value is there exactly where the value is a record that has it.
pub proof fn law_fields_of_values(tree: JsonTree, key: Seq<char>)
    ensures
        tree matches JsonTree::Record(fields) ==> (json_field(tree, key) is Some
            <==> fields.contains_key(key)),
        tree matches JsonTree::Record(fields) ==> (json_field(tree, key) matches Some(value)
            ==> value == fields[key]),
        tree !is Record ==> json_field(tree, key) is None,
{
}

/// What is read back from the document of a record has each of its fields, with
/// its whole text, and no other.
pub proof fn law_document_holds_its_fields(
    document: Seq<char>,
    fields: Seq<(Seq<char>, Seq<char>)>,
)
    requires
        is_record_document(document, fields),
        forall|i: int, j: int|
            0 <= i < j < fields.len() ==> #[trigger] fields[i].0 != #[trigger] fields[j].0,
    ensures
        json_parse(document) matches Some(JsonTree::Record(record)) && (forall|i: int|
            0 <= i < fields.len() ==> record.contains_key((#[trigger] fields[i]).0)
                && record[fields[i].0] == JsonTree::Text(fields[i].1)) && (forall|key: Seq<char>|
            #[trigger] record.contains_key(key) ==> exists|i: int|
                0 <= i < fields.len() && (#[trigger] fields[i]).0 == key),
{
    lemma_json_record(fields);
}

/// The document of a single text holds that text under its name, and nothing else.
pub proof fn law_document_of_one_text(document: Seq<char>, key: Seq<char>, text: Seq<char>)
    requires
        is_record_document(document, seq![(key, text)]),
    ensures
        json_parse(document) == Some(
            JsonTree::Record(Map::empty().insert(key, JsonTree::Text(text))),
        ),
{
    let fields = seq![(key, text)];
    reveal_with_fuel(json_record, 2);
    assert(fields.drop_last() =~= Seq::empty());
    assert(fields.last() == (key, text));
}

} // verus!
