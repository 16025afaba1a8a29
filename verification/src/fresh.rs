//! What the service draws from its surroundings: identifiers and the time.

use vstd::prelude::*;

verus! {

/// A lower-case hexadecimal digit.
pub open spec fn lower_hex(c: char) -> bool {
    '0' <= c <= '9' || 'a' <= c <= 'f'
}

/// The hyphenated text of a random UUID, with its version and variant digits.
pub open spec fn uuid_text(s: Seq<char>) -> bool {
    &&& s.len() == 36
    &&& forall|i: int|
        0 <= i < 36 ==> if i == 8 || i == 13 || i == 18 || i == 23 {
            #[trigger] s[i] == '-'
        } else {
            lower_hex(s[i])
        }
    &&& s[14] == '4'
    &&& s[19] == '8' || s[19] == '9' || s[19] == 'a' || s[19] == 'b'
}

/// The least text of that form.
pub open spec fn nil_uuid() -> Seq<char> {
    Seq::new(
        36,
        |i: int|
            if i == 8 || i == 13 || i == 18 || i == 23 {
                '-'
            } else if i == 14 {
                '4'
            } else if i == 19 {
                '8'
            } else {
                '0'
            },
    )
}

pub(crate) proof fn lemma_nil_uuid()
    ensures
        uuid_text(nil_uuid()),
{
}

/// Calls `uuid::Uuid::new_v4` and writes the result with its `Display`. The
/// digits are random: only the form of the text is stated, not that it differs
/// from every other.
#[verifier::external_body]
pub(crate) fn fresh_uuid() -> (r: String)
    ensures
        uuid_text(r@),
{
    uuid::Uuid::new_v4().to_string()
}

/// Calls `chrono::Utc::now` and takes the seconds since the Unix epoch. The
/// result depends on the clock; a clock set before the epoch is refused there,
/// so it is not negative.
#[verifier::external_body]
pub(crate) fn unix_now() -> (r: i64)
    ensures
        r >= 0,
{
    chrono::Utc::now().timestamp()
}

/// A text that a call of `fresh_uuid` gave. That a text has the form of one does
/// not make it one.
pub closed spec fn drawn_uuid(id: Seq<char>) -> bool {
    exists|text: String| #[trigger] call_ensures(fresh_uuid, (), text) && text@ == id
}

/// A time that a call of `unix_now` gave.
pub closed spec fn drawn_time(now: i64) -> bool {
    call_ensures(unix_now, (), now)
}

/// What counts as drawn came from the generator or from the clock, and nothing
/// else does: no fixed text, and none that is computed.
pub(crate) proof fn law_drawn_from_the_source(id: Seq<char>, now: i64)
    ensures
        drawn_uuid(id) <==> exists|text: String| #[trigger]
            call_ensures(fresh_uuid, (), text) && text@ == id,
        drawn_time(now) <==> call_ensures(unix_now, (), now),
        drawn_uuid(id) ==> uuid_text(id),
        drawn_time(now) ==> now >= 0,
{
}

} // verus!
