//! Names of uploaded files.

use crate::error::{ErrorView, TranscribeError};
use crate::text::{
    alphanumeric, chars_of, is_alphanumeric, same_text, string_of, unicode_alphanumeric,
};
use vstd::prelude::*;
use vstd::string::*;

verus! {

/// A character that may stand in the name of a stored file.
pub open spec fn kept(c: char) -> bool {
    alphanumeric(c) || c == '.' || c == '-' || c == '_'
}

/// `name` without the characters that are not kept.
pub open spec fn sanitized(name: Seq<char>) -> Seq<char> {
    name.filter(|c: char| kept(c))
}

/// The last position of `c` in `s`, or -1.
pub open spec fn last_position(s: Seq<char>, c: char) -> int
    decreases s.len(),
{
    if s.len() == 0 {
        -1
    } else if s.last() == c {
        s.len() - 1
    } else {
        last_position(s.drop_last(), c)
    }
}

/// The last component of a path whose components are separated by `/`: trailing
/// separators and trailing components `.` do not count.
pub open spec fn last_component(path: Seq<char>) -> Seq<char>
    decreases path.len(),
{
    let n = path.len() as int;
    if n > 0 && path[n - 1] == '/' {
        last_component(path.take(n - 1))
    } else if n > 1 && path[n - 1] == '.' && path[n - 2] == '/' {
        last_component(path.take(n - 2))
    } else {
        path.skip(last_position(path, '/') + 1)
    }
}

/// What follows the last dot of the last component of `path`. A component that
/// has no dot but its first character has no extension, nor has `..`.
pub open spec fn extension(path: Seq<char>) -> Option<Seq<char>> {
    let name = last_component(path);
    let dot = last_position(name, '.');
    if dot <= 0 || name == seq!['.', '.'] {
        None
    } else {
        Some(name.skip(dot + 1))
    }
}

/// A name without separators, of more than one character, is the last component
/// of a path that ends with it.
pub(crate) proof fn lemma_last_component(dir: Seq<char>, name: Seq<char>)
    requires
        name.len() > 1,
        forall|i: int| 0 <= i < name.len() ==> #[trigger] name[i] != '/',
    ensures
        last_component(dir + "/"@ + name) == name,
{
    reveal_strlit("/");
    let path = dir + "/"@ + name;
    lemma_last_position(path, '/', dir.len() as int);
    assert(path.skip(dir.len() as int + 1) =~= name);
}

/// The characters of an accepted extension are kept, and none is a dot.
pub(crate) proof fn lemma_supported(ext: Seq<char>)
    requires
        supported(ext),
    ensures
        ext.len() > 0,
        forall|i: int| 0 <= i < ext.len() ==> kept(#[trigger] ext[i]) && ext[i] != '.',
        sanitized(ext) == ext,
{
    reveal_strlit("ogg");
    reveal_strlit("mp3");
    reveal_strlit("wav");
    reveal_strlit("webm");
    reveal_strlit("m4a");
    lemma_all_kept(ext);
}

proof fn lemma_all_kept(s: Seq<char>)
    requires
        forall|i: int| 0 <= i < s.len() ==> kept(#[trigger] s[i]),
    ensures
        sanitized(s) == s,
    decreases s.len(),
{
    reveal(Seq::filter);
    if s.len() > 0 {
        let init = s.drop_last();
        lemma_all_kept(init);
        assert(s =~= init.push(s.last()));
    } else {
        assert(sanitized(s) =~= s);
    }
}

/// A sanitized name has only characters that are kept, none of them a separator.
pub proof fn law_sanitized_names_are_safe(name: Seq<char>)
    ensures
        forall|i: int|
            0 <= i < sanitized(name).len() ==> kept(#[trigger] sanitized(name)[i])
                && sanitized(name)[i] != '/',
        !sanitized(name).contains('/'),
{
    let pred = |c: char| kept(c);
    assert forall|i: int| 0 <= i < sanitized(name).len() implies kept(
        #[trigger] sanitized(name)[i],
    ) && sanitized(name)[i] != '/' by {
        name.lemma_filter_pred(pred, i);
        assert(pred(sanitized(name)[i]));
    }
}

/// A name of kept characters is not changed, so sanitizing twice is sanitizing once.
pub proof fn law_sanitizing_is_idempotent(name: Seq<char>)
    ensures
        sanitized(sanitized(name)) == sanitized(name),
{
    law_sanitized_names_are_safe(name);
    lemma_all_kept(sanitized(name));
}

/// A position of `c` after which it does not occur is the last one.
proof fn lemma_last_position(s: Seq<char>, c: char, p: int)
    requires
        0 <= p < s.len(),
        s[p] == c,
        forall|i: int| p < i < s.len() ==> #[trigger] s[i] != c,
    ensures
        last_position(s, c) == p,
    decreases s.len(),
{
    if p < s.len() - 1 {
        lemma_last_position(s.drop_last(), c, p);
    }
}

/// An audio format that the service accepts.
pub open spec fn supported(ext: Seq<char>) -> bool {
    ||| ext == "ogg"@
    ||| ext == "mp3"@
    ||| ext == "wav"@
    ||| ext == "webm"@
    ||| ext == "m4a"@
}

/// A file name whose extension is an accepted audio format.
pub open spec fn supported_name(name: Seq<char>) -> bool {
    extension(name) matches Some(ext) && supported(ext)
}

/// The error that refuses a file for its format.
pub open spec fn unsupported_format() -> ErrorView {
    ErrorView::Validation("Unsupported audio format. Allowed: ogg, mp3, wav, webm, m4a"@)
}

/// Whether a character may stand in the name of a stored file.
pub fn is_kept(c: char) -> (r: bool)
    ensures
        r == kept(c),
{
    is_alphanumeric(c) || c == '.' || c == '-' || c == '_'
}

/// Drops the characters that are not kept.
pub fn sanitize(name: &str) -> (r: String)
    ensures
        r@ == sanitized(name@),
{
    let chars = chars_of(name);
    let mut out = String::new();
    let mut i: usize = 0;
    let ghost pred = |c: char| kept(c);
    proof {
        reveal(Seq::filter);
        assert(chars@.take(0).filter(pred) =~= Seq::<char>::empty());
    }
    while i < chars.len()
        invariant
            i <= chars@.len(),
            pred == (|c: char| kept(c)),
            out@ == chars@.take(i as int).filter(pred),
        decreases chars@.len() - i,
    {
        let c = chars[i];
        proof {
            reveal(Seq::filter);
            assert(chars@.take(i + 1).drop_last() =~= chars@.take(i as int));
            assert(chars@.take(i + 1).last() == c);
        }
        if is_kept(c) {
            out.push(c);
        }
        i = i + 1;
    }
    assert(chars@.take(i as int) =~= name@);
    out
}

/// The last position of `c` in `chars[from..end]`.
fn find_last(chars: &Vec<char>, from: usize, end: usize, c: char) -> (r: Option<usize>)
    requires
        from <= end <= chars@.len(),
    ensures
        match r {
            Some(p) => from <= p < end && p - from == last_position(
                chars@.subrange(from as int, end as int),
                c,
            ),
            None => last_position(chars@.subrange(from as int, end as int), c) == -1,
        },
{
    let ghost whole = chars@.subrange(from as int, end as int);
    let mut n: usize = end;
    assert(whole.take(end - from) =~= whole);
    while n > from
        invariant
            from <= n <= end <= chars@.len(),
            whole == chars@.subrange(from as int, end as int),
            last_position(whole, c) == last_position(whole.take(n - from), c),
        decreases n,
    {
        assert(whole.take(n - from).drop_last() =~= whole.take(n - from - 1));
        assert(whole.take(n - from).last() == chars@[n - 1]);
        if chars[n - 1] == c {
            return Some(n - 1);
        }
        n = n - 1;
    }
    None
}

/// The part of a path after its last dot, as `extension` describes it.
pub fn file_extension(path: &str) -> (r: Option<String>)
    ensures
        match r {
            Some(ext) => extension(path@) == Some(ext@),
            None => extension(path@) is None,
        },
{
    let chars = chars_of(path);
    let mut end: usize = chars.len();
    assert(chars@.take(end as int) =~= path@);
    loop
        invariant
            chars@ == path@,
            end <= chars@.len(),
            last_component(path@) == last_component(chars@.take(end as int)),
        ensures
            !(end > 0 && chars@[end - 1] == '/'),
            !(end > 1 && chars@[end - 1] == '.' && chars@[end - 2] == '/'),
        decreases end,
    {
        let ghost before = chars@.take(end as int);
        if end > 0 && chars[end - 1] == '/' {
            end = end - 1;
            assert(before.take(end as int) =~= chars@.take(end as int));
        } else if end > 1 && chars[end - 1] == '.' && chars[end - 2] == '/' {
            end = end - 2;
            assert(before.take(end as int) =~= chars@.take(end as int));
        } else {
            break;
        }
    }
    let ghost stripped = chars@.take(end as int);
    assert(chars@.subrange(0, end as int) =~= stripped);
    let start: usize = match find_last(&chars, 0, end, '/') {
        Some(slash) => slash + 1,
        None => 0,
    };
    let ghost name = last_component(path@);
    assert(name =~= chars@.subrange(start as int, end as int));
    if end - start == 2 && chars[start] == '.' && chars[start + 1] == '.' {
        assert(name =~= seq!['.', '.']);
        return None;
    }
    match find_last(&chars, start, end, '.') {
        Some(dot) if dot > start => {
            assert(name.skip(dot - start + 1) =~= chars@.subrange(dot + 1, end as int));
            assert(name != seq!['.', '.']) by {
                if name == seq!['.', '.'] {
                    assert(name.len() == 2 && name[0] == '.' && name[1] == '.');
                }
            }
            Some(string_of(&chars, dot + 1, end))
        },
        _ => None,
    }
}

/// Whether the service accepts the audio format with this extension.
pub fn is_supported(ext: &str) -> (r: bool)
    ensures
        r == supported(ext@),
{
    same_text(ext, "ogg") || same_text(ext, "mp3") || same_text(ext, "wav") || same_text(
        ext,
        "webm",
    ) || same_text(ext, "m4a")
}

/// Refuses a file whose extension is not an accepted audio format.
pub fn check_format(name: &str) -> (r: Result<(), TranscribeError>)
    ensures
        r is Ok <==> supported_name(name@),
        r matches Err(e) ==> e@ == unsupported_format(),
        r is Ok <==> (extension(name@) matches Some(ext) && (ext == "ogg"@ || ext == "mp3"@ || ext
            == "wav"@ || ext == "webm"@ || ext == "m4a"@)),
{
    let accepted = match file_extension(name) {
        Some(ext) => is_supported(ext.as_str()),
        None => false,
    };
    if accepted {
        Ok(())
    } else {
        Err(
            TranscribeError::validation(
                "Unsupported audio format. Allowed: ogg, mp3, wav, webm, m4a",
            ),
        )
    }
}

/// Sanitizing looks at each character alone: ASCII letters and digits, dots,
/// hyphens, underscores and, beyond ASCII, what is alphanumeric stay in their
/// order, and everything else goes.
pub proof fn law_sanitizing_goes_by_character(a: Seq<char>, b: Seq<char>, c: char)
    ensures
        sanitized(Seq::empty()) == Seq::<char>::empty(),
        sanitized(a + b) == sanitized(a) + sanitized(b),
        sanitized(seq![c]) == (if 'a' <= c <= 'z' || 'A' <= c <= 'Z' || '0' <= c <= '9' || c == '.'
            || c == '-' || c == '_' || (c as u32 >= 128 && unicode_alphanumeric(c)) {
            seq![c]
        } else {
            Seq::empty()
        }),
{
    reveal(Seq::filter);
    Seq::filter_distributes_over_add(a, b, |c: char| kept(c));
    assert(sanitized(Seq::empty()) =~= Seq::<char>::empty());
    assert(seq![c].drop_last() =~= Seq::empty());
    assert(seq![c].last() == c);
    assert(sanitized(seq![c]) =~= (if kept(c) {
        seq![c]
    } else {
        Seq::empty()
    }));
}

/// The extension of a file is what follows the last dot of its name, in whatever
/// directory it is.
pub proof fn law_extension_follows_the_last_dot(
    dir: Seq<char>,
    base: Seq<char>,
    ext: Seq<char>,
)
    requires
        dir.len() == 0 || dir.last() == '/',
        base.len() > 0,
        !base.contains('/'),
        !ext.contains('/'),
        !ext.contains('.'),
        !(base == seq!['.'] && ext.len() == 0),
    ensures
        extension(dir + base + seq!['.'] + ext) == Some(ext),
{
    let name = base + seq!['.'] + ext;
    let path = dir + base + seq!['.'] + ext;
    assert(path =~= dir + name);
    assert forall|i: int| 0 <= i < name.len() implies #[trigger] name[i] != '/' by {
        if i < base.len() {
            assert(base.contains(base[i]));
        } else if i > base.len() {
            assert(ext.contains(ext[i - base.len() - 1]));
        }
    }
    lemma_name_in_directory(dir, name);
    let dot = base.len() as int;
    assert forall|i: int| dot < i < name.len() implies #[trigger] name[i] != '.' by {
        assert(ext.contains(ext[i - dot - 1]));
    }
    lemma_last_position(name, '.', dot);
    assert(name.skip(dot + 1) =~= ext);
    if name == seq!['.', '.'] {
        assert(name.len() == 2);
        assert(base =~= seq!['.']);
    }
}

/// A file has no extension where its name has no dot after its first character,
/// and `..` has none.
pub proof fn law_names_without_extension(dir: Seq<char>, name: Seq<char>)
    requires
        dir.len() == 0 || dir.last() == '/',
        name.len() > 0,
        name != seq!['.'],
        !name.contains('/'),
        name == seq!['.', '.'] || forall|i: int|
            0 < i < name.len() ==> #[trigger] name[i] != '.',
    ensures
        extension(dir + name) is None,
{
    assert forall|i: int| 0 <= i < name.len() implies #[trigger] name[i] != '/' by {
        assert(name.contains(name[i]));
    }
    lemma_name_in_directory(dir, name);
    if name != seq!['.', '.'] {
        lemma_no_late_position(name, '.');
    }
}

/// Separators at the end of a path, and components `.` there, do not change its
/// extension.
pub proof fn law_trailing_components_do_not_count(path: Seq<char>)
    ensures
        extension(path.push('/')) == extension(path),
        extension(path + seq!['/', '.']) == extension(path),
{
    assert(path.push('/').take(path.len() as int) =~= path);
    assert((path + seq!['/', '.']).take(path.len() as int) =~= path);
}

/// A name without separators is the last component of a path that ends with it.
proof fn lemma_name_in_directory(dir: Seq<char>, name: Seq<char>)
    requires
        dir.len() == 0 || dir.last() == '/',
        name.len() > 0,
        name != seq!['.'],
        forall|i: int| 0 <= i < name.len() ==> #[trigger] name[i] != '/',
    ensures
        last_component(dir + name) == name,
{
    let path = dir + name;
    assert(path[path.len() - 1] == name[name.len() - 1]);
    if name.len() == 1 {
        assert(name =~= seq![name[0]]);
    } else {
        assert(path[path.len() - 2] == name[name.len() - 2]);
    }
    if dir.len() > 0 {
        assert forall|i: int| dir.len() - 1 < i < path.len() implies #[trigger] path[i] != '/' by {
            assert(path[i] == name[i - dir.len()]);
        }
        lemma_last_position(path, '/', dir.len() - 1);
    } else {
        assert(path =~= name);
        lemma_no_position(name, '/');
    }
    assert(path.skip(dir.len() as int) =~= name);
}

proof fn lemma_no_position(s: Seq<char>, c: char)
    requires
        forall|i: int| 0 <= i < s.len() ==> #[trigger] s[i] != c,
    ensures
        last_position(s, c) == -1,
    decreases s.len(),
{
    if s.len() > 0 {
        lemma_no_position(s.drop_last(), c);
    }
}

proof fn lemma_no_late_position(s: Seq<char>, c: char)
    requires
        forall|i: int| 0 < i < s.len() ==> #[trigger] s[i] != c,
    ensures
        last_position(s, c) <= 0,
    decreases s.len(),
{
    if s.len() > 0 {
        lemma_no_late_position(s.drop_last(), c);
    }
}

/// The files that are accepted are those with one of five extensions; the error
/// for any other names them.
pub proof fn law_accepted_formats(name: Seq<char>)
    ensures
        supported_name(name) <==> (extension(name) == Some("ogg"@) || extension(name) == Some(
            "mp3"@,
        ) || extension(name) == Some("wav"@) || extension(name) == Some("webm"@) || extension(name)
            == Some("m4a"@)),
        unsupported_format() == ErrorView::Validation(
            "Unsupported audio format. Allowed: ogg, mp3, wav, webm, m4a"@,
        ),
{
}

} // verus!
