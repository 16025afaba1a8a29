//! Where uploaded files and results are kept.

use crate::cleanup::is_result;
use crate::error::{ErrorView, TranscribeError};
use crate::file_name::{
    extension, file_extension, last_component, law_sanitized_names_are_safe, lemma_last_component,
    lemma_supported, sanitize, sanitized, supported, supported_name,
};
use crate::fresh::{
    drawn_uuid, fresh_uuid, law_drawn_from_the_source, lower_hex, uuid_text,
};
use crate::results::{task_id_char, valid_task_id};
use vstd::prelude::*;
use vstd::string::*;
use vstd::utf8::encode_utf8;

verus! {

/// The longest name of an uploaded file, in bytes.
pub const MAX_NAME_BYTES: usize = 255;

/// The directory of the service, and how large an uploaded file may be.
#[derive(Debug, Clone)]
pub struct FileStorage {
    pub tmp_dir: String,
    /// In bytes.
    pub max_file_size: u64,
}

/// Why an uploaded file with this name is not stored, if it is not.
pub open spec fn name_error(name: Seq<char>) -> Option<ErrorView> {
    if name.len() == 0 || encode_utf8(name).len() > MAX_NAME_BYTES {
        Some(ErrorView::Validation("Invalid filename length"@))
    } else if sanitized(name).len() == 0 {
        Some(ErrorView::Validation("Filename contains no valid characters"@))
    } else {
        None
    }
}

/// The extension of a stored file: that of the uploaded one, sanitized, or `ogg`.
pub open spec fn stored_extension(name: Seq<char>) -> Seq<char> {
    match extension(name) {
        Some(ext) => sanitized(ext),
        None => "ogg"@,
    }
}

/// The name under which an uploaded file is stored.
pub open spec fn stored_name(id: Seq<char>, name: Seq<char>) -> Seq<char> {
    id + "_"@ + sanitized(name) + "."@ + stored_extension(name)
}

/// The path under which an uploaded file is stored.
pub open spec fn stored_path(dir: Seq<char>, id: Seq<char>, name: Seq<char>) -> Seq<char> {
    dir + "/"@ + stored_name(id, name)
}

/// The path of the result of a task.
pub open spec fn result_path(dir: Seq<char>, task_id: Seq<char>) -> Seq<char> {
    dir + "/"@ + task_id + ".json"@
}

impl FileStorage {
    /// A storage in `tmp_dir` for files of up to `max_file_size_mb` mebibytes.
    pub fn new(tmp_dir: String, max_file_size_mb: u64) -> (r: FileStorage)
        requires
            max_file_size_mb * 1024 * 1024 <= u64::MAX,
        ensures
            r.tmp_dir@ == tmp_dir@,
            r.max_file_size == max_file_size_mb * 1024 * 1024,
    {
        FileStorage { tmp_dir, max_file_size: max_file_size_mb * 1024 * 1024 }
    }

    /// The path for an uploaded file with the name `original_filename`, made
    /// unique by the identifier `id`.
    pub fn file_path_with_id(&self, original_filename: &str, id: &str) -> (r: Result<
        String,
        TranscribeError,
    >)
        ensures
            match name_error(original_filename@) {
                Some(error) => r is Err && r->Err_0@ == error,
                None => r is Ok && r->Ok_0@ == stored_path(
                    self.tmp_dir@,
                    id@,
                    original_filename@,
                ),
            },
    {
        if original_filename.is_empty() || original_filename.as_bytes().len() > MAX_NAME_BYTES {
            return Err(TranscribeError::validation("Invalid filename length"));
        }
        let safe_filename = sanitize(original_filename);
        if safe_filename.as_str().is_empty() {
            return Err(TranscribeError::validation("Filename contains no valid characters"));
        }
        let ext = match file_extension(original_filename) {
            Some(ext) => sanitize(ext.as_str()),
            None => "ogg".to_owned(),
        };
        let mut path = self.tmp_dir.clone();
        path.append("/");
        path.append(id);
        path.append("_");
        path.append(safe_filename.as_str());
        path.append(".");
        path.append(ext.as_str());
        assert(path@ =~= stored_path(self.tmp_dir@, id@, original_filename@));
        Ok(path)
    }

    /// A safe path for an uploaded file with the name `original_filename`, made
    /// unique by a random identifier.
    pub fn generate_file_path(&self, original_filename: &str) -> (r: Result<
        String,
        TranscribeError,
    >)
        ensures
            match name_error(original_filename@) {
                Some(error) => r is Err && r->Err_0@ == error,
                None => r is Ok && exists|id: Seq<char>| #[trigger]
                    uuid_text(id) && r->Ok_0@ == stored_path(
                        self.tmp_dir@,
                        id,
                        original_filename@,
                    ),
            },
            r matches Ok(path) ==> exists|id: Seq<char>| #[trigger]
                drawn_uuid(id) && path@ == stored_path(self.tmp_dir@, id, original_filename@),
    {
        let id = fresh_uuid();
        assert(uuid_text(id@));
        proof {
            law_drawn_from_the_source(id@, 0);
        }
        self.file_path_with_id(original_filename, id.as_str())
    }

    /// The path of the result of a task.
    pub fn result_path(&self, task_id: &str) -> (r: String)
        ensures
            r@ == result_path(self.tmp_dir@, task_id@),
            r@ == self.tmp_dir@ + "/"@ + task_id@ + ".json"@,
    {
        self.tmp_dir.clone().concat("/").concat(task_id).concat(".json")
    }
}

/// A stored name has no separator in it.
proof fn lemma_stored_name(id: Seq<char>, name: Seq<char>)
    requires
        uuid_text(id),
    ensures
        forall|i: int|
            0 <= i < stored_name(id, name).len() ==> #[trigger] stored_name(id, name)[i] != '/',
        stored_name(id, name).len() > 36,
{
    let safe = sanitized(name);
    let ext = stored_extension(name);
    let whole = stored_name(id, name);
    reveal_strlit("_");
    reveal_strlit(".");
    reveal_strlit("ogg");
    law_sanitized_names_are_safe(name);
    if let Some(original) = extension(name) {
        law_sanitized_names_are_safe(original);
    }
    assert forall|i: int| 0 <= i < whole.len() implies #[trigger] whole[i] != '/' by {
        if i < 36 {
            assert(whole[i] == id[i]);
            if i != 8 && i != 13 && i != 18 && i != 23 {
                assert(lower_hex(id[i]));
            }
        } else if i == 36 {
        } else if i < 37 + safe.len() {
            assert(whole[i] == safe[i - 37]);
        } else if i == 37 + safe.len() {
            assert(whole[i] == '.');
        } else {
            assert(whole[i] == ext[i - 38 - safe.len()]);
        }
    }
}

/// An upload is stored in the directory itself, whatever its name is.
pub proof fn law_upload_stays_in_directory(dir: Seq<char>, id: Seq<char>, name: Seq<char>)
    requires
        uuid_text(id),
    ensures
        stored_path(dir, id, name) == dir + "/"@ + stored_name(id, name),
        !stored_name(id, name).contains('/'),
        last_component(stored_path(dir, id, name)) == stored_name(id, name),
{
    lemma_stored_name(id, name);
    lemma_last_component(dir, stored_name(id, name));
}

/// Uploads with different identifiers are stored under different paths, whatever
/// their names are.
pub proof fn law_different_ids_different_paths(
    dir: Seq<char>,
    id1: Seq<char>,
    name1: Seq<char>,
    id2: Seq<char>,
    name2: Seq<char>,
)
    requires
        uuid_text(id1),
        uuid_text(id2),
        id1 != id2,
    ensures
        stored_path(dir, id1, name1) != stored_path(dir, id2, name2),
{
    let path1 = stored_path(dir, id1, name1);
    let path2 = stored_path(dir, id2, name2);
    reveal_strlit("/");
    let start = dir.len() as int + 1;
    assert(path1.subrange(start, start + 36) =~= id1);
    assert(path2.subrange(start, start + 36) =~= id2);
}

/// An accepted upload is stored under a name that ends in its own extension.
pub proof fn law_extension_is_kept(id: Seq<char>, name: Seq<char>, ext: Seq<char>)
    requires
        extension(name) == Some(ext),
        supported(ext),
    ensures
        stored_name(id, name) == id + "_"@ + sanitized(name) + "."@ + ext,
{
    lemma_supported(ext);
}

/// No accepted upload is taken for a result: one that waits in the queue is not
/// removed for its age.
pub proof fn law_uploads_are_not_swept(id: Seq<char>, name: Seq<char>)
    requires
        supported_name(name),
    ensures
        !is_result(stored_name(id, name)),
{
    let ext = extension(name)->Some_0;
    law_extension_is_kept(id, name, ext);
    let stored = stored_name(id, name);
    reveal_strlit(".json");
    reveal_strlit("ogg");
    reveal_strlit("mp3");
    reveal_strlit("wav");
    reveal_strlit("webm");
    reveal_strlit("m4a");
    assert(stored[stored.len() - 1] == ext[ext.len() - 1]);
    if is_result(stored) {
        assert(stored.skip(stored.len() - 5)[4] == stored[stored.len() - 1]);
        assert(".json"@[4] == 'n');
    }
}

/// An upload is never stored where a result is looked for, whatever identifier
/// the result is asked for by.
pub proof fn law_uploads_and_results_are_apart(
    dir: Seq<char>,
    id: Seq<char>,
    name: Seq<char>,
    task_id: Seq<char>,
)
    requires
        valid_task_id(task_id),
    ensures
        stored_path(dir, id, name) != result_path(dir, task_id),
{
    let stored = stored_path(dir, id, name);
    let result = result_path(dir, task_id);
    reveal_strlit("/");
    reveal_strlit("_");
    reveal_strlit(".");
    reveal_strlit(".json");
    let p = dir.len() as int + 1 + id.len() as int;
    assert(stored[p] == '_');
    if p < result.len() {
        let q = p - dir.len() - 1;
        if q < task_id.len() {
            assert(result[p] == task_id[q]);
            assert(task_id_char(task_id[q]));
        } else {
            assert(result[p] == ".json"@[q - task_id.len()]);
        }
    }
}

/// A name is refused for its length exactly where it is empty or has more than
/// 255 bytes, and for its characters exactly where sanitizing leaves none of
/// them. No other name is refused.
pub proof fn law_refused_names(name: Seq<char>)
    ensures
        name_error(name) == Some(ErrorView::Validation("Invalid filename length"@)) <==> name.len()
            == 0 || encode_utf8(name).len() > 255,
        name_error(name) == Some(
            ErrorView::Validation("Filename contains no valid characters"@),
        ) <==> 0 < name.len() && encode_utf8(name).len() <= 255 && sanitized(name).len() == 0,
        name_error(name) is None <==> 0 < name.len() && encode_utf8(name).len() <= 255 && sanitized(
            name,
        ).len() > 0,
{
    reveal_strlit("Invalid filename length");
    reveal_strlit("Filename contains no valid characters");
    assert("Invalid filename length"@.len() != "Filename contains no valid characters"@.len());
}

/// A stored file lies in the directory. Its name begins with the identifier, goes
/// on with the whole sanitized name, and ends in the extension of the upload, or in
/// `ogg` where that has none.
pub proof fn law_stored_path(dir: Seq<char>, id: Seq<char>, name: Seq<char>)
    ensures
        extension(name) matches Some(ext) ==> stored_path(dir, id, name) == dir + "/"@ + (id + "_"@
            + sanitized(name) + "."@ + sanitized(ext)),
        extension(name) is None ==> stored_path(dir, id, name) == dir + "/"@ + (id + "_"@
            + sanitized(name) + "."@ + "ogg"@),
        (dir + "/"@ + id + "_"@).is_prefix_of(stored_path(dir, id, name)),
{
    assert((dir + "/"@ + id + "_"@).is_prefix_of(stored_path(dir, id, name)));
}

/// Every task has a result of its own: it lies in the directory under the
/// identifier of the task, and no other identifier leads to it.
pub proof fn law_every_task_has_its_own_result(
    dir: Seq<char>,
    task_id1: Seq<char>,
    task_id2: Seq<char>,
)
    ensures
        result_path(dir, task_id1) == dir + "/"@ + task_id1 + ".json"@,
        task_id1 != task_id2 ==> result_path(dir, task_id1) != result_path(dir, task_id2),
{
    if result_path(dir, task_id1) == result_path(dir, task_id2) {
        let path = result_path(dir, task_id1);
        reveal_strlit("/");
        reveal_strlit(".json");
        assert(path.subrange(dir.len() as int + 1, path.len() - 5) =~= task_id1);
        assert(path.subrange(dir.len() as int + 1, path.len() - 5) =~= task_id2);
    }
}

} // verus!
