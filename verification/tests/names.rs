use std::path::Path;
use transcribe::cleanup::is_result_name;
use transcribe::error::TranscribeError;
use transcribe::file_name::{check_format, file_extension, is_kept, is_supported, sanitize};
use transcribe::storage::FileStorage;

const ID: &str = "01234567-89ab-4cde-8f01-23456789abcd";

fn storage() -> FileStorage {
    FileStorage::new("/data".to_string(), 500)
}

fn message(error: TranscribeError) -> String {
    match error {
        TranscribeError::FileOperation(m) => format!("file: {}", m),
        TranscribeError::RabbitMQ(m) => format!("broker: {}", m),
        TranscribeError::Validation(m) => format!("validation: {}", m),
    }
}

#[test]
fn storage_limit_is_in_bytes() {
    let s = storage();
    assert_eq!(s.tmp_dir, "/data");
    assert_eq!(s.max_file_size, 524_288_000);
}

#[test]
fn extension_of_plain_names() {
    assert_eq!(file_extension("a.ogg"), Some("ogg".to_string()));
    assert_eq!(file_extension("a.tar.gz"), Some("gz".to_string()));
    assert_eq!(file_extension("a."), Some(String::new()));
    assert_eq!(file_extension("a"), None);
    assert_eq!(file_extension(".ogg"), None);
    assert_eq!(file_extension(".."), None);
    assert_eq!(file_extension(""), None);
    assert_eq!(file_extension("голос.mp3"), Some("mp3".to_string()));
}

#[test]
fn extension_of_paths() {
    assert_eq!(file_extension("a.d/b"), None);
    assert_eq!(file_extension("a/b.ogg/"), Some("ogg".to_string()));
    assert_eq!(file_extension("a/b.ogg/."), Some("ogg".to_string()));
    assert_eq!(file_extension("a/.."), None);
    assert_eq!(file_extension("/."), None);
}

#[test]
fn extension_agrees_with_the_standard_library() {
    let alphabet = ['a', '.', '/', 'é'];
    let mut names: Vec<String> = vec![String::new()];
    let mut level = names.clone();
    for _ in 0..7 {
        let mut longer = Vec::new();
        for name in &level {
            for c in alphabet {
                longer.push(format!("{}{}", name, c));
            }
        }
        names.extend(longer.clone());
        level = longer;
    }
    for name in &names {
        let expected = Path::new(name).extension().and_then(|e| e.to_str()).map(|e| e.to_string());
        assert_eq!(file_extension(name), expected, "{}", name);
    }
}

#[test]
fn kept_characters_are_alphanumeric_or_listed() {
    for code in 0..0x11_0000u32 {
        if let Some(c) = char::from_u32(code) {
            assert_eq!(is_kept(c), c.is_alphanumeric() || c == '.' || c == '-' || c == '_');
            if code < 128 {
                assert_eq!(c.is_alphanumeric(), c.is_ascii_alphanumeric());
            }
        }
    }
}

#[test]
fn sanitize_drops_the_rest() {
    assert_eq!(sanitize("../../etc/passwd"), "....etcpasswd");
    assert_eq!(sanitize("my file (1).ogg"), "myfile1.ogg");
    assert_eq!(sanitize("голос_1-2.mp3"), "голос_1-2.mp3");
    assert_eq!(sanitize("/ \\:*?"), "");
    let once = sanitize("a/b c.ogg");
    assert_eq!(sanitize(&once), once);
}

#[test]
fn five_formats_are_supported() {
    for ext in ["ogg", "mp3", "wav", "webm", "m4a"] {
        assert!(is_supported(ext));
        assert!(check_format(&format!("x.{}", ext)).is_ok());
    }
    for ext in ["", "OGG", "flac", "ogg ", "mp4"] {
        assert!(!is_supported(ext));
    }
}

#[test]
fn other_formats_are_refused() {
    for name in ["x.flac", "ogg", ".ogg", "x.ogg.exe", ""] {
        assert_eq!(
            message(check_format(name).unwrap_err()),
            "validation: Unsupported audio format. Allowed: ogg, mp3, wav, webm, m4a"
        );
    }
}

#[test]
fn path_has_id_name_and_extension() {
    let path = storage().file_path_with_id("my song.mp3", ID).unwrap();
    assert_eq!(path, format!("/data/{}_mysong.mp3.mp3", ID));
    let path = storage().file_path_with_id("noext", ID).unwrap();
    assert_eq!(path, format!("/data/{}_noext.ogg", ID));
}

#[test]
fn path_stays_in_the_directory() {
    let path = storage().file_path_with_id("../../etc/passwd.ogg", ID).unwrap();
    assert_eq!(path, format!("/data/{}_....etcpasswd.ogg.ogg", ID));
    assert_eq!(Path::new(&path).parent(), Some(Path::new("/data")));
}

#[test]
fn paths_with_different_ids_differ() {
    let other = "01234567-89ab-4cde-8f01-23456789abce";
    let s = storage();
    assert_ne!(
        s.file_path_with_id("a.ogg", ID).unwrap(),
        s.file_path_with_id("a.ogg", other).unwrap()
    );
}

#[test]
fn extension_is_kept() {
    let s = storage();
    assert!(s.file_path_with_id("a.wav/", ID).unwrap().ends_with(".wav"));
    for name in ["!.mp3", "#.mp3"] {
        assert_eq!(s.file_path_with_id(name, ID).unwrap(), format!("/data/{}_.mp3.mp3", ID));
    }
    assert!(s.file_path_with_id("a.mp3/.", ID).unwrap().ends_with("_a.mp3..mp3"));
    assert!(s.file_path_with_id("a.mp/3", ID).unwrap().ends_with("_a.mp3.ogg"));
    // What is not kept of a name is not kept of its extension either.
    assert!(s.file_path_with_id("a.m p3", ID).unwrap().ends_with("_a.mp3.mp3"));
}

#[test]
fn uploads_are_apart_from_results() {
    let s = storage();
    for name in ["a.ogg", "a.json", ".json", "json"] {
        let path = s.file_path_with_id(name, ID).unwrap();
        assert_ne!(path, s.result_path(ID));
        assert!(s.locate_result(&path["/data/".len()..path.len() - ".json".len()]).is_err());
    }
    let path = s.file_path_with_id("a.ogg", ID).unwrap();
    assert!(!is_result_name(&path));
    assert!(is_result_name(&s.result_path(ID)));
}

#[test]
fn name_lengths_are_checked_in_bytes() {
    let s = storage();
    let length = "validation: Invalid filename length";
    assert_eq!(message(s.file_path_with_id("", ID).unwrap_err()), length);
    assert!(s.file_path_with_id(&"a".repeat(255), ID).is_ok());
    assert_eq!(message(s.file_path_with_id(&"a".repeat(256), ID).unwrap_err()), length);
    assert!(s.file_path_with_id(&"я".repeat(127), ID).is_ok());
    assert_eq!(message(s.file_path_with_id(&"я".repeat(128), ID).unwrap_err()), length);
}

#[test]
fn names_without_kept_characters_are_refused() {
    assert_eq!(
        message(storage().file_path_with_id("///", ID).unwrap_err()),
        "validation: Filename contains no valid characters"
    );
}

#[test]
fn generated_path_has_a_fresh_uuid() {
    let s = storage();
    let one = s.generate_file_path("a.ogg").unwrap();
    let two = s.generate_file_path("a.ogg").unwrap();
    assert_ne!(one, two);
    let id: Vec<char> = one["/data/".len()..].chars().take(36).collect();
    assert_eq!(&one["/data/".len() + 36..], "_a.ogg.ogg");
    for (i, c) in id.iter().enumerate() {
        match i {
            8 | 13 | 18 | 23 => assert_eq!(*c, '-'),
            14 => assert_eq!(*c, '4'),
            19 => assert!("89ab".contains(*c)),
            _ => assert!(c.is_ascii_digit() || ('a'..='f').contains(c)),
        }
    }
    assert!(s.generate_file_path("").is_err());
}
