use transcribe::text::{chars_of, decimal_string, same_text, string_of};
use transcribe::whisper::{document_of_output, join_segments, read_segments, transcript_document};

#[test]
fn characters_and_back() {
    let chars = chars_of("aйb");
    assert_eq!(chars, vec!['a', 'й', 'b']);
    assert_eq!(string_of(&chars, 1, 3), "йb");
    assert_eq!(string_of(&chars, 1, 1), "");
    assert!(same_text("a", "a"));
    assert!(!same_text("a", "b"));
}

#[test]
fn decimal_numbers() {
    assert_eq!(decimal_string(0), "0");
    assert_eq!(decimal_string(500), "500");
    assert_eq!(decimal_string(u64::MAX), u64::MAX.to_string());
}

fn some(text: &str) -> Option<String> {
    Some(text.to_string())
}

#[test]
fn segments_are_joined_without_a_separator() {
    assert_eq!(join_segments(&vec![some(" Hello,"), None, some(" world. ")]), " Hello, world. ");
    assert_eq!(join_segments(&vec![]), "");
}

#[test]
fn transcript_is_trimmed_and_escaped() {
    assert_eq!(
        transcript_document(&vec![some(" say \"hi\"\n"), some("\tnow ")]),
        "{\"text\":\"say \\\"hi\\\"\\n\\tnow\"}"
    );
    assert_eq!(transcript_document(&vec![some("  ")]), "{\"text\":\"\"}");
}

#[test]
fn exactly_the_white_space_characters_are_trimmed() {
    let listed = |u: u32| {
        matches!(
            u,
            0x9..=0xd
                | 0x20
                | 0x85
                | 0xa0
                | 0x1680
                | 0x2000..=0x200a
                | 0x2028
                | 0x2029
                | 0x202f
                | 0x205f
                | 0x3000
        )
    };
    for code in 0..0x11_0000u32 {
        if let Some(c) = char::from_u32(code) {
            assert_eq!(c.is_whitespace(), listed(code), "{:x}", code);
        }
    }
    assert_eq!(
        transcript_document(&vec![some("\u{3000}a\u{a0}b\u{2028}")]),
        "{\"text\":\"a\u{a0}b\"}"
    );
}

#[test]
fn output_of_the_recognizer() {
    let output = "{\"model\":{},\"transcription\":[{\"text\":\" One\"},{\"text\":5},{},{\"text\":\" two.\"}]}";
    assert_eq!(document_of_output(output), some("{\"text\":\"One two.\"}"));
}

#[test]
fn output_without_a_transcription() {
    for output in ["{}", "[]", "null", "{\"transcription\":{\"text\":\"x\"}}", "{\"text\":\"x\"}"] {
        assert_eq!(document_of_output(output), some("{\"text\":\"\"}"));
    }
}

#[test]
fn output_that_is_not_json() {
    for output in ["", "{", "text", "{} {}"] {
        assert_eq!(document_of_output(output), None);
    }
}

#[test]
fn last_field_of_a_name_counts() {
    let output = "{\"transcription\":[{\"text\":\"a\",\"text\":\"b\"}]}";
    assert_eq!(document_of_output(output), some("{\"text\":\"b\"}"));
}

#[test]
fn segments_of_a_value() {
    let value: serde_json::Value =
        serde_json::from_str("{\"transcription\":[{\"text\":\"a\"},7,[\"text\"],{\"text\":null}]}").unwrap();
    assert_eq!(read_segments(&value), vec![some("a"), None, None, None]);
    assert_eq!(read_segments(&serde_json::Value::Null), Vec::<Option<String>>::new());
}
