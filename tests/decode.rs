use text_decoder::{DecodeError, TextDecoder};

fn session(label: &str, fatal: bool) -> TextDecoder {
    match TextDecoder::Constructor(label, fatal) {
        Ok(s) => s,
        Err(e) => panic!("label {} refused: {:?}", label, e),
    }
}

fn decode_all(label: &str, fatal: bool, bytes: &[u8]) -> Result<String, DecodeError> {
    let mut s = session(label, fatal);
    s.Decode(Some(bytes), false)
}

#[test]
fn ascii_pair_decodes() {
    let mut s = session("utf-8", false);
    assert_eq!(s.Decode(Some(&[0x41, 0x42]), false), Ok("AB".to_string()));
}

#[test]
fn split_three_byte_sequence_is_buffered() {
    let mut s = session("utf-8", false);
    assert_eq!(s.Decode(Some(&[0xE4, 0xB8]), true), Ok(String::new()));
    assert_eq!(s.Decode(Some(&[0xAD]), false), Ok("\u{4E2D}".to_string()));
}

#[test]
fn fatal_split_three_byte_sequence_is_buffered() {
    let mut s = session("utf-8", true);
    assert_eq!(s.Decode(Some(&[0xE4, 0xB8]), true), Ok(String::new()));
    assert_eq!(s.Decode(Some(&[0xAD]), false), Ok("\u{4E2D}".to_string()));
}

#[test]
fn fatal_malformed_byte_fails() {
    let mut s = session("utf-8", true);
    assert_eq!(s.Decode(Some(&[0xFF]), false), Err(DecodeError::EncodingError));
}

#[test]
fn fatal_error_refuses_stream_until_reset() {
    let mut s = session("utf-8", true);
    assert_eq!(s.Decode(Some(&[0x41, 0xFF]), true), Err(DecodeError::EncodingError));
    assert_eq!(s.Decode(Some(&[0x42]), true), Err(DecodeError::EncodingError));
    assert_eq!(s.Decode(Some(&[0x42]), false), Err(DecodeError::EncodingError));
    assert_eq!(s.Decode(Some(&[0x42]), false), Ok("B".to_string()));
}

#[test]
fn fatal_truncated_final_sequence_fails() {
    let mut s = session("utf-8", true);
    assert_eq!(s.Decode(Some(&[0xE4, 0xB8]), false), Err(DecodeError::EncodingError));
    assert_eq!(s.Decode(Some(&[0x41]), false), Ok("A".to_string()));
}

#[test]
fn replacing_marks_malformed_bytes() {
    assert_eq!(decode_all("utf-8", false, &[0xFF]), Ok("\u{FFFD}".to_string()));
    assert_eq!(decode_all("utf-8", false, &[0x41, 0xFF, 0x42]), Ok("A\u{FFFD}B".to_string()));
    assert_eq!(decode_all("utf-8", false, &[0xE4, 0xB8]), Ok("\u{FFFD}".to_string()));
    assert_eq!(decode_all("windows-1252", false, &[0x41, 0xE9]), Ok("A\u{E9}".to_string()));
}

#[test]
fn fatal_decodes_past_ascii() {
    assert_eq!(decode_all("windows-1252", true, &[0x41, 0xE9]), Ok("A\u{E9}".to_string()));
    assert_eq!(decode_all("shift_jis", true, &[0x82, 0xA0]), Ok("\u{3042}".to_string()));
}

#[test]
fn iso_2022_jp_ascii_decodes_as_is() {
    let bytes = b"Hello, world! 0123";
    assert_eq!(decode_all("iso-2022-jp", false, bytes), Ok("Hello, world! 0123".to_string()));
    assert_eq!(decode_all("iso-2022-jp", true, bytes), Ok("Hello, world! 0123".to_string()));
}

#[test]
fn iso_2022_jp_escape_sequence_decodes() {
    let bytes = [0x41, 0x1B, 0x24, 0x42, 0x30, 0x21, 0x1B, 0x28, 0x42];
    assert_eq!(decode_all("iso-2022-jp", true, &bytes), Ok("A\u{4E9C}".to_string()));
    assert_eq!(decode_all("iso-2022-jp", false, &bytes), Ok("A\u{4E9C}".to_string()));
}

#[test]
fn unknown_label_is_refused() {
    assert!(matches!(TextDecoder::Constructor("bogus-label", false), Err(DecodeError::UnsupportedEncoding)));
    assert!(matches!(TextDecoder::Constructor("iso-2022-kr", true), Err(DecodeError::UnsupportedEncoding)));
}

#[test]
fn empty_final_calls_return_empty_text() {
    for fatal in [false, true] {
        let mut s = session("utf-8", fatal);
        for _ in 0..4 {
            assert_eq!(s.Decode(Some(&[]), false), Ok(String::new()));
            assert_eq!(s.Decode(None, false), Ok(String::new()));
        }
    }
}

#[test]
fn chunk_split_gives_same_text() {
    let bytes: Vec<u8> = "a\u{4E2D}\u{00E9}b\u{1F600}".as_bytes().to_vec();
    for fatal in [false, true] {
        let whole = decode_all("utf-8", fatal, &bytes).unwrap();
        assert_eq!(whole, "a\u{4E2D}\u{00E9}b\u{1F600}");
        for k in 0..=bytes.len() {
            let mut s = session("utf-8", fatal);
            let first = s.Decode(Some(&bytes[..k]), true).unwrap();
            let second = s.Decode(Some(&bytes[k..]), false).unwrap();
            assert_eq!(format!("{}{}", first, second), whole, "split at {}", k);
        }
    }
}

#[test]
fn final_call_resets_state() {
    for fatal in [false, true] {
        let mut s = session("utf-8", fatal);
        let _ = s.Decode(Some(&[0xE4]), true);
        let _ = s.Decode(Some(&[0xB8]), false);
        assert_eq!(s.Decode(Some(&[0xAD, 0x41]), false), decode_all("utf-8", fatal, &[0xAD, 0x41]));
        assert_eq!(s.Decode(Some(&[0x41, 0x42]), false), Ok("AB".to_string()));
    }
}

#[test]
fn pending_bytes_are_flushed_by_final_call() {
    let mut s = session("utf-8", false);
    assert_eq!(s.Decode(Some(&[0xE4, 0xB8]), true), Ok(String::new()));
    assert_eq!(s.Decode(None, false), Ok("\u{FFFD}".to_string()));
    assert_eq!(s.Decode(Some(&[0xAD]), false), Ok("\u{FFFD}".to_string()));
}

#[test]
fn stream_flag_kept_after_error() {
    let mut s = session("utf-8", true);
    assert_eq!(s.Decode(Some(&[0xFF]), false), Err(DecodeError::EncodingError));
    assert_eq!(s.Decode(Some(&[0xE4]), true), Ok(String::new()));
    assert_eq!(s.Decode(Some(&[0xB8, 0xAD]), false), Ok("\u{4E2D}".to_string()));
}

#[test]
fn output_holds_only_scalar_values() {
    let inputs: Vec<Vec<u8>> = vec![vec![0xED, 0xA0, 0x80], vec![0xFF, 0xFE, 0x41], vec![0xF0, 0x9F, 0x98, 0x80]];
    for bytes in inputs {
        for fatal in [false, true] {
            if let Ok(text) = decode_all("utf-8", fatal, &bytes) {
                assert!(text.chars().all(|c| !(0xD800..=0xDFFF).contains(&(c as u32))));
            }
        }
    }
    assert_eq!(decode_all("utf-8", true, &[0xED, 0xA0, 0x80]), Err(DecodeError::EncodingError));
    assert_eq!(decode_all("utf-8", false, &[0xED, 0xA0, 0x80]), Ok("\u{FFFD}\u{FFFD}\u{FFFD}".to_string()));
    assert_eq!(decode_all("utf-16le", false, &[0x00, 0xD8]), Ok("\u{FFFD}".to_string()));
}

#[test]
fn encoding_name_is_lower_case_canonical() {
    assert_eq!(session("UTF8", false).Encoding(), "utf-8");
    assert_eq!(session("latin1", false).Encoding(), "windows-1252");
    assert_eq!(session("csISO2022JP", false).Encoding(), "iso-2022-jp");
    assert_eq!(session("sjis", false).Encoding(), "shift_jis");
}

#[test]
fn fatal_flag_is_kept() {
    assert!(session("utf-8", true).Fatal());
    assert!(!session("utf-8", false).Fatal());
    assert!(TextDecoder::new(encoding_rs::UTF_8, true).Fatal());
}

#[test]
fn new_session_on_encoding_value() {
    let mut s = TextDecoder::new(encoding_rs::WINDOWS_1252, true);
    assert_eq!(s.Encoding(), "windows-1252");
    assert_eq!(s.Decode(Some(&[0x80]), false), Ok("\u{20AC}".to_string()));
}
