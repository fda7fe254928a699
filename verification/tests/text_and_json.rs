use voice_plugin::text::{
    concat_str, decimal_string, hex_string, is_whitespace, signed_decimal_string, starts_with,
    str_eq, trim,
};
use voice_plugin::voice_stt::{classify_worker_line, interpret_transcription_reply, WorkerLine};

#[test]
fn trim_matches_std_trim() {
    for s in ["  hi  ", "\t\nx y\u{3000}", "", "   ", "abc", "\u{85}a\u{a0}"] {
        assert_eq!(trim(s), s.trim());
    }
}

#[test]
fn whitespace_is_unicode_white_space() {
    for c in ['\t', '\n', ' ', '\u{85}', '\u{a0}', '\u{1680}', '\u{2000}', '\u{200a}', '\u{2028}', '\u{3000}', 'a', '\u{200b}', '_'] {
        assert_eq!(is_whitespace(c), c.is_whitespace(), "{:?}", c);
    }
}

#[test]
fn numbers_render_like_format() {
    assert_eq!(decimal_string(0), "0");
    assert_eq!(decimal_string(1712345678901), "1712345678901");
    assert_eq!(decimal_string(u64::MAX), u64::MAX.to_string());
    assert_eq!(hex_string(0), "0");
    assert_eq!(hex_string(0xbeef), "beef");
    assert_eq!(signed_decimal_string(-1), "-1");
    assert_eq!(signed_decimal_string(137), "137");
    assert_eq!(signed_decimal_string(i64::MIN), "-9223372036854775808");
}

#[test]
fn string_helpers() {
    assert_eq!(concat_str("ab", "cd"), "abcd");
    assert!(starts_with("stt_worker", "stt_"));
    assert!(!starts_with("st", "stt_"));
    assert!(str_eq("tiny", "tiny"));
    assert!(!str_eq("tiny", "tiny.en"));
}

#[test]
fn worker_lines_are_classified_by_status() {
    assert_eq!(classify_worker_line("{\"status\":\"progress\",\"model\":\"m\"}"), WorkerLine::Progress);
    assert_eq!(classify_worker_line("{\"status\":\"ready\"}"), WorkerLine::Ready);
    assert_eq!(classify_worker_line("{\"status\":\"busy\"}"), WorkerLine::Other);
    assert_eq!(classify_worker_line("Loading weights..."), WorkerLine::Other);
    assert_eq!(classify_worker_line("[1,2]"), WorkerLine::Other);
}

#[test]
fn transcription_reply_is_read_from_json() {
    assert_eq!(interpret_transcription_reply("{\"id\":\"req-1\",\"text\":\"hello\"}").unwrap(), "hello");
    let e = interpret_transcription_reply("{\"error\":\"model crashed\"}").unwrap_err();
    assert_eq!(e.code(), "generation_failed");
    assert_eq!(e.message(), "model crashed");
    let e = interpret_transcription_reply("{\"text\":\"\"}").unwrap_err();
    assert_eq!(e.message(), "Transcriber returned empty output");
    let e = interpret_transcription_reply("{\"id\":\"req-1\"}").unwrap_err();
    assert_eq!(e.message(), "Transcriber returned empty output");
    let e = interpret_transcription_reply("not json").unwrap_err();
    assert_eq!(e.code(), "generation_failed");
    assert!(e.message().starts_with("Worker response parse failed: "));
    assert!(e.message().len() > "Worker response parse failed: ".len());
}
