//! File-output speech synthesis: validating and resolving a request, naming
//! the output file, and reading the TTS worker's reply.

use vstd::prelude::*;

use crate::error::{fails_with, opt_view, Error, ErrorKind};
use crate::json;
use crate::text::{concat_str, hex_string, hexadecimal, push_char, decimal, decimal_string, str_eq, trim, trimmed};
use crate::voice_models::SynthesizeSpeechResponse;

verus! {

/// The TTS model used when a request names none (the only one accepted).
pub open spec fn default_tts_model() -> Seq<char> {
    "mlx-community/Kokoro-82M-bf16"@
}

/// The voice used when a request names none.
pub open spec fn default_tts_voice() -> Seq<char> {
    "af_heart"@
}

/// The language used when a request names none.
pub open spec fn default_tts_language() -> Seq<char> {
    "a"@
}

/// The most characters of (trimmed) text a synthesis accepts.
pub const TTS_MAX_TEXT_CHARS: usize = 5000;

/// Where generated speech goes when a request names no directory: this
/// subdirectory of the app data directory.
pub const TTS_OUTPUT_SUBDIR: &'static str = "tts/output";

/// Accepted TTS models.
pub open spec fn allowed_tts_model(m: Seq<char>) -> bool {
    m == default_tts_model()
}

/// Accepted Kokoro voice presets.
pub open spec fn allowed_tts_voice(v: Seq<char>) -> bool {
    ||| v == "af_heart"@
    ||| v == "af_bella"@
    ||| v == "af_nova"@
    ||| v == "af_sky"@
    ||| v == "am_adam"@
    ||| v == "am_echo"@
    ||| v == "bf_alice"@
    ||| v == "bf_emma"@
    ||| v == "bm_daniel"@
    ||| v == "bm_george"@
}

/// Accepted language codes.
pub open spec fn allowed_tts_language(l: Seq<char>) -> bool {
    l == "a"@ || l == "b"@
}

/// What a synthesis request asks for, but its speed (a float, which the
/// host checks against its range).
#[derive(Clone, Debug)]
pub struct SynthesisFields {
    pub text: String,
    pub model_id: Option<String>,
    pub voice_id: Option<String>,
    pub language_code: Option<String>,
    pub output_path: Option<String>,
    pub output_dir: Option<String>,
    pub file_name_prefix: Option<String>,
}

/// Where the synthesized audio goes.
#[derive(Clone, Debug)]
pub enum OutputTarget {
    /// Exactly this path.
    Exact { path: String },
    /// A generated file name (see [`generated_file_name`]) with this prefix,
    /// in `dir`, or in the app data directory's `tts/output` when `None`.
    Generated { dir: Option<String>, prefix: String },
}

/// A validated synthesis request, defaults filled in.
#[derive(Clone, Debug)]
pub struct ResolvedSynthesisRequest {
    pub text: String,
    pub model_id: String,
    pub voice_id: String,
    pub language_code: String,
    pub output: OutputTarget,
}

/// `o`'s text, or `default` when absent.
pub open spec fn or_default(o: Option<String>, default: Seq<char>) -> Seq<char> {
    match opt_view(o) {
        Some(s) => s,
        None => default,
    }
}

/// The first problem with a synthesis request, checked in this order: empty
/// (trimmed) text, text over the length limit, a model, voice or language
/// outside its allowlist, a speed outside [0.5, 2.0], and both an output path
/// and an output directory. `None` when there is none.
pub open spec fn synthesis_problem(f: SynthesisFields, speed_in_range: bool) -> Option<Seq<char>> {
    let text = trimmed(f.text@);
    if text.len() == 0 {
        Some("text is required"@)
    } else if text.len() > TTS_MAX_TEXT_CHARS {
        Some("text exceeds the maximum length"@)
    } else if !allowed_tts_model(or_default(f.model_id, default_tts_model())) {
        Some("Invalid or unsupported TTS model ID"@)
    } else if !allowed_tts_voice(or_default(f.voice_id, default_tts_voice())) {
        Some("Invalid or unsupported TTS voice ID"@)
    } else if !allowed_tts_language(or_default(f.language_code, default_tts_language())) {
        Some("Invalid or unsupported TTS language code"@)
    } else if !speed_in_range {
        Some("speed must be between 0.5 and 2.0"@)
    } else if f.output_path is Some && f.output_dir is Some {
        Some("outputPath and outputDir are mutually exclusive"@)
    } else {
        None
    }
}

/// The voice of a synthesis request is judged against the ten Kokoro
/// presets (af_heart, af_bella, af_nova, af_sky, am_adam, am_echo, bf_alice,
/// bf_emma, bm_daniel, bm_george) and nothing else: a request naming any preset has exactly the
/// problems (if any) of the same request naming no voice, so it resolves
/// whenever that one does, with the named voice (see
/// `resolve_synthesis_request`); a request naming any other voice, whose
/// voice-less form has no problem, is refused for its voice.
pub proof fn law_voice_presets_decide_the_voice(
    f: SynthesisFields,
    speed_in_range: bool,
    v: Seq<char>,
)
    ensures
        ({
            let unnamed = SynthesisFields {
                text: f.text,
                model_id: f.model_id,
                voice_id: None,
                language_code: f.language_code,
                output_path: f.output_path,
                output_dir: f.output_dir,
                file_name_prefix: f.file_name_prefix,
            };
            &&& opt_view(f.voice_id) == Some(v) && (v == "af_heart"@ || v == "af_bella"@ || v == "af_nova"@ || v == "af_sky"@
                || v == "am_adam"@ || v == "am_echo"@ || v == "bf_alice"@ || v == "bf_emma"@
                || v == "bm_daniel"@ || v == "bm_george"@) ==> {
                &&& synthesis_problem(f, speed_in_range) == synthesis_problem(
                    unnamed,
                    speed_in_range,
                )
                &&& or_default(f.voice_id, default_tts_voice()) == v
            }
            &&& opt_view(f.voice_id) == Some(v) && !(v == "af_heart"@ || v == "af_bella"@ || v == "af_nova"@ || v == "af_sky"@
                || v == "am_adam"@ || v == "am_echo"@ || v == "bf_alice"@ || v == "bf_emma"@
                || v == "bm_daniel"@ || v == "bm_george"@) && synthesis_problem(
                unnamed,
                speed_in_range,
            ) is None ==> synthesis_problem(f, speed_in_range) == Some(
                "Invalid or unsupported TTS voice ID"@,
            )
        }),
{
}

/// A character kept in a file-name prefix.
pub open spec fn prefix_char(c: char) -> bool {
    let u = c as u32;
    ||| 0x30 <= u <= 0x39
    ||| 0x41 <= u <= 0x5a
    ||| 0x61 <= u <= 0x7a
    ||| c == '-'
    ||| c == '_'
}

/// The characters of `s` kept in a file-name prefix, in order.
pub open spec fn prefix_chars(s: Seq<char>) -> Seq<char> {
    s.filter(|c: char| prefix_char(c))
}

/// At most the first 32 characters.
pub open spec fn cap32(s: Seq<char>) -> Seq<char> {
    if s.len() > 32 {
        s.take(32)
    } else {
        s
    }
}

/// A file-name prefix made safe: its ASCII letters, digits, '-' and '_',
/// at most 32 of them, or "tts" when none is left.
pub open spec fn sanitized_prefix(s: Seq<char>) -> Seq<char> {
    let kept = cap32(prefix_chars(s));
    if kept.len() == 0 {
        "tts"@
    } else {
        kept
    }
}

/// A sanitized prefix is never empty, holds at most 32 characters, and
/// holds nothing but ASCII letters, digits, '-' and '_', whatever it was
/// made from.
pub proof fn law_sanitized_prefix_is_safe(s: Seq<char>)
    ensures
        1 <= sanitized_prefix(s).len() <= 32,
        forall|i: int|
            0 <= i < sanitized_prefix(s).len() ==> prefix_char(#[trigger] sanitized_prefix(s)[i]),
{
    broadcast use vstd::seq_lib::group_filter_ensures;

    reveal_strlit("tts");
    let f = prefix_chars(s);
    let kept = cap32(f);
    assert forall|i: int| 0 <= i < kept.len() implies prefix_char(#[trigger] kept[i]) by {
        assert(kept[i] == f[i]);
        assert((|c: char| prefix_char(c))(f[i]));
    }
    if kept.len() == 0 {
        assert("tts"@[0] == 't' && "tts"@[1] == 't' && "tts"@[2] == 's');
    }
}

/// The generated output file name: prefix, time, request id, ".wav".
pub open spec fn file_name_spec(prefix: Seq<char>, now_ms: u64, request_id: Seq<char>) -> Seq<
    char,
> {
    prefix + "-"@ + crate::text::decimal(now_ms as nat) + "-"@ + request_id + ".wav"@
}

fn is_prefix_char(c: char) -> (r: bool)
    ensures
        r == prefix_char(c),
{
    let u = c as u32;
    (0x30 <= u && u <= 0x39) || (0x41 <= u && u <= 0x5a) || (0x61 <= u && u <= 0x7a) || c == '-'
        || c == '_'
}

/// A file-name prefix made safe (see [`sanitized_prefix`]).
pub fn sanitize_file_prefix(prefix: &str) -> (r: String)
    ensures
        r@ == sanitized_prefix(prefix@),
{
    let n = prefix.unicode_len();
    let mut kept = String::new();
    let mut count: usize = 0;
    let mut i: usize = 0;
    assert(prefix@.subrange(0, 0) =~= Seq::<char>::empty());
    assert(prefix_chars(Seq::<char>::empty()) =~= Seq::<char>::empty()) by {
        reveal(Seq::filter);
    }
    while i < n
        invariant
            n == prefix@.len(),
            0 <= i <= n,
            kept@ == cap32(prefix_chars(prefix@.subrange(0, i as int))),
            count == kept@.len(),
            count <= 32,
        decreases n - i,
    {
        let c = prefix.get_char(i);
        let ghost before = prefix_chars(prefix@.subrange(0, i as int));
        let ghost after = prefix_chars(prefix@.subrange(0, i + 1));
        proof {
            reveal(Seq::filter);
            assert(prefix@.subrange(0, i + 1).drop_last() =~= prefix@.subrange(0, i as int));
            assert(prefix@.subrange(0, i + 1).last() == c);
            assert(after == if prefix_char(c) {
                before.push(c)
            } else {
                before
            });
        }
        if is_prefix_char(c) && count < 32 {
            push_char(&mut kept, c);
            count = count + 1;
            assert(kept@ =~= cap32(after));
        } else {
            if is_prefix_char(c) {
                assert(before.len() >= 32);
                assert(cap32(after) =~= cap32(before));
            }
        }
        i = i + 1;
    }
    assert(prefix@.subrange(0, n as int) =~= prefix@);
    if count == 0 {
        String::from_str("tts")
    } else {
        kept
    }
}

/// The request id of a time: the low 20 bits of the millisecond time in
/// lower-case hexadecimal.
pub fn short_request_id_at(now_ms: u64) -> (r: String)
    ensures
        r@ == hexadecimal((now_ms % 0x100000) as nat),
{
    hex_string(now_ms % 0x100000)
}

/// A request id for the current time (see [`short_request_id_at`]): the
/// lower-case hexadecimal text of a number below 0x100000, which the clock
/// decides.
pub fn short_request_id() -> (r: String)
    ensures
        exists|n: nat| n < 0x100000 && r@ == #[trigger] hexadecimal(n),
{
    let now = crate::clock::now_ms();
    let r = short_request_id_at(now);
    assert(r@ == hexadecimal((now % 0x100000) as nat));
    r
}

/// The generated output file name "<prefix>-<now_ms>-<request_id>.wav".
pub fn generated_file_name(prefix: &str, now_ms: u64, request_id: &str) -> (r: String)
    ensures
        r@ == file_name_spec(prefix@, now_ms, request_id@),
{
    let mut r = concat_str(prefix, "-");
    let stamp = decimal_string(now_ms);
    r.append(stamp.as_str());
    r.append("-");
    r.append(request_id);
    r.append(".wav");
    r
}

fn is_allowed_voice(v: &str) -> (r: bool)
    ensures
        r == allowed_tts_voice(v@),
{
    str_eq(v, "af_heart") || str_eq(v, "af_bella") || str_eq(v, "af_nova") || str_eq(v, "af_sky")
        || str_eq(v, "am_adam") || str_eq(v, "am_echo") || str_eq(v, "bf_alice") || str_eq(
        v,
        "bf_emma",
    ) || str_eq(v, "bm_daniel") || str_eq(v, "bm_george")
}

fn text_or(o: &Option<String>, default: &str) -> (r: String)
    ensures
        r@ == or_default(*o, default@),
{
    match o {
        Some(s) => s.clone(),
        None => String::from_str(default),
    }
}

/// Validates a synthesis request and fills in its defaults: the trimmed
/// text, the model, voice and language (defaulting to Kokoro, "af_heart" and
/// "a"), and where the audio goes. The first problem found (see
/// [`synthesis_problem`]) is an `invalid_input` error. `speed_in_range` says
/// whether the requested speed (1.0 when absent) lies in [0.5, 2.0].
pub fn resolve_synthesis_request(fields: &SynthesisFields, speed_in_range: bool) -> (r: Result<
    ResolvedSynthesisRequest,
    Error,
>)
    ensures
        match synthesis_problem(*fields, speed_in_range) {
            Some(message) => fails_with(r, ErrorKind::InvalidInput, message),
            None => r matches Ok(q) && {
                &&& q.text@ == trimmed(fields.text@)
                &&& q.model_id@ == or_default(fields.model_id, default_tts_model())
                &&& q.voice_id@ == or_default(fields.voice_id, default_tts_voice())
                &&& q.language_code@ == or_default(fields.language_code, default_tts_language())
                &&& match fields.output_path {
                    Some(p) => q.output matches OutputTarget::Exact { path } && path@ == p@,
                    None => q.output matches OutputTarget::Generated { dir, prefix } && opt_view(dir)
                        == opt_view(fields.output_dir) && prefix@ == sanitized_prefix(
                        or_default(fields.file_name_prefix, "tts"@),
                    ),
                }
            },
        },
{
    let text = trim(fields.text.as_str());
    let len = text.unicode_len();
    if len == 0 {
        return Err(Error::invalid_input("text is required"));
    }
    if len > TTS_MAX_TEXT_CHARS {
        return Err(Error::invalid_input("text exceeds the maximum length"));
    }
    let model_id = text_or(&fields.model_id, "mlx-community/Kokoro-82M-bf16");
    if !str_eq(model_id.as_str(), "mlx-community/Kokoro-82M-bf16") {
        return Err(Error::invalid_input("Invalid or unsupported TTS model ID"));
    }
    let voice_id = text_or(&fields.voice_id, "af_heart");
    if !is_allowed_voice(voice_id.as_str()) {
        return Err(Error::invalid_input("Invalid or unsupported TTS voice ID"));
    }
    let language_code = text_or(&fields.language_code, "a");
    if !(str_eq(language_code.as_str(), "a") || str_eq(language_code.as_str(), "b")) {
        return Err(Error::invalid_input("Invalid or unsupported TTS language code"));
    }
    if !speed_in_range {
        return Err(Error::invalid_input("speed must be between 0.5 and 2.0"));
    }
    if fields.output_path.is_some() && fields.output_dir.is_some() {
        return Err(Error::invalid_input("outputPath and outputDir are mutually exclusive"));
    }
    let output = match &fields.output_path {
        Some(p) => OutputTarget::Exact { path: p.clone() },
        None => {
            let raw = text_or(&fields.file_name_prefix, "tts");
            OutputTarget::Generated {
                dir: match &fields.output_dir {
                    Some(d) => Some(d.clone()),
                    None => None,
                },
                prefix: sanitize_file_prefix(raw.as_str()),
            }
        },
    };
    Ok(ResolvedSynthesisRequest { text, model_id, voice_id, language_code, output })
}

/// The extension of a path's file name, as `Path::extension` reads it
/// (`None` when there is no file name, or it has no '.' other than a leading one).
pub uninterp spec fn path_extension(path: Seq<char>) -> Option<Seq<char>>;

/// `std::path::Path::extension`, read as UTF-8 (`OsStr::to_str`).
#[verifier::external_body]
fn file_extension(path: &str) -> (r: Option<String>)
    ensures
        opt_view(r) == path_extension(path@),
{
    std::path::Path::new(path).extension().and_then(|e| e.to_str()).map(|e| e.to_string())
}

/// The output path must end in ".wav"; otherwise `invalid_input`.
pub fn check_wav_extension(path: &str) -> (r: Result<(), Error>)
    ensures
        path_extension(path@) == Some("wav"@) ==> r is Ok,
        path_extension(path@) != Some("wav"@) ==> fails_with(
            r,
            ErrorKind::InvalidInput,
            "TTS output path must use a .wav extension"@,
        ),
{
    let ext = file_extension(path);
    let ok = match &ext {
        Some(e) => str_eq(e.as_str(), "wav"),
        None => false,
    };
    if ok {
        Ok(())
    } else {
        Err(Error::invalid_input("TTS output path must use a .wav extension"))
    }
}

/// The TTS worker's reply to a synthesis that was to write `output_path`,
/// read as the worker writes it: a JSON object with `audio` (the written
/// path), an optional non-empty `error`, and optional `model`, `voice`,
/// `language`, `format`, `duration_ms` and `sample_rate_hz`.
/// Not JSON: `generation_failed` naming the parse error and the line. A
/// non-empty `error`: `generation_failed` with it. No `audio`, or one other
/// than `output_path`: `generation_failed`. Otherwise the response, with the
/// model, voice and format defaulting to Kokoro, "af_heart" and "wav", the
/// sample rate cut to 32 bits, created at `now_ms`.
pub fn interpret_tts_reply(line: &str, output_path: &str, now_ms: u64) -> (r: Result<
    SynthesizeSpeechResponse,
    Error,
>)
    ensures
        json::json_parse_error(line@) matches Some(pe) ==> fails_with(
            r,
            ErrorKind::GenerationFailed,
            "TTS worker response parse failed: "@ + pe + ". Output: "@ + line@,
        ),
        json::json_parse_error(line@) is None ==> {
            let error = json::json_str_member(line@, "error"@);
            let audio = json::json_str_member(line@, "audio"@);
            if error matches Some(e) && e.len() > 0 {
                fails_with(r, ErrorKind::GenerationFailed, error->0)
            } else if audio is None {
                fails_with(r, ErrorKind::GenerationFailed, "TTS worker returned no audio path"@)
            } else if audio != Some(output_path@) {
                fails_with(
                    r,
                    ErrorKind::GenerationFailed,
                    "TTS worker returned an unexpected output path"@,
                )
            } else {
                r matches Ok(resp) && {
                    &&& resp.audio_path@ == output_path@
                    &&& resp.model_id@ == match json::json_str_member(line@, "model"@) {
                        Some(m) => m,
                        None => default_tts_model(),
                    }
                    &&& resp.voice_id@ == match json::json_str_member(line@, "voice"@) {
                        Some(v) => v,
                        None => default_tts_voice(),
                    }
                    &&& opt_view(resp.language_code) == json::json_str_member(
                        line@,
                        "language"@,
                    )
                    &&& resp.duration_ms == json::json_u64_member(line@, "duration_ms"@)
                    &&& resp.format@ == match json::json_str_member(line@, "format"@) {
                        Some(f) => f,
                        None => "wav"@,
                    }
                    &&& resp.sample_rate_hz == match json::json_u64_member(
                        line@,
                        "sample_rate_hz"@,
                    ) {
                        Some(hz) => Some(hz as u32),
                        None => None,
                    }
                    &&& resp.created_at_ms == now_ms
                }
            }
        },
{
    if let Some(pe) = json::parse_error(line) {
        let mut message = concat_str("TTS worker response parse failed: ", pe.as_str());
        message.append(". Output: ");
        message.append(line);
        return Err(Error::generation_failed(message.as_str()));
    }
    if let Some(e) = json::str_member(line, "error") {
        if e.unicode_len() > 0 {
            return Err(Error::generation_failed(e.as_str()));
        }
    }
    let audio = match json::str_member(line, "audio") {
        Some(a) => a,
        None => {
            return Err(Error::generation_failed("TTS worker returned no audio path"));
        },
    };
    if !str_eq(audio.as_str(), output_path) {
        return Err(Error::generation_failed("TTS worker returned an unexpected output path"));
    }
    let model_id = match json::str_member(line, "model") {
        Some(m) => m,
        None => String::from_str("mlx-community/Kokoro-82M-bf16"),
    };
    let voice_id = match json::str_member(line, "voice") {
        Some(v) => v,
        None => String::from_str("af_heart"),
    };
    let format = match json::str_member(line, "format") {
        Some(f) => f,
        None => String::from_str("wav"),
    };
    let sample_rate_hz = match json::u64_member(line, "sample_rate_hz") {
        Some(hz) => Some(#[verifier::truncate] (hz as u32)),
        None => None,
    };
    Ok(
        SynthesizeSpeechResponse {
            audio_path: audio,
            model_id,
            voice_id,
            language_code: json::str_member(line, "language"),
            duration_ms: json::u64_member(line, "duration_ms"),
            format,
            sample_rate_hz,
            created_at_ms: now_ms,
        },
    )
}

} // verus!
