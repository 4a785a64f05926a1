//! Audio: transcription, translation and speech request planning, the
//! dispatch of responses by format, and the reading of transcription streams.
use vstd::prelude::*;
use serde_json::Value;
use crate::error::{ErrorKind, OpenAIError};
use crate::json::{json_compact, json_quote, json_quoted, json_scalar, json_text, json_view, JsonScalar, JsonView};
use crate::literal::Literal;
use crate::query::{inclusion_key, inclusion_key_text, opt_view, pairs_view};
use crate::request::{parts_view, text_part, ApiRequest, BodyView, HttpMethod, MultipartPart, PartView, RequestBody, RequestView};
use crate::sse::SseFrame;
use crate::text::{push_str, str_eq, u32_to_string, decimal, utf8_refusal, utf8_text};
use vstd::utf8::{decode_utf8, valid_utf8};

verus! {

/// Output format shared by transcription and translation.
#[derive(Clone, Copy, Debug, PartialEq, Eq)]
pub enum AudioResponseFormat {
    Json,
    Text,
    Srt,
    VerboseJson,
    Vtt,
    DiarizedJson,
}

impl Literal for AudioResponseFormat {
    open spec fn literal(&self) -> Seq<char> {
        match self {
            AudioResponseFormat::Json => "json"@,
            AudioResponseFormat::Text => "text"@,
            AudioResponseFormat::Srt => "srt"@,
            AudioResponseFormat::VerboseJson => "verbose_json"@,
            AudioResponseFormat::Vtt => "vtt"@,
            AudioResponseFormat::DiarizedJson => "diarized_json"@,
        }
    }

    fn to_text(&self) -> (r: String) {
        self.as_str().to_string()
    }
}

impl AudioResponseFormat {
    pub fn as_str(&self) -> (r: &'static str)
        ensures
            r@ == self.literal(),
    {
        match self {
            AudioResponseFormat::Json => "json",
            AudioResponseFormat::Text => "text",
            AudioResponseFormat::Srt => "srt",
            AudioResponseFormat::VerboseJson => "verbose_json",
            AudioResponseFormat::Vtt => "vtt",
            AudioResponseFormat::DiarizedJson => "diarized_json",
        }
    }
}

/// Additional transcription details to request.
#[derive(Clone, Copy, Debug, PartialEq, Eq)]
pub enum TranscriptionInclude {
    Logprobs,
}

impl Literal for TranscriptionInclude {
    open spec fn literal(&self) -> Seq<char> {
        "logprobs"@
    }

    fn to_text(&self) -> (r: String) {
        self.as_str().to_string()
    }
}

impl TranscriptionInclude {
    pub fn as_str(&self) -> (r: &'static str)
        ensures
            r@ == self.literal(),
    {
        "logprobs"
    }
}

/// Timestamp detail for verbose transcriptions.
#[derive(Clone, Copy, Debug, PartialEq, Eq)]
pub enum TranscriptionTimestampGranularity {
    Word,
    Segment,
}

impl Literal for TranscriptionTimestampGranularity {
    open spec fn literal(&self) -> Seq<char> {
        match self {
            TranscriptionTimestampGranularity::Word => "word"@,
            TranscriptionTimestampGranularity::Segment => "segment"@,
        }
    }

    fn to_text(&self) -> (r: String) {
        self.as_str().to_string()
    }
}

impl TranscriptionTimestampGranularity {
    pub fn as_str(&self) -> (r: &'static str)
        ensures
            r@ == self.literal(),
    {
        match self {
            TranscriptionTimestampGranularity::Word => "word",
            TranscriptionTimestampGranularity::Segment => "segment",
        }
    }
}

/// Text-to-speech output format.
#[derive(Clone, Copy, Debug, PartialEq, Eq)]
pub enum SpeechResponseFormat {
    Mp3,
    Opus,
    Aac,
    Flac,
    Wav,
    Pcm,
}

/// Speech streaming mode.
#[derive(Clone, Copy, Debug, PartialEq, Eq)]
pub enum SpeechStreamFormat {
    Sse,
    Audio,
}

/// Named or custom speech voice.
#[derive(Clone, Debug, PartialEq)]
pub enum SpeechVoice {
    Named(String),
    Custom { id: String },
}

impl Default for SpeechVoice {
    fn default() -> (r: SpeechVoice)
        ensures
            r matches SpeechVoice::Named(n) && n@.len() == 0,
    {
        SpeechVoice::Named(String::new())
    }
}

/// Uploadable audio.
#[derive(Clone, Debug, Default, PartialEq, Eq)]
pub struct AudioInput {
    pub filename: String,
    pub content_type: String,
    pub bytes: Vec<u8>,
}

impl AudioInput {
    pub fn new(filename: String, content_type: String, bytes: Vec<u8>) -> (a: AudioInput)
        ensures
            a.filename == filename,
            a.content_type == content_type,
            a.bytes == bytes,
    {
        AudioInput { filename, content_type, bytes }
    }

    /// The multipart `file` part carrying this audio.
    pub fn into_file_part(self, name: &str) -> (p: MultipartPart)
        ensures
            p@ == (PartView::File {
                name: name@,
                filename: self.filename@,
                content_type: self.content_type@,
                bytes: self.bytes@,
            }),
    {
        MultipartPart::File {
            name: name.to_string(),
            filename: self.filename,
            content_type: self.content_type,
            bytes: self.bytes,
        }
    }
}

/// Server VAD settings for transcription chunking.
#[derive(Clone, Debug, Default, PartialEq, Eq)]
pub struct TranscriptionVadConfig {
    pub kind: String,
    pub prefix_padding_ms: Option<u32>,
    pub silence_duration_ms: Option<u32>,
    pub threshold: Option<String>,
}

/// `,"key":value` when a value is present.
pub open spec fn json_member(key: Seq<char>, value: Option<Seq<char>>) -> Seq<char> {
    match value {
        Some(v) => ","@ + json_quoted(key) + ":"@ + v,
        None => seq![],
    }
}

/// The JSON object of a VAD configuration: `type`, then the settings that are present.
pub open spec fn vad_json(c: TranscriptionVadConfig) -> Seq<char> {
    "{"@ + json_quoted("type"@) + ":"@ + json_quoted(c.kind@) + json_member(
        "prefix_padding_ms"@,
        match c.prefix_padding_ms {
            Some(n) => Some(decimal(n as nat)),
            None => None,
        },
    ) + json_member(
        "silence_duration_ms"@,
        match c.silence_duration_ms {
            Some(n) => Some(decimal(n as nat)),
            None => None,
        },
    ) + json_member(
        "threshold"@,
        match c.threshold {
            Some(t) => Some(json_quoted(t@)),
            None => None,
        },
    ) + "}"@
}

fn push_member(out: &mut String, key: &str, value: Option<String>)
    ensures
        final(out)@ == old(out)@ + json_member(key@, opt_view(value)),
{
    match value {
        Some(v) => {
            push_str(out, ",");
            let k = json_quote(key);
            push_str(out, k.as_str());
            push_str(out, ":");
            push_str(out, v.as_str());
            assert(final(out)@ =~= old(out)@ + json_member(key@, opt_view(Some(v))));
        },
        None => {
            assert(out@ =~= old(out)@ + json_member(key@, None));
        },
    }
}

impl TranscriptionVadConfig {
    /// Server VAD with the server's defaults.
    pub fn server_vad() -> (c: TranscriptionVadConfig)
        ensures
            c.kind@ == "server_vad"@,
            c.prefix_padding_ms is None && c.silence_duration_ms is None && c.threshold is None,
    {
        TranscriptionVadConfig {
            kind: "server_vad".to_string(),
            prefix_padding_ms: None,
            silence_duration_ms: None,
            threshold: None,
        }
    }

    /// The configuration as a JSON object.
    pub fn to_json(&self) -> (r: String)
        ensures
            r@ == vad_json(*self),
    {
        let mut out = "{".to_string();
        let t = json_quote("type");
        push_str(&mut out, t.as_str());
        push_str(&mut out, ":");
        let k = json_quote(self.kind.as_str());
        push_str(&mut out, k.as_str());
        let prefix = match self.prefix_padding_ms {
            Some(n) => Some(u32_to_string(n)),
            None => None,
        };
        push_member(&mut out, "prefix_padding_ms", prefix);
        let silence = match self.silence_duration_ms {
            Some(n) => Some(u32_to_string(n)),
            None => None,
        };
        push_member(&mut out, "silence_duration_ms", silence);
        let threshold = match &self.threshold {
            Some(t) => Some(json_quote(t.as_str())),
            None => None,
        };
        push_member(&mut out, "threshold", threshold);
        push_str(&mut out, "}");
        out
    }
}

/// Optional server chunking strategy for transcription.
#[derive(Clone, Debug, PartialEq, Eq)]
pub enum TranscriptionChunkingStrategy {
    Auto,
    ServerVad(TranscriptionVadConfig),
}

impl Default for TranscriptionChunkingStrategy {
    fn default() -> (r: TranscriptionChunkingStrategy)
        ensures
            r == TranscriptionChunkingStrategy::Auto,
    {
        TranscriptionChunkingStrategy::Auto
    }
}

/// The value of the `chunking_strategy` field: `auto`, or the VAD settings as JSON.
pub open spec fn chunking_text(s: TranscriptionChunkingStrategy) -> Seq<char> {
    match s {
        TranscriptionChunkingStrategy::Auto => "auto"@,
        TranscriptionChunkingStrategy::ServerVad(c) => vad_json(c),
    }
}

/// The form field a loosely typed extra parameter becomes: none for null,
/// the text itself for a string, the compact JSON text for anything else.
pub open spec fn jsonish_field(key: Seq<char>, value: Value) -> Seq<(Seq<char>, Seq<char>)> {
    match json_view(value) {
        JsonView::Null => seq![],
        JsonView::Text(text) => seq![(key, text)],
        _ => seq![(key, json_compact(value))],
    }
}

/// Adds an extra parameter to the text fields of a form.
pub fn add_jsonish_extra(fields: &mut Vec<(String, String)>, key: String, value: &Value)
    ensures
        pairs_view(final(fields)@) == pairs_view(old(fields)@) + jsonish_field(key@, *value),
{
    let ghost before = fields@;
    match json_scalar(value) {
        JsonScalar::Null => {
            assert(pairs_view(fields@) =~= pairs_view(before) + jsonish_field(key@, *value));
        },
        JsonScalar::Text(text) => {
            fields.push((key, text));
            assert(pairs_view(fields@) =~= pairs_view(before) + jsonish_field(key@, *value));
        },
        JsonScalar::Other => {
            let text = json_text(value);
            fields.push((key, text));
            assert(pairs_view(fields@) =~= pairs_view(before) + jsonish_field(key@, *value));
        },
    }
}

/// The text ends in `.0`.
pub open spec fn ends_with_point_zero(s: Seq<char>) -> bool {
    s.len() >= 2 && s[s.len() - 2] == '.' && s[s.len() - 1] == '0'
}

/// A number's text with a trailing `.0` dropped, so that whole numbers read as integers.
pub fn trim_point_zero(text: String) -> (r: String)
    ensures
        r@ == (if ends_with_point_zero(text@) {
            text@.subrange(0, text@.len() - 2)
        } else {
            text@
        }),
{
    let n = text.as_str().unicode_len();
    if n >= 2 && text.as_str().get_char(n - 2) == '.' && text.as_str().get_char(n - 1) == '0' {
        text.as_str().substring_char(0, n - 2).to_string()
    } else {
        text
    }
}

/// Audio transcription parameters. `temperature` is the temperature already
/// written as text (a whole number without `.0`); `extra` holds further form
/// fields already rendered as text, in key order.
#[derive(Clone, Debug, Default, PartialEq)]
pub struct TranscriptionParams {
    pub file: AudioInput,
    pub model: String,
    pub chunking_strategy: Option<TranscriptionChunkingStrategy>,
    pub includes: Vec<TranscriptionInclude>,
    pub known_speaker_names: Vec<String>,
    pub known_speaker_references: Vec<String>,
    pub language: Option<String>,
    pub prompt: Option<String>,
    pub response_format: Option<AudioResponseFormat>,
    pub stream: Option<bool>,
    pub temperature: Option<String>,
    pub timestamp_granularities: Vec<TranscriptionTimestampGranularity>,
    pub extra: Vec<(String, String)>,
}

/// The format a request asks for: JSON unless one is given.
pub open spec fn format_or_json(f: Option<AudioResponseFormat>) -> AudioResponseFormat {
    match f {
        Some(x) => x,
        None => AudioResponseFormat::Json,
    }
}

/// A text field when a value is present.
pub open spec fn opt_field(name: Seq<char>, value: Option<Seq<char>>) -> Seq<PartView> {
    match value {
        Some(v) => seq![PartView::Text { name, value: v }],
        None => seq![],
    }
}

/// One text field per value.
pub open spec fn repeated_fields(name: Seq<char>, values: Seq<Seq<char>>) -> Seq<PartView> {
    values.map_values(|v: Seq<char>| PartView::Text { name, value: v })
}

/// The extra fields, each under its own name.
pub open spec fn extra_fields(extra: Seq<(String, String)>) -> Seq<PartView> {
    extra.map_values(|kv: (String, String)| PartView::Text { name: kv.0@, value: kv.1@ })
}

pub open spec fn literal_texts<E: Literal>(values: Seq<E>) -> Seq<Seq<char>> {
    values.map_values(|v: E| v.literal())
}

pub open spec fn string_texts(values: Seq<String>) -> Seq<Seq<char>> {
    values.map_values(|v: String| v@)
}

/// The form of a transcription request, in field order.
pub open spec fn transcription_form(p: TranscriptionParams, stream: bool) -> Seq<PartView> {
    seq![
        PartView::File {
            name: "file"@,
            filename: p.file.filename@,
            content_type: p.file.content_type@,
            bytes: p.file.bytes@,
        },
        PartView::Text { name: "model"@, value: p.model@ },
    ] + opt_field(
        "chunking_strategy"@,
        match p.chunking_strategy {
            Some(s) => Some(chunking_text(s)),
            None => None,
        },
    ) + repeated_fields(inclusion_key(), literal_texts(p.includes@)) + repeated_fields(
        "known_speaker_names"@,
        string_texts(p.known_speaker_names@),
    ) + repeated_fields("known_speaker_references"@, string_texts(p.known_speaker_references@))
        + opt_field("language"@, opt_view(p.language)) + opt_field("prompt"@, opt_view(p.prompt))
        + seq![PartView::Text { name: "response_format"@, value: format_or_json(p.response_format).literal() }]
        + (if stream {
        seq![PartView::Text { name: "stream"@, value: "true"@ }]
    } else {
        seq![]
    }) + opt_field("temperature"@, opt_view(p.temperature)) + repeated_fields(
        "timestamp_granularities"@,
        literal_texts(p.timestamp_granularities@),
    ) + extra_fields(p.extra@)
}

fn push_opt_field(parts: &mut Vec<MultipartPart>, name: &str, value: Option<String>)
    ensures
        parts_view(final(parts)@) == parts_view(old(parts)@) + opt_field(name@, opt_view(value)),
{
    match value {
        Some(v) => {
            parts.push(text_part(name, v));
            assert(parts_view(parts@) =~= parts_view(old(parts)@) + opt_field(name@, opt_view(Some(v))));
        },
        None => {
            assert(parts_view(parts@) =~= parts_view(old(parts)@) + opt_field(name@, None));
        },
    }
}

fn push_literal_fields<E: Literal>(parts: &mut Vec<MultipartPart>, name: &str, values: &Vec<E>)
    ensures
        parts_view(final(parts)@) == parts_view(old(parts)@) + repeated_fields(name@, literal_texts(values@)),
{
    let ghost start = parts_view(parts@);
    let mut i: usize = 0;
    while i < values.len()
        invariant
            i <= values@.len(),
            parts_view(parts@) == start + repeated_fields(name@, literal_texts(values@.subrange(0, i as int))),
        decreases values@.len() - i,
    {
        let ghost before = parts@;
        let text = values[i].to_text();
        parts.push(text_part(name, text));
        assert(literal_texts(values@.subrange(0, i + 1)) =~= literal_texts(values@.subrange(0, i as int)).push(
            values@[i as int].literal(),
        ));
        assert(parts_view(parts@) =~= parts_view(before).push(
            PartView::Text { name: name@, value: values@[i as int].literal() },
        ));
        i = i + 1;
    }
    assert(values@.subrange(0, values@.len() as int) =~= values@);
}

fn push_text_fields(parts: &mut Vec<MultipartPart>, name: &str, values: Vec<String>)
    ensures
        parts_view(final(parts)@) == parts_view(old(parts)@) + repeated_fields(name@, string_texts(values@)),
{
    let ghost start = parts_view(parts@);
    let mut i: usize = 0;
    while i < values.len()
        invariant
            i <= values@.len(),
            parts_view(parts@) == start + repeated_fields(name@, string_texts(values@.subrange(0, i as int))),
        decreases values@.len() - i,
    {
        let ghost before = parts@;
        parts.push(text_part(name, values[i].clone()));
        assert(string_texts(values@.subrange(0, i + 1)) =~= string_texts(values@.subrange(0, i as int)).push(
            values@[i as int]@,
        ));
        assert(parts_view(parts@) =~= parts_view(before).push(PartView::Text { name: name@, value: values@[i as int]@ }));
        i = i + 1;
    }
    assert(values@.subrange(0, values@.len() as int) =~= values@);
}

fn push_extra_fields(parts: &mut Vec<MultipartPart>, extra: Vec<(String, String)>)
    ensures
        parts_view(final(parts)@) == parts_view(old(parts)@) + extra_fields(extra@),
{
    let ghost start = parts_view(parts@);
    let mut i: usize = 0;
    while i < extra.len()
        invariant
            i <= extra@.len(),
            parts_view(parts@) == start + extra_fields(extra@.subrange(0, i as int)),
        decreases extra@.len() - i,
    {
        let ghost before = parts@;
        parts.push(text_part(extra[i].0.as_str(), extra[i].1.clone()));
        assert(extra_fields(extra@.subrange(0, i + 1)) =~= extra_fields(extra@.subrange(0, i as int)).push(
            PartView::Text { name: extra@[i as int].0@, value: extra@[i as int].1@ },
        ));
        assert(parts_view(parts@) =~= parts_view(before).push(
            PartView::Text { name: extra@[i as int].0@, value: extra@[i as int].1@ },
        ));
        i = i + 1;
    }
    assert(extra@.subrange(0, extra@.len() as int) =~= extra@);
}

impl TranscriptionParams {
    /// The format asked for: JSON unless one is given.
    pub fn response_format(&self) -> (f: AudioResponseFormat)
        ensures
            f == format_or_json(self.response_format),
    {
        match self.response_format {
            Some(f) => f,
            None => AudioResponseFormat::Json,
        }
    }

    /// A non-streamed create refuses `stream=true`.
    pub fn validate_non_stream(&self) -> (r: Result<(), OpenAIError>)
        ensures
            r is Ok <==> self.stream != Some(true),
            r matches Err(e) ==> e.kind == ErrorKind::Validation && e.message@
                == "audio.transcriptions.create() is non-streaming; call stream() instead of setting `stream=true`"@,
    {
        if self.stream == Some(true) {
            return Err(
                OpenAIError::new(
                    ErrorKind::Validation,
                    "audio.transcriptions.create() is non-streaming; call stream() instead of setting `stream=true`".to_string(),
                ),
            );
        }
        Ok(())
    }

    /// The multipart form of the request.
    pub fn into_multipart(self, stream: bool) -> (parts: Vec<MultipartPart>)
        ensures
            parts_view(parts@) == transcription_form(self, stream),
    {
        let ghost p = self;
        let format = self.response_format();
        let mut parts: Vec<MultipartPart> = Vec::new();
        parts.push(self.file.into_file_part("file"));
        parts.push(text_part("model", self.model));
        assert(parts_view(parts@) =~= seq![
            PartView::File {
                name: "file"@,
                filename: p.file.filename@,
                content_type: p.file.content_type@,
                bytes: p.file.bytes@,
            },
            PartView::Text { name: "model"@, value: p.model@ },
        ]);
        let chunking = match &self.chunking_strategy {
            Some(TranscriptionChunkingStrategy::Auto) => Some("auto".to_string()),
            Some(TranscriptionChunkingStrategy::ServerVad(c)) => Some(c.to_json()),
            None => None,
        };
        push_opt_field(&mut parts, "chunking_strategy", chunking);
        push_literal_fields(&mut parts, inclusion_key_text().as_str(), &self.includes);
        push_text_fields(&mut parts, "known_speaker_names", self.known_speaker_names);
        push_text_fields(&mut parts, "known_speaker_references", self.known_speaker_references);
        push_opt_field(&mut parts, "language", self.language);
        push_opt_field(&mut parts, "prompt", self.prompt);
        push_opt_field(&mut parts, "response_format", Some(format.as_str().to_string()));
        if stream {
            push_opt_field(&mut parts, "stream", Some("true".to_string()));
        }
        push_opt_field(&mut parts, "temperature", self.temperature);
        push_literal_fields(&mut parts, "timestamp_granularities", &self.timestamp_granularities);
        push_extra_fields(&mut parts, self.extra);
        assert(parts_view(parts@) =~= transcription_form(p, stream));
        parts
    }
}

/// Audio translation parameters, with `temperature` and `extra` as for transcriptions.
#[derive(Clone, Debug, Default, PartialEq)]
pub struct TranslationParams {
    pub file: AudioInput,
    pub model: String,
    pub prompt: Option<String>,
    pub response_format: Option<AudioResponseFormat>,
    pub temperature: Option<String>,
    pub extra: Vec<(String, String)>,
}

/// The form of a translation request, in field order.
pub open spec fn translation_form(p: TranslationParams) -> Seq<PartView> {
    seq![
        PartView::File {
            name: "file"@,
            filename: p.file.filename@,
            content_type: p.file.content_type@,
            bytes: p.file.bytes@,
        },
        PartView::Text { name: "model"@, value: p.model@ },
    ] + opt_field("prompt"@, opt_view(p.prompt)) + seq![
        PartView::Text { name: "response_format"@, value: format_or_json(p.response_format).literal() },
    ] + opt_field("temperature"@, opt_view(p.temperature)) + extra_fields(p.extra@)
}

impl TranslationParams {
    pub fn response_format(&self) -> (f: AudioResponseFormat)
        ensures
            f == format_or_json(self.response_format),
    {
        match self.response_format {
            Some(f) => f,
            None => AudioResponseFormat::Json,
        }
    }

    /// The multipart form of the request.
    pub fn into_multipart(self) -> (parts: Vec<MultipartPart>)
        ensures
            parts_view(parts@) == translation_form(self),
    {
        let ghost p = self;
        let format = self.response_format();
        let mut parts: Vec<MultipartPart> = Vec::new();
        parts.push(self.file.into_file_part("file"));
        parts.push(text_part("model", self.model));
        push_opt_field(&mut parts, "prompt", self.prompt);
        push_opt_field(&mut parts, "response_format", Some(format.as_str().to_string()));
        push_opt_field(&mut parts, "temperature", self.temperature);
        push_extra_fields(&mut parts, self.extra);
        assert(parts_view(parts@) =~= translation_form(p));
        parts
    }
}

/// A multipart request with the given `accept` header.
pub open spec fn multipart_request(path: Seq<char>, form: Seq<PartView>, accept: Seq<char>) -> RequestView {
    RequestView {
        method: HttpMethod::Post,
        path,
        headers: seq![("accept"@, accept)],
        body: BodyView::Multipart(form),
    }
}

fn multipart_post(path: &str, parts: Vec<MultipartPart>, accept: &str) -> (r: ApiRequest)
    ensures
        r@ == multipart_request(path@, parts_view(parts@), accept@),
{
    let r = ApiRequest::new(HttpMethod::Post, path.to_string(), RequestBody::Multipart(parts)).with_header(
        "accept",
        accept,
    );
    assert(r@.headers =~= seq![("accept"@, accept@)]);
    r
}

/// Audio API family.
#[derive(Clone, Copy, Debug)]
pub struct Audio {
    pub transcriptions: Transcriptions,
    pub translations: Translations,
    pub speech: Speech,
}

impl Audio {
    pub fn new() -> Audio {
        Audio { transcriptions: Transcriptions {}, translations: Translations {}, speech: Speech {} }
    }
}

/// Audio transcription.
#[derive(Clone, Copy, Debug)]
pub struct Transcriptions {}

impl Transcriptions {
    pub fn new() -> Transcriptions {
        Transcriptions {}
    }

    /// A non-streamed transcription; the response is read by the format asked for.
    pub fn create(&self, params: TranscriptionParams) -> (r: Result<ApiRequest, OpenAIError>)
        ensures
            r is Ok <==> params.stream != Some(true),
            r matches Ok(req) ==> req@ == multipart_request(
                "/audio/transcriptions"@,
                transcription_form(params, false),
                "*/*"@,
            ),
            r matches Err(e) ==> e.kind == ErrorKind::Validation && e.message@
                == "audio.transcriptions.create() is non-streaming; call stream() instead of setting `stream=true`"@,
    {
        params.validate_non_stream()?;
        let parts = params.into_multipart(false);
        Ok(multipart_post("/audio/transcriptions", parts, "*/*"))
    }

    /// A streamed transcription.
    pub fn stream(&self, params: TranscriptionParams) -> (r: ApiRequest)
        ensures
            r@ == multipart_request("/audio/transcriptions"@, transcription_form(params, true), "text/event-stream"@),
    {
        let parts = params.into_multipart(true);
        multipart_post("/audio/transcriptions", parts, "text/event-stream")
    }
}

/// Audio translation.
#[derive(Clone, Copy, Debug)]
pub struct Translations {}

impl Translations {
    pub fn new() -> Translations {
        Translations {}
    }

    pub fn create(&self, params: TranslationParams) -> (r: ApiRequest)
        ensures
            r@ == multipart_request("/audio/translations"@, translation_form(params), "*/*"@),
    {
        let parts = params.into_multipart();
        multipart_post("/audio/translations", parts, "*/*")
    }
}

/// Text to speech.
#[derive(Clone, Copy, Debug)]
pub struct Speech {}

impl Speech {
    pub fn new() -> Speech {
        Speech {}
    }

    /// Speech generation from the serialized parameters; the answer is raw bytes.
    pub fn create(&self, params: Value) -> (r: ApiRequest)
        ensures
            r@ == (RequestView {
                method: HttpMethod::Post,
                path: "/audio/speech"@,
                headers: seq![("accept"@, "application/octet-stream"@)],
                body: BodyView::JsonValue(params),
            }),
    {
        let r = ApiRequest::new(HttpMethod::Post, "/audio/speech".to_string(), RequestBody::JsonValue(params)).with_header(
            "accept",
            "application/octet-stream",
        );
        assert(r@.headers =~= seq![("accept"@, "application/octet-stream"@)]);
        r
    }
}

/// How a response body is read.
#[derive(Clone, Copy, Debug, PartialEq, Eq)]
pub enum AudioBody {
    /// Decoded as the JSON payload of the format.
    Json(AudioResponseFormat),
    /// Decoded as UTF-8 text; the label names it in a decoding error.
    Text(&'static str),
}

/// How a transcription response of a format is read.
pub fn transcription_body(format: AudioResponseFormat) -> (b: AudioBody)
    ensures
        match format {
            AudioResponseFormat::Json | AudioResponseFormat::VerboseJson | AudioResponseFormat::DiarizedJson => b
                == AudioBody::Json(format),
            AudioResponseFormat::Text => b matches AudioBody::Text(l) && l@ == "transcription text"@,
            AudioResponseFormat::Srt => b matches AudioBody::Text(l) && l@ == "transcription srt"@,
            AudioResponseFormat::Vtt => b matches AudioBody::Text(l) && l@ == "transcription vtt"@,
        },
{
    match format {
        AudioResponseFormat::Json => AudioBody::Json(format),
        AudioResponseFormat::VerboseJson => AudioBody::Json(format),
        AudioResponseFormat::DiarizedJson => AudioBody::Json(format),
        AudioResponseFormat::Text => AudioBody::Text("transcription text"),
        AudioResponseFormat::Srt => AudioBody::Text("transcription srt"),
        AudioResponseFormat::Vtt => AudioBody::Text("transcription vtt"),
    }
}

/// How a translation response of a format is read; translations have no diarized form.
pub fn translation_body(format: AudioResponseFormat) -> (r: Result<AudioBody, OpenAIError>)
    ensures
        r is Err <==> format == AudioResponseFormat::DiarizedJson,
        r matches Err(e) ==> e.kind == ErrorKind::Validation && e.message@
            == "audio.translations does not support `diarized_json` response format"@,
        match format {
            AudioResponseFormat::Json | AudioResponseFormat::VerboseJson => r == Ok::<AudioBody, OpenAIError>(
                AudioBody::Json(format),
            ),
            AudioResponseFormat::Text => r matches Ok(AudioBody::Text(l)) && l@ == "translation text"@,
            AudioResponseFormat::Srt => r matches Ok(AudioBody::Text(l)) && l@ == "translation srt"@,
            AudioResponseFormat::Vtt => r matches Ok(AudioBody::Text(l)) && l@ == "translation vtt"@,
            AudioResponseFormat::DiarizedJson => true,
        },
{
    match format {
        AudioResponseFormat::Json => Ok(AudioBody::Json(format)),
        AudioResponseFormat::VerboseJson => Ok(AudioBody::Json(format)),
        AudioResponseFormat::Text => Ok(AudioBody::Text("translation text")),
        AudioResponseFormat::Srt => Ok(AudioBody::Text("translation srt")),
        AudioResponseFormat::Vtt => Ok(AudioBody::Text("translation vtt")),
        AudioResponseFormat::DiarizedJson => Err(
            OpenAIError::new(
                ErrorKind::Validation,
                "audio.translations does not support `diarized_json` response format".to_string(),
            ),
        ),
    }
}

/// Reads a plain-text response body (text, SRT or VTT); `label` names what
/// was asked for in the error.
pub fn parse_text_body(body: Vec<u8>, label: &str) -> (r: Result<String, OpenAIError>)
    ensures
        r is Ok <==> valid_utf8(body@),
        r matches Ok(text) ==> text@ == decode_utf8(body@),
        r matches Err(e) ==> e.kind == ErrorKind::Parse && e.message@ == "failed to decode "@ + label@
            + " response as UTF-8: "@ + utf8_refusal(body@),
{
    match utf8_text(body) {
        Ok(text) => Ok(text),
        Err(detail) => {
            let mut message = "failed to decode ".to_string();
            push_str(&mut message, label);
            push_str(&mut message, " response as UTF-8: ");
            push_str(&mut message, detail.as_str());
            Err(OpenAIError::new(ErrorKind::Parse, message))
        },
    }
}

/// What one frame of a transcription stream is.
#[derive(Clone, Debug, PartialEq, Eq)]
pub enum TranscriptionFrame {
    /// Exactly `[DONE]`.
    Done,
    /// An event named by its `event:` line.
    Named(String),
    /// An event whose name is the `type` of its JSON payload.
    Untyped,
}

pub fn classify_transcription_frame(frame: &SseFrame) -> (r: TranscriptionFrame)
    ensures
        frame.data@ == "[DONE]"@ ==> r == TranscriptionFrame::Done,
        frame.data@ != "[DONE]"@ ==> match frame.event {
            Some(e) => r matches TranscriptionFrame::Named(n) && n@ == e@,
            None => r == TranscriptionFrame::Untyped,
        },
{
    if str_eq(frame.data.as_str(), "[DONE]") {
        return TranscriptionFrame::Done;
    }
    match &frame.event {
        Some(e) => TranscriptionFrame::Named(e.clone()),
        None => TranscriptionFrame::Untyped,
    }
}

/// The event name of an untyped frame: its payload's `type`, which must be there.
pub fn event_name_from_payload(payload_type: Option<String>) -> (r: Result<String, OpenAIError>)
    ensures
        r is Ok <==> payload_type is Some,
        r matches Ok(n) ==> payload_type == Some(n),
        r matches Err(e) ==> e.kind == ErrorKind::Parse && e.message@
            == "transcription stream event was missing both `event:` and payload `type`"@,
{
    match payload_type {
        Some(t) => Ok(t),
        None => Err(
            OpenAIError::new(
                ErrorKind::Parse,
                "transcription stream event was missing both `event:` and payload `type`".to_string(),
            ),
        ),
    }
}

/// The three transcription stream events.
#[derive(Clone, Copy, Debug, PartialEq, Eq)]
pub enum TranscriptionEventKind {
    TextDelta,
    TextSegment,
    TextDone,
}

pub fn transcription_event_kind(name: &str) -> (r: Result<TranscriptionEventKind, OpenAIError>)
    ensures
        name@ == "transcript.text.delta"@ ==> r == Ok::<TranscriptionEventKind, OpenAIError>(
            TranscriptionEventKind::TextDelta,
        ),
        name@ == "transcript.text.segment"@ ==> r == Ok::<TranscriptionEventKind, OpenAIError>(
            TranscriptionEventKind::TextSegment,
        ),
        name@ == "transcript.text.done"@ ==> r == Ok::<TranscriptionEventKind, OpenAIError>(
            TranscriptionEventKind::TextDone,
        ),
        (name@ != "transcript.text.delta"@ && name@ != "transcript.text.segment"@ && name@
            != "transcript.text.done"@) ==> (r matches Err(e) && e.kind == ErrorKind::Parse && e.message@
            == "unsupported transcription stream event `"@ + name@ + "`"@),
{
    proof {
        reveal_strlit("transcript.text.delta");
        reveal_strlit("transcript.text.segment");
        reveal_strlit("transcript.text.done");
        assert("transcript.text.delta"@.len() == 21);
        assert("transcript.text.segment"@.len() == 23);
        assert("transcript.text.done"@.len() == 20);
    }
    if str_eq(name, "transcript.text.delta") {
        Ok(TranscriptionEventKind::TextDelta)
    } else if str_eq(name, "transcript.text.segment") {
        Ok(TranscriptionEventKind::TextSegment)
    } else if str_eq(name, "transcript.text.done") {
        Ok(TranscriptionEventKind::TextDone)
    } else {
        let mut message = "unsupported transcription stream event `".to_string();
        push_str(&mut message, name);
        push_str(&mut message, "`");
        Err(OpenAIError::new(ErrorKind::Parse, message))
    }
}

/// The error for a stream payload that did not decode.
pub fn stream_parse_error(event: &str, detail: &str) -> (e: OpenAIError)
    ensures
        e.kind == ErrorKind::Parse,
        e.message@ == "failed to parse streamed `"@ + event@ + "` payload: "@ + detail@,
{
    let mut message = "failed to parse streamed `".to_string();
    push_str(&mut message, event);
    push_str(&mut message, "` payload: ");
    push_str(&mut message, detail);
    OpenAIError::new(ErrorKind::Parse, message)
}

/// The state of reading a transcription stream: the events in order, the
/// segments, the final text and usage of the done event, and whether `[DONE]`
/// came. `E` is an event, `S` a segment, `U` a usage record.
pub struct TranscriptionAccumulator<E, S, U> {
    pub events: Vec<E>,
    pub final_text: Option<String>,
    pub final_usage: Option<U>,
    pub segments: Vec<S>,
    pub saw_done: bool,
}

impl<E, S, U> TranscriptionAccumulator<E, S, U> {
    pub fn new() -> (a: Self)
        ensures
            a.events@.len() == 0 && a.segments@.len() == 0,
            a.final_text is None && a.final_usage is None && !a.saw_done,
    {
        TranscriptionAccumulator {
            events: Vec::new(),
            final_text: None,
            final_usage: None,
            segments: Vec::new(),
            saw_done: false,
        }
    }

    /// `[DONE]` arrived.
    pub fn mark_done(&mut self)
        ensures
            *final(self) == (TranscriptionAccumulator { saw_done: true, ..*old(self) }),
    {
        self.saw_done = true;
    }

    /// A text delta arrived.
    pub fn push_delta(&mut self, event: E)
        ensures
            *final(self) == (TranscriptionAccumulator { events: final(self).events, ..*old(self) }),
            final(self).events@ == old(self).events@.push(event),
    {
        self.events.push(event);
    }

    /// A diarized segment arrived: it joins the segments and the events.
    pub fn push_segment(&mut self, segment: S, event: E)
        ensures
            final(self).events@ == old(self).events@.push(event),
            final(self).segments@ == old(self).segments@.push(segment),
            final(self).final_text == old(self).final_text,
            final(self).final_usage == old(self).final_usage,
            final(self).saw_done == old(self).saw_done,
    {
        self.segments.push(segment);
        self.events.push(event);
    }

    /// The done event arrived: its text and usage become the final ones.
    pub fn push_done(&mut self, text: String, usage: Option<U>, event: E)
        ensures
            final(self).events@ == old(self).events@.push(event),
            final(self).final_text == Some(text),
            final(self).final_usage == usage,
            final(self).segments == old(self).segments,
            final(self).saw_done == old(self).saw_done,
    {
        self.final_text = Some(text);
        self.final_usage = usage;
        self.events.push(event);
    }

    /// The end of the stream: refused when `[DONE]` came without a done event.
    pub fn finish(self) -> (r: Result<Self, OpenAIError>)
        ensures
            r is Err <==> (self.saw_done && self.final_text is None),
            r matches Ok(a) ==> a == self,
            r matches Err(e) ==> e.kind == ErrorKind::Parse && e.message@
                == "transcription stream ended without a terminal transcript.text.done event"@,
    {
        if self.saw_done && self.final_text.is_none() {
            return Err(
                OpenAIError::new(
                    ErrorKind::Parse,
                    "transcription stream ended without a terminal transcript.text.done event".to_string(),
                ),
            );
        }
        Ok(self)
    }

    /// The final transcript, once the done event came.
    pub fn final_text(&self) -> (r: Result<&str, OpenAIError>)
        ensures
            r is Ok <==> self.final_text is Some,
            r matches Ok(t) ==> t@ == self.final_text->Some_0@,
            r matches Err(e) ==> e.kind == ErrorKind::Parse && e.message@
                == "transcription stream ended without a terminal transcript.text.done event"@,
    {
        match &self.final_text {
            Some(t) => Ok(t.as_str()),
            None => Err(
                OpenAIError::new(
                    ErrorKind::Parse,
                    "transcription stream ended without a terminal transcript.text.done event".to_string(),
                ),
            ),
        }
    }

    /// The final usage, once a done event carried one.
    pub fn final_usage(&self) -> (r: Result<&U, OpenAIError>)
        ensures
            r is Ok <==> self.final_usage is Some,
            r matches Ok(u) ==> *u == self.final_usage->Some_0,
            r matches Err(e) ==> e.kind == ErrorKind::Parse && e.message@
                == "transcription stream ended without terminal usage metadata"@,
    {
        match &self.final_usage {
            Some(u) => Ok(u),
            None => Err(
                OpenAIError::new(
                    ErrorKind::Parse,
                    "transcription stream ended without terminal usage metadata".to_string(),
                ),
            ),
        }
    }

    pub fn segments(&self) -> (r: &[S])
        ensures
            r@ == self.segments@,
    {
        self.segments.as_slice()
    }

    /// Takes the next event, in arrival order.
    pub fn next_event(&mut self) -> (r: Option<E>)
        ensures
            old(self).events@.len() == 0 ==> r is None && final(self).events@.len() == 0,
            old(self).events@.len() > 0 ==> r == Some(old(self).events@[0]) && final(self).events@
                == old(self).events@.drop_first(),
    {
        if self.events.len() == 0 {
            None
        } else {
            Some(self.events.remove(0))
        }
    }
}


/// One thing a transcription stream can deliver to its accumulator.
pub enum TranscriptionStep<E, S, U> {
    Delta(E),
    Segment(S, E),
    Done(String, Option<U>, E),
    EndMarker,
}

/// `after` is `before` with one step taken, as the accumulator's methods do it.
pub open spec fn transcription_step_applied<E, S, U>(
    before: TranscriptionAccumulator<E, S, U>,
    after: TranscriptionAccumulator<E, S, U>,
    step: TranscriptionStep<E, S, U>,
) -> bool {
    match step {
        TranscriptionStep::Delta(e) => after.events@ == before.events@.push(e) && after.segments@
            == before.segments@ && after.final_text == before.final_text && after.final_usage
            == before.final_usage && after.saw_done == before.saw_done,
        TranscriptionStep::Segment(seg, e) => after.events@ == before.events@.push(e) && after.segments@
            == before.segments@.push(seg) && after.final_text == before.final_text && after.final_usage
            == before.final_usage && after.saw_done == before.saw_done,
        TranscriptionStep::Done(text, usage, e) => after.events@ == before.events@.push(e) && after.segments@
            == before.segments@ && after.final_text == Some(text) && after.final_usage == usage
            && after.saw_done == before.saw_done,
        TranscriptionStep::EndMarker => after.events@ == before.events@ && after.segments@ == before.segments@
            && after.final_text == before.final_text && after.final_usage == before.final_usage && after.saw_done,
    }
}

/// The events the steps deliver, in order.
pub open spec fn step_events<E, S, U>(steps: Seq<TranscriptionStep<E, S, U>>) -> Seq<E>
    decreases steps.len(),
{
    if steps.len() == 0 {
        Seq::empty()
    } else {
        let prev = step_events(steps.drop_last());
        match steps.last() {
            TranscriptionStep::Delta(e) => prev.push(e),
            TranscriptionStep::Segment(_, e) => prev.push(e),
            TranscriptionStep::Done(_, _, e) => prev.push(e),
            TranscriptionStep::EndMarker => prev,
        }
    }
}

/// The diarized segments the steps deliver, in order.
pub open spec fn step_segments<E, S, U>(steps: Seq<TranscriptionStep<E, S, U>>) -> Seq<S>
    decreases steps.len(),
{
    if steps.len() == 0 {
        Seq::empty()
    } else {
        let prev = step_segments(steps.drop_last());
        match steps.last() {
            TranscriptionStep::Segment(seg, _) => prev.push(seg),
            _ => prev,
        }
    }
}

/// The text and usage of the last done event among the steps.
pub open spec fn last_done<E, S, U>(steps: Seq<TranscriptionStep<E, S, U>>) -> Option<(String, Option<U>)>
    decreases steps.len(),
{
    if steps.len() == 0 {
        None
    } else {
        match steps.last() {
            TranscriptionStep::Done(text, usage, _) => Some((text, usage)),
            _ => last_done(steps.drop_last()),
        }
    }
}

/// `states` is a run of the accumulator over `steps`.
pub open spec fn is_transcription_run<E, S, U>(
    states: Seq<TranscriptionAccumulator<E, S, U>>,
    steps: Seq<TranscriptionStep<E, S, U>>,
) -> bool {
    &&& states.len() == steps.len() + 1
    &&& forall|k: int| 0 <= k < steps.len() ==> transcription_step_applied(#[trigger] states[k], states[k + 1], steps[k])
}

/// A transcription stream keeps every event in order, the segments in order,
/// and the text and usage of its last done event as the final ones; `[DONE]`
/// is recorded once it came.
pub proof fn law_transcription_stream_run<E, S, U>(
    states: Seq<TranscriptionAccumulator<E, S, U>>,
    steps: Seq<TranscriptionStep<E, S, U>>,
)
    requires
        is_transcription_run(states, steps),
        states[0].events@.len() == 0,
        states[0].segments@.len() == 0,
        states[0].final_text is None,
        states[0].final_usage is None,
        !states[0].saw_done,
    ensures
        states.last().events@ == step_events(steps),
        states.last().segments@ == step_segments(steps),
        states.last().final_text == (match last_done(steps) {
            Some(d) => Some(d.0),
            None => None,
        }),
        states.last().final_usage == (match last_done(steps) {
            Some(d) => d.1,
            None => None,
        }),
        states.last().saw_done == exists|k: int| 0 <= k < steps.len() && (#[trigger] steps[k]) is EndMarker,
    decreases steps.len(),
{
    if steps.len() == 0 {
        assert(states[0].events@ =~= Seq::<E>::empty());
        assert(states[0].segments@ =~= Seq::<S>::empty());
    } else {
        let n = steps.len() - 1;
        let prefix_states = states.drop_last();
        let prefix = steps.drop_last();
        assert forall|k: int| 0 <= k < prefix.len() implies transcription_step_applied(
            #[trigger] prefix_states[k],
            prefix_states[k + 1],
            prefix[k],
        ) by {
            assert(transcription_step_applied(states[k], states[k + 1], steps[k]));
        }
        law_transcription_stream_run(prefix_states, prefix);
        assert(transcription_step_applied(states[n], states[n + 1], steps[n]));
        assert(prefix_states.last() == states[n]);
        assert(states.last() == states[n + 1]);
        assert(steps.last() == steps[n]);
        if states.last().saw_done {
            if !states[n].saw_done {
                assert(steps[n] is EndMarker);
            } else {
                let k = choose|k: int| 0 <= k < prefix.len() && (#[trigger] prefix[k]) is EndMarker;
                assert(steps[k] == prefix[k]);
            }
        } else {
            assert forall|k: int| 0 <= k < steps.len() implies !((#[trigger] steps[k]) is EndMarker) by {
                if k < n {
                    assert(steps[k] == prefix[k]);
                }
            }
        }
    }
}


/// The name a form part is sent under.
pub open spec fn part_name(part: PartView) -> Seq<char> {
    match part {
        PartView::Text { name, .. } => name,
        PartView::File { name, .. } => name,
    }
}

/// No part of the form is sent under `name`.
pub open spec fn no_part_named(parts: Seq<PartView>, name: Seq<char>) -> bool {
    forall|i: int| 0 <= i < parts.len() ==> part_name(#[trigger] parts[i]) != name
}

proof fn lemma_no_part_named_concat(a: Seq<PartView>, b: Seq<PartView>, name: Seq<char>)
    requires
        no_part_named(a, name),
        no_part_named(b, name),
    ensures
        no_part_named(a + b, name),
{
    assert forall|i: int| 0 <= i < (a + b).len() implies part_name(#[trigger] (a + b)[i]) != name by {
        if i < a.len() {
            assert((a + b)[i] == a[i]);
        } else {
            assert((a + b)[i] == b[i - a.len()]);
        }
    }
}

proof fn lemma_opt_field_named(field: Seq<char>, value: Option<Seq<char>>, name: Seq<char>)
    requires
        field != name,
    ensures
        no_part_named(opt_field(field, value), name),
{
}

proof fn lemma_repeated_named(field: Seq<char>, values: Seq<Seq<char>>, name: Seq<char>)
    requires
        field != name,
    ensures
        no_part_named(repeated_fields(field, values), name),
{
    assert forall|i: int| 0 <= i < repeated_fields(field, values).len() implies part_name(
        #[trigger] repeated_fields(field, values)[i],
    ) != name by {
        assert(repeated_fields(field, values)[i] == PartView::Text { name: field, value: values[i] });
    }
}

proof fn lemma_extra_named(extra: Seq<(String, String)>, name: Seq<char>)
    requires
        forall|i: int| 0 <= i < extra.len() ==> (#[trigger] extra[i]).0@ != name,
    ensures
        no_part_named(extra_fields(extra), name),
{
    assert forall|i: int| 0 <= i < extra_fields(extra).len() implies part_name(#[trigger] extra_fields(extra)[i])
        != name by {
        assert(extra_fields(extra)[i] == PartView::Text { name: extra[i].0@, value: extra[i].1@ });
    }
}

/// The parts of a transcription form before the `stream` flag.
pub open spec fn transcription_head(p: TranscriptionParams) -> Seq<PartView> {
    seq![
        PartView::File {
            name: "file"@,
            filename: p.file.filename@,
            content_type: p.file.content_type@,
            bytes: p.file.bytes@,
        },
        PartView::Text { name: "model"@, value: p.model@ },
    ] + opt_field(
        "chunking_strategy"@,
        match p.chunking_strategy {
            Some(s) => Some(chunking_text(s)),
            None => None,
        },
    ) + repeated_fields(inclusion_key(), literal_texts(p.includes@)) + repeated_fields(
        "known_speaker_names"@,
        string_texts(p.known_speaker_names@),
    ) + repeated_fields("known_speaker_references"@, string_texts(p.known_speaker_references@))
        + opt_field("language"@, opt_view(p.language)) + opt_field("prompt"@, opt_view(p.prompt))
        + seq![PartView::Text { name: "response_format"@, value: format_or_json(p.response_format).literal() }]
}

/// The parts of a transcription form after the `stream` flag.
pub open spec fn transcription_tail(p: TranscriptionParams) -> Seq<PartView> {
    opt_field("temperature"@, opt_view(p.temperature)) + repeated_fields(
        "timestamp_granularities"@,
        literal_texts(p.timestamp_granularities@),
    ) + extra_fields(p.extra@)
}

proof fn lemma_head_tail_without_stream(p: TranscriptionParams)
    requires
        forall|i: int| 0 <= i < p.extra@.len() ==> (#[trigger] p.extra@[i]).0@ != "stream"@,
    ensures
        no_part_named(transcription_head(p), "stream"@),
        no_part_named(transcription_tail(p), "stream"@),
{
    reveal_strlit("stream");
    reveal_strlit("file");
    reveal_strlit("model");
    reveal_strlit("chunking_strategy");
    reveal_strlit("known_speaker_names");
    reveal_strlit("known_speaker_references");
    reveal_strlit("language");
    reveal_strlit("prompt");
    reveal_strlit("response_format");
    reveal_strlit("temperature");
    reveal_strlit("timestamp_granularities");
    let n = "stream"@;
    assert("file"@ != n) by { assert("file"@.len() != n.len()); }
    assert("model"@ != n) by { assert("model"@.len() != n.len()); }
    assert("chunking_strategy"@ != n) by { assert("chunking_strategy"@.len() != n.len()); }
    assert(inclusion_key() != n) by { assert(inclusion_key().len() != n.len()); }
    assert("known_speaker_names"@ != n) by { assert("known_speaker_names"@.len() != n.len()); }
    assert("known_speaker_references"@ != n) by { assert("known_speaker_references"@.len() != n.len()); }
    assert("language"@ != n) by { assert("language"@.len() != n.len()); }
    assert("prompt"@ != n) by { assert("prompt"@[0] != n[0]); }
    assert("response_format"@ != n) by { assert("response_format"@.len() != n.len()); }
    assert("temperature"@ != n) by { assert("temperature"@.len() != n.len()); }
    assert("timestamp_granularities"@ != n) by { assert("timestamp_granularities"@.len() != n.len()); }
    let first = seq![
        PartView::File {
            name: "file"@,
            filename: p.file.filename@,
            content_type: p.file.content_type@,
            bytes: p.file.bytes@,
        },
        PartView::Text { name: "model"@, value: p.model@ },
    ];
    assert(no_part_named(first, n));
    let a1 = opt_field(
        "chunking_strategy"@,
        match p.chunking_strategy {
            Some(s) => Some(chunking_text(s)),
            None => None,
        },
    );
    lemma_opt_field_named("chunking_strategy"@, match p.chunking_strategy {
        Some(s) => Some(chunking_text(s)),
        None => None,
    }, n);
    lemma_no_part_named_concat(first, a1, n);
    let a2 = repeated_fields(inclusion_key(), literal_texts(p.includes@));
    lemma_repeated_named(inclusion_key(), literal_texts(p.includes@), n);
    lemma_no_part_named_concat(first + a1, a2, n);
    let a3 = repeated_fields("known_speaker_names"@, string_texts(p.known_speaker_names@));
    lemma_repeated_named("known_speaker_names"@, string_texts(p.known_speaker_names@), n);
    lemma_no_part_named_concat(first + a1 + a2, a3, n);
    let a4 = repeated_fields("known_speaker_references"@, string_texts(p.known_speaker_references@));
    lemma_repeated_named("known_speaker_references"@, string_texts(p.known_speaker_references@), n);
    lemma_no_part_named_concat(first + a1 + a2 + a3, a4, n);
    let a5 = opt_field("language"@, opt_view(p.language));
    lemma_opt_field_named("language"@, opt_view(p.language), n);
    lemma_no_part_named_concat(first + a1 + a2 + a3 + a4, a5, n);
    let a6 = opt_field("prompt"@, opt_view(p.prompt));
    lemma_opt_field_named("prompt"@, opt_view(p.prompt), n);
    lemma_no_part_named_concat(first + a1 + a2 + a3 + a4 + a5, a6, n);
    let a7 = seq![PartView::Text { name: "response_format"@, value: format_or_json(p.response_format).literal() }];
    assert(no_part_named(a7, n));
    lemma_no_part_named_concat(first + a1 + a2 + a3 + a4 + a5 + a6, a7, n);
    let t1 = opt_field("temperature"@, opt_view(p.temperature));
    lemma_opt_field_named("temperature"@, opt_view(p.temperature), n);
    let t2 = repeated_fields("timestamp_granularities"@, literal_texts(p.timestamp_granularities@));
    lemma_repeated_named("timestamp_granularities"@, literal_texts(p.timestamp_granularities@), n);
    lemma_no_part_named_concat(t1, t2, n);
    lemma_extra_named(p.extra@, n);
    lemma_no_part_named_concat(t1 + t2, extra_fields(p.extra@), n);
}

/// Only a streamed transcription asks for an event stream: the form of a
/// non-streamed one has no part named `stream`, and the form of a streamed
/// one has exactly one, `stream=true` (extra fields named `stream` aside).
pub proof fn law_stream_part_only_when_streaming(p: TranscriptionParams)
    requires
        forall|i: int| 0 <= i < p.extra@.len() ==> (#[trigger] p.extra@[i]).0@ != "stream"@,
    ensures
        no_part_named(transcription_form(p, false), "stream"@),
        exists|j: int|
            0 <= j < transcription_form(p, true).len() && #[trigger] transcription_form(p, true)[j]
                == (PartView::Text { name: "stream"@, value: "true"@ }),
        forall|i: int, j: int|
            0 <= i < transcription_form(p, true).len() && 0 <= j < transcription_form(p, true).len()
                && part_name(#[trigger] transcription_form(p, true)[i]) == "stream"@ && part_name(
                #[trigger] transcription_form(p, true)[j],
            ) == "stream"@ ==> i == j,
{
    lemma_head_tail_without_stream(p);
    let h = transcription_head(p);
    let t = transcription_tail(p);
    let sp = seq![PartView::Text { name: "stream"@, value: "true"@ }];
    assert(transcription_form(p, false) =~= h + t);
    lemma_no_part_named_concat(h, t, "stream"@);
    assert(transcription_form(p, true) =~= h + sp + t);
    let f = transcription_form(p, true);
    assert(f[h.len() as int] == sp[0]);
    assert forall|i: int| 0 <= i < f.len() && part_name(#[trigger] f[i]) == "stream"@ implies i == h.len() by {
        if i < h.len() {
            assert(f[i] == h[i]);
        } else if i > h.len() {
            assert(f[i] == t[i - h.len() - 1]);
        }
    }
}

} // verus!
