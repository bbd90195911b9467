//! The speech-to-text providers: what is sent to each, and what its reply
//! means.

use crate::config::{key_of, Config, ConfigView, KeyEnv, KeyError, Provider};
use crate::json::{document, parse_json, Json, JsonTree};
use crate::text::{
    a_part_stands_in_the_whole, blank, has_text, occurs_at, trim, trimmed,
    trimmed_is_empty_iff_blank,
};
use vstd::prelude::*;

verus! {

// ── Requests ──────────────────────────────────────────────────────

/// The time that a provider has to reply.
pub const HTTP_TIMEOUT_SECS: u64 = 30;

/// How the recording is sent.
#[derive(Debug)]
pub enum Upload {
    /// As the body of the request.
    Body,
    /// As the part `file` of a form, followed by these fields.
    Form(Vec<(&'static str, String)>),
}

/// A request for a transcription.
#[derive(Debug)]
pub struct HttpRequest {
    pub url: &'static str,
    /// The header `Authorization`.
    pub authorization: String,
    /// The parameters after the address.
    pub query: Vec<(&'static str, &'static str)>,
    pub upload: Upload,
}

/// A request as a mathematical value.
pub ghost struct RequestView {
    pub url: Seq<char>,
    pub authorization: Seq<char>,
    pub query: Seq<(Seq<char>, Seq<char>)>,
    /// The fields of the form; none where the recording is the body.
    pub form: Option<Seq<(Seq<char>, Seq<char>)>>,
}

impl View for HttpRequest {
    type V = RequestView;

    open spec fn view(&self) -> RequestView {
        RequestView {
            url: self.url@,
            authorization: self.authorization@,
            query: self.query@.map_values(|p: (&'static str, &'static str)| (p.0@, p.1@)),
            form: match self.upload {
                Upload::Body => None,
                Upload::Form(fields) => Some(
                    fields@.map_values(|f: (&'static str, String)| (f.0@, f.1@)),
                ),
            },
        }
    }
}

/// The field for the language of the recording, where it is configured.
pub open spec fn language_field(c: ConfigView) -> Seq<(Seq<char>, Seq<char>)> {
    match c.language {
        Some(l) => seq![("language"@, l)],
        None => Seq::empty(),
    }
}

/// The model that Groq is asked for.
pub open spec fn model_of(c: ConfigView) -> Seq<char> {
    match c.model {
        Some(m) => m,
        None => "whisper-large-v3-turbo"@,
    }
}

/// The request for a transcription by a provider.
pub open spec fn request_of(c: ConfigView, key: Seq<char>, provider: Provider) -> RequestView {
    match provider {
        Provider::Deepgram => RequestView {
            url: "https://api.deepgram.com/v1/listen"@,
            authorization: "Token "@ + key,
            query: seq![
                ("model"@, "nova-3"@),
                ("punctuate"@, "true"@),
                ("smart_format"@, "true"@),
            ],
            form: None,
        },
        Provider::Mistral => RequestView {
            url: "https://api.mistral.ai/v1/audio/transcriptions"@,
            authorization: "Bearer "@ + key,
            query: Seq::empty(),
            form: Some(seq![("model"@, "voxtral-mini-latest"@)] + language_field(c)),
        },
        Provider::Groq => RequestView {
            url: "https://api.groq.com/openai/v1/audio/transcriptions"@,
            authorization: "Bearer "@ + key,
            query: Seq::empty(),
            form: Some(
                seq![("model"@, model_of(c)), ("response_format"@, "text"@)] + language_field(c),
            ),
        },
    }
}

fn with_language(fields: Vec<(&'static str, String)>, config: &Config) -> (r: Vec<
    (&'static str, String),
>)
    ensures
        r@.map_values(|f: (&'static str, String)| (f.0@, f.1@)) == fields@.map_values(
            |f: (&'static str, String)| (f.0@, f.1@),
        ) + language_field(config@),
{
    let mut r = fields;
    if let Some(lang) = config.language() {
        r.push(("language", lang.to_owned()));
    }
    assert(r@.map_values(|f: (&'static str, String)| (f.0@, f.1@)) =~= fields@.map_values(
        |f: (&'static str, String)| (f.0@, f.1@),
    ) + language_field(config@));
    r
}

/// The request for a transcription by a provider, with a key.
pub fn request_for(config: &Config, key: &str, provider: Provider) -> (r: HttpRequest)
    ensures
        r@ == request_of(config@, key@, provider),
{
    let scheme = match provider {
        Provider::Deepgram => "Token ",
        Provider::Mistral | Provider::Groq => "Bearer ",
    };
    let mut authorization = scheme.to_owned();
    authorization.append(key);
    let r = match provider {
        Provider::Deepgram => HttpRequest {
            url: "https://api.deepgram.com/v1/listen",
            authorization,
            query: vec![("model", "nova-3"), ("punctuate", "true"), ("smart_format", "true")],
            upload: Upload::Body,
        },
        Provider::Mistral => {
            let fields = vec![("model", "voxtral-mini-latest".to_owned())];
            assert(fields@.map_values(|f: (&'static str, String)| (f.0@, f.1@)) =~= seq![
                ("model"@, "voxtral-mini-latest"@),
            ]);
            HttpRequest {
                url: "https://api.mistral.ai/v1/audio/transcriptions",
                authorization,
                query: Vec::new(),
                upload: Upload::Form(with_language(fields, config)),
            }
        },
        Provider::Groq => {
            let fields = vec![
                ("model", config.model().to_owned()),
                ("response_format", "text".to_owned()),
            ];
            assert(fields@.map_values(|f: (&'static str, String)| (f.0@, f.1@)) =~= seq![
                ("model"@, model_of(config@)),
                ("response_format"@, "text"@),
            ]);
            HttpRequest {
                url: "https://api.groq.com/openai/v1/audio/transcriptions",
                authorization,
                query: Vec::new(),
                upload: Upload::Form(with_language(fields, config)),
            }
        },
    };
    assert(r@.query =~= request_of(config@, key@, provider).query);
    r
}

// ── Errors ────────────────────────────────────────────────────────

/// Why a provider gave no transcription.
#[derive(Debug)]
pub enum TranscribeError {
    /// It has no API key.
    Key(KeyError),
    /// The HTTP client could not be made.
    Client,
    /// The recording could not be read.
    Audio,
    /// The recording could not be made a part of a form.
    Mime,
    /// The provider could not be reached.
    Unreachable(Provider),
    /// Its reply could not be received.
    Unreadable(Provider),
    /// It refused: the status as a number and in words, and the reply.
    Refused { provider: Provider, code: u16, status: String, body: String },
    /// Its reply is no JSON.
    NotJson(Provider),
    /// Its reply has no transcription.
    NoTranscript(Provider),
    /// Groq replied nothing at all.
    Empty,
}

/// What the user can do about a refusal.
pub open spec fn hint(provider: Provider, code: u16) -> Seq<char> {
    match provider {
        Provider::Deepgram => if code == 401 {
            "\nHint: Your DEEPGRAM_API_KEY is invalid. Check ~/.config/voxtype/config.toml or your shell rc file."@
        } else if code == 403 || code == 429 {
            "\nHint: Deepgram rate limit or quota exceeded. Falling back to next provider."@
        } else if code == 413 {
            "\nHint: Audio file too large for Deepgram's API limit."@
        } else {
            ""@
        },
        Provider::Mistral => if code == 401 {
            "\nHint: Your MISTRAL_API_KEY is invalid. Check ~/.config/voxtype/config.toml or your shell rc file."@
        } else if code == 402 || code == 429 {
            "\nHint: Mistral rate limit exceeded. Falling back to next provider."@
        } else if code == 413 {
            "\nHint: Audio file too large for Mistral's API limit."@
        } else {
            ""@
        },
        Provider::Groq => if code == 401 {
            "\nHint: Your GROQ_API_KEY is invalid. Check ~/.config/voxtype/config.toml or your shell rc file."@
        } else if code == 402 || code == 429 {
            "\nHint: Groq rate limit exceeded. Wait a moment and try again."@
        } else if code == 413 {
            "\nHint: Audio file too large for Groq's API limit."@
        } else {
            ""@
        },
    }
}

/// What the user can do about a refusal.
pub fn hint_for(provider: Provider, code: u16) -> (r: &'static str)
    ensures
        r@ == hint(provider, code),
{
    match provider {
        Provider::Deepgram => match code {
            401 => "\nHint: Your DEEPGRAM_API_KEY is invalid. Check ~/.config/voxtype/config.toml or your shell rc file.",
            403 | 429 => "\nHint: Deepgram rate limit or quota exceeded. Falling back to next provider.",
            413 => "\nHint: Audio file too large for Deepgram's API limit.",
            _ => "",
        },
        Provider::Mistral => match code {
            401 => "\nHint: Your MISTRAL_API_KEY is invalid. Check ~/.config/voxtype/config.toml or your shell rc file.",
            402 | 429 => "\nHint: Mistral rate limit exceeded. Falling back to next provider.",
            413 => "\nHint: Audio file too large for Mistral's API limit.",
            _ => "",
        },
        Provider::Groq => match code {
            401 => "\nHint: Your GROQ_API_KEY is invalid. Check ~/.config/voxtype/config.toml or your shell rc file.",
            402 | 429 => "\nHint: Groq rate limit exceeded. Wait a moment and try again.",
            413 => "\nHint: Audio file too large for Groq's API limit.",
            _ => "",
        },
    }
}

impl TranscribeError {
    /// The words for the error; `config_path` is the place of the
    /// configuration file, if it is known.
    pub open spec fn words(self, config_path: Option<Seq<char>>) -> Seq<char> {
        match self {
            TranscribeError::Key(e) => e.words(config_path),
            TranscribeError::Client => "Failed to create HTTP client"@,
            TranscribeError::Audio => "Failed to read audio file for upload"@,
            TranscribeError::Mime => "Invalid MIME type"@,
            TranscribeError::Unreachable(p) => "Failed to reach "@ + p.title()
                + " API (check network/internet)"@,
            TranscribeError::Unreadable(p) => if p == Provider::Groq {
                "Failed to read API response"@
            } else {
                "Failed to read "@ + p.title() + " API response"@
            },
            TranscribeError::Refused { provider, code, status, body } => provider.title()
                + " API error (HTTP "@ + status@ + "): "@ + body@ + hint(provider, code),
            TranscribeError::NotJson(p) => "Failed to parse "@ + p.title() + " JSON response"@,
            TranscribeError::NoTranscript(p) => if p == Provider::Deepgram {
                p.title() + " response missing transcript field"@
            } else {
                p.title() + " response missing 'text' field"@
            },
            TranscribeError::Empty => "Empty response from Groq API (unexpected)"@,
        }
    }

    /// The message for the user.
    pub fn message(&self, config_path: Option<&str>) -> (r: String)
        ensures
            r@ == self.words(
                match config_path {
                    Some(p) => Some(p@),
                    None => None,
                },
            ),
    {
        match self {
            TranscribeError::Key(e) => e.message(config_path),
            TranscribeError::Client => "Failed to create HTTP client".to_owned(),
            TranscribeError::Audio => "Failed to read audio file for upload".to_owned(),
            TranscribeError::Mime => "Invalid MIME type".to_owned(),
            TranscribeError::Unreachable(p) => {
                let mut m = "Failed to reach ".to_owned();
                m.append(p.label());
                m.append(" API (check network/internet)");
                m
            },
            TranscribeError::Unreadable(p) => match p {
                Provider::Groq => "Failed to read API response".to_owned(),
                _ => {
                    let mut m = "Failed to read ".to_owned();
                    m.append(p.label());
                    m.append(" API response");
                    m
                },
            },
            TranscribeError::Refused { provider, code, status, body } => {
                let mut m = provider.label().to_owned();
                m.append(" API error (HTTP ");
                m.append(status.as_str());
                m.append("): ");
                m.append(body.as_str());
                m.append(hint_for(*provider, *code));
                m
            },
            TranscribeError::NotJson(p) => {
                let mut m = "Failed to parse ".to_owned();
                m.append(p.label());
                m.append(" JSON response");
                m
            },
            TranscribeError::NoTranscript(p) => {
                let mut m = p.label().to_owned();
                match p {
                    Provider::Deepgram => m.append(" response missing transcript field"),
                    _ => m.append(" response missing 'text' field"),
                }
                m
            },
            TranscribeError::Empty => "Empty response from Groq API (unexpected)".to_owned(),
        }
    }
}

// ── Replies ───────────────────────────────────────────────────────

/// What came of sending a request.
#[derive(Debug)]
pub enum HttpReply {
    ClientFailed,
    AudioUnreadable,
    MimeInvalid,
    Unreachable,
    Unreadable,
    /// The provider replied: the status as a number and in words, and the
    /// body of the reply.
    Response { code: u16, status: String, body: String },
}

/// The status is one of success.
pub open spec fn success_code(code: u16) -> bool {
    200 <= code < 300
}

/// The transcription in a reply of Deepgram: that of the first alternative of
/// the first channel.
pub open spec fn deepgram_transcript(t: JsonTree) -> Option<Seq<char>> {
    match t.field("results"@) {
        Some(results) => match results.field("channels"@) {
            Some(channels) => match channels.item(0) {
                Some(channel) => match channel.field("alternatives"@) {
                    Some(alternatives) => match alternatives.item(0) {
                        Some(first) => match first.field("transcript"@) {
                            Some(transcript) => transcript.text(),
                            None => None,
                        },
                        None => None,
                    },
                    None => None,
                },
                None => None,
            },
            None => None,
        },
        None => None,
    }
}

/// The transcription in a reply of Mistral or Groq.
pub open spec fn text_transcript(t: JsonTree) -> Option<Seq<char>> {
    match t.field("text"@) {
        Some(v) => v.text(),
        None => None,
    }
}

/// The transcription in a reply of Deepgram.
pub fn read_deepgram(json: &Json) -> (r: Option<&str>)
    ensures
        match r {
            Some(s) => deepgram_transcript(json.tree()) == Some(s@),
            None => deepgram_transcript(json.tree()) is None,
        },
{
    let results = match json.get("results") {
        Some(v) => v,
        None => return None,
    };
    let channels = match results.get("channels") {
        Some(v) => v,
        None => return None,
    };
    let channel = match channels.item(0) {
        Some(v) => v,
        None => return None,
    };
    let alternatives = match channel.get("alternatives") {
        Some(v) => v,
        None => return None,
    };
    let first = match alternatives.item(0) {
        Some(v) => v,
        None => return None,
    };
    match first.get("transcript") {
        Some(v) => v.as_str(),
        None => None,
    }
}

/// The transcription in a reply of Mistral or Groq.
pub fn read_text_field(json: &Json) -> (r: Option<&str>)
    ensures
        match r {
            Some(s) => text_transcript(json.tree()) == Some(s@),
            None => text_transcript(json.tree()) is None,
        },
{
    match json.get("text") {
        Some(v) => v.as_str(),
        None => None,
    }
}

/// What the body of a successful reply says: `json` is the document that it
/// holds, if it holds one. Groq may reply in JSON or in plain text.
pub open spec fn body_says(provider: Provider, json: Option<JsonTree>, body: Seq<char>) -> Result<
    Seq<char>,
    TranscribeError,
> {
    match provider {
        Provider::Deepgram => match json {
            None => Err(TranscribeError::NotJson(provider)),
            Some(t) => match deepgram_transcript(t) {
                Some(s) => Ok(s),
                None => Err(TranscribeError::NoTranscript(provider)),
            },
        },
        Provider::Mistral => match json {
            None => Err(TranscribeError::NotJson(provider)),
            Some(t) => match text_transcript(t) {
                Some(s) => Ok(s),
                None => Err(TranscribeError::NoTranscript(provider)),
            },
        },
        Provider::Groq => {
            let text = match json {
                Some(t) => text_transcript(t),
                None => None,
            };
            match text {
                Some(s) => Ok(s),
                None => if trimmed(body).len() > 0 {
                    Ok(trimmed(body))
                } else {
                    Err(TranscribeError::Empty)
                },
            }
        },
    }
}

/// What came of a request to a provider.
pub open spec fn reply_says(provider: Provider, reply: HttpReply) -> Result<
    Seq<char>,
    TranscribeError,
> {
    match reply {
        HttpReply::ClientFailed => Err(TranscribeError::Client),
        HttpReply::AudioUnreadable => Err(TranscribeError::Audio),
        HttpReply::MimeInvalid => Err(TranscribeError::Mime),
        HttpReply::Unreachable => Err(TranscribeError::Unreachable(provider)),
        HttpReply::Unreadable => Err(TranscribeError::Unreadable(provider)),
        HttpReply::Response { code, status, body } => if success_code(code) {
            body_says(provider, document(body@), body@)
        } else {
            Err(TranscribeError::Refused { provider, code, status, body })
        },
    }
}

/// A result is what a specification says it is.
pub open spec fn result_is(
    r: Result<String, TranscribeError>,
    said: Result<Seq<char>, TranscribeError>,
) -> bool {
    match r {
        Ok(s) => said == Ok::<Seq<char>, TranscribeError>(s@),
        Err(e) => said == Err::<Seq<char>, TranscribeError>(e),
    }
}

/// What the body of a successful reply says; `json` is the document that it
/// holds, if it holds one.
pub fn read_body(provider: Provider, json: Option<&Json>, body: &str) -> (r: Result<
    String,
    TranscribeError,
>)
    ensures
        result_is(
            r,
            body_says(
                provider,
                match json {
                    Some(j) => Some(j.tree()),
                    None => None,
                },
                body@,
            ),
        ),
{
    match provider {
        Provider::Deepgram => match json {
            None => Err(TranscribeError::NotJson(provider)),
            Some(j) => match read_deepgram(j) {
                Some(s) => Ok(s.to_owned()),
                None => Err(TranscribeError::NoTranscript(provider)),
            },
        },
        Provider::Mistral => match json {
            None => Err(TranscribeError::NotJson(provider)),
            Some(j) => match read_text_field(j) {
                Some(s) => Ok(s.to_owned()),
                None => Err(TranscribeError::NoTranscript(provider)),
            },
        },
        Provider::Groq => {
            if let Some(j) = json {
                if let Some(s) = read_text_field(j) {
                    return Ok(s.to_owned());
                }
            }
            let plain = trim(body);
            if plain.is_empty() {
                Err(TranscribeError::Empty)
            } else {
                Ok(plain.to_owned())
            }
        },
    }
}

/// What came of a request to a provider.
pub fn read_reply(provider: Provider, reply: HttpReply) -> (r: Result<String, TranscribeError>)
    ensures
        result_is(r, reply_says(provider, reply)),
{
    match reply {
        HttpReply::ClientFailed => Err(TranscribeError::Client),
        HttpReply::AudioUnreadable => Err(TranscribeError::Audio),
        HttpReply::MimeInvalid => Err(TranscribeError::Mime),
        HttpReply::Unreachable => Err(TranscribeError::Unreachable(provider)),
        HttpReply::Unreadable => Err(TranscribeError::Unreadable(provider)),
        HttpReply::Response { code, status, body } => {
            if 200 <= code && code < 300 {
                let json = parse_json(body.as_str());
                match &json {
                    Some(j) => read_body(provider, Some(j), body.as_str()),
                    None => read_body(provider, None, body.as_str()),
                }
            } else {
                Err(TranscribeError::Refused { provider, code, status, body })
            }
        },
    }
}

// ── Calling a provider ────────────────────────────────────────────

/// Whether a provider has an API key.
pub fn provider_key(config: &Config, env: &KeyEnv, provider: Provider) -> (r: Result<(), KeyError>)
    ensures
        match r {
            Ok(_) => key_of(*config, *env, provider) is Some,
            Err(e) => key_of(*config, *env, provider) is None && e.provider == provider,
        },
{
    match config.api_key(env, provider) {
        Ok(_) => Ok(()),
        Err(e) => Err(e),
    }
}

/// The request to a provider. The key is resolved here, so that a missing key
/// is reported as what came of the call.
pub fn provider_call(config: &Config, env: &KeyEnv, provider: Provider) -> (r: Result<
    HttpRequest,
    TranscribeError,
>)
    ensures
        match key_of(*config, *env, provider) {
            Some(key) => r matches Ok(q) && q@ == request_of(config@, key, provider),
            None => r == Err::<HttpRequest, TranscribeError>(
                TranscribeError::Key(KeyError { provider }),
            ),
        },
{
    match config.api_key(env, provider) {
        Ok(key) => Ok(request_for(config, key.as_str(), provider)),
        Err(e) => Err(TranscribeError::Key(e)),
    }
}

// ── Laws ──────────────────────────────────────────────────────────

/// A refusal is never taken for a transcription, and a reply that is no
/// refusal never for one.
pub proof fn only_a_success_is_read(provider: Provider, code: u16, status: String, body: String)
    ensures
        ({
            let said = reply_says(provider, HttpReply::Response { code, status, body });
            &&& !success_code(code) ==> said == Err::<Seq<char>, TranscribeError>(
                TranscribeError::Refused { provider, code, status, body },
            )
            &&& success_code(code) ==> !(said matches Err(e) && e is Refused)
        }),
{
}

/// The key of a provider goes to that provider: it stands in the header of the
/// request and nowhere else.
pub proof fn a_key_stands_in_the_header_alone(
    c: ConfigView,
    a: Seq<char>,
    b: Seq<char>,
    provider: Provider,
)
    ensures
        ({
            let x = request_of(c, a, provider);
            let y = request_of(c, b, provider);
            x.url == y.url && x.query == y.query && x.form == y.form
        }),
{
}

/// A form has a field with this name and value.
pub open spec fn form_says(r: RequestView, name: Seq<char>, value: Seq<char>) -> bool {
    r.form matches Some(fields) && fields.contains((name, value))
}

/// A form has a field with this name.
pub open spec fn form_names(r: RequestView, name: Seq<char>) -> bool {
    r.form matches Some(fields) && exists|i: int|
        0 <= i < fields.len() && (#[trigger] fields[i]).0 == name
}

proof fn lemma_field_names()
    ensures
        "language"@ != "model"@,
        "language"@ != "response_format"@,
        "model"@ != "response_format"@,
{
    reveal_strlit("language");
    reveal_strlit("model");
    reveal_strlit("response_format");
    assert("language"@.len() == 8 && "model"@.len() == 5 && "response_format"@.len() == 15);
}

/// A language that is configured is sent to each provider that takes a form, as
/// it is configured; where none is, no field has that name, and the provider
/// finds out by itself.
pub proof fn the_configured_language_is_sent(
    c: ConfigView,
    key: Seq<char>,
    provider: Provider,
)
    requires
        provider == Provider::Mistral || provider == Provider::Groq,
    ensures
        c.language matches Some(l) ==> form_says(
            request_of(c, key, provider),
            "language"@,
            l,
        ),
        forall|l: Seq<char>| #[trigger]
            form_says(request_of(c, key, provider), "language"@, l) ==> c.language == Some(l),
        form_names(request_of(c, key, provider), "language"@) <==> c.language is Some,
{
    lemma_field_names();
    let r = request_of(c, key, provider);
    let fields = r.form->0;
    let n = fields.len();
    if let Some(l) = c.language {
        assert(fields[n - 1] == ("language"@, l));
    }
    assert forall|l: Seq<char>| #[trigger] form_says(r, "language"@, l) implies c.language == Some(
        l,
    ) by {
        let i = choose|i: int| 0 <= i < fields.len() && fields[i] == ("language"@, l);
        assert(fields[i].0 == "language"@);
    }
}

/// Groq is asked for the model that is configured, and for its own default where
/// none is, and to reply in plain text; Mistral and Deepgram are asked for their
/// own models, whatever is configured for Groq.
pub proof fn each_provider_is_asked_for_its_model(c: ConfigView, key: Seq<char>, m: Seq<char>)
    ensures
        c.model == Some(m) ==> form_says(request_of(c, key, Provider::Groq), "model"@, m),
        c.model is None ==> form_says(
            request_of(c, key, Provider::Groq),
            "model"@,
            "whisper-large-v3-turbo"@,
        ),
        form_says(request_of(c, key, Provider::Groq), "response_format"@, "text"@),
        form_says(request_of(c, key, Provider::Mistral), "model"@, "voxtral-mini-latest"@),
        request_of(c, key, Provider::Deepgram).query.contains(("model"@, "nova-3"@)),
        request_of(c, key, Provider::Deepgram).query.contains(("punctuate"@, "true"@)),
        request_of(c, key, Provider::Deepgram).query.contains(("smart_format"@, "true"@)),
        forall|x: Seq<char>| #[trigger]
            form_says(request_of(c, key, Provider::Groq), "model"@, x) ==> x == match c.model {
                Some(m) => m,
                None => "whisper-large-v3-turbo"@,
            },
{
    lemma_field_names();
    let g = request_of(c, key, Provider::Groq).form->0;
    assert(g[0].0 == "model"@ && g[1] == ("response_format"@, "text"@));
    let t = request_of(c, key, Provider::Mistral).form->0;
    assert(t[0] == ("model"@, "voxtral-mini-latest"@));
    let d = request_of(c, key, Provider::Deepgram).query;
    assert(d[0] == ("model"@, "nova-3"@) && d[1] == ("punctuate"@, "true"@) && d[2] == (
        "smart_format"@,
        "true"@,
    ));
    assert forall|x: Seq<char>| #[trigger]
        form_says(request_of(c, key, Provider::Groq), "model"@, x) implies x == match c.model {
        Some(m) => m,
        None => "whisper-large-v3-turbo"@,
    } by {
        let i = choose|i: int| 0 <= i < g.len() && g[i] == ("model"@, x);
        assert(g[i].0 == "model"@);
    }
}

/// A request carries its key: the header is the scheme of the provider and the
/// whole key, so that two keys make two headers.
pub proof fn the_header_carries_the_key(
    c: ConfigView,
    a: Seq<char>,
    b: Seq<char>,
    provider: Provider,
)
    ensures
        request_of(c, a, provider).authorization == (if provider == Provider::Deepgram {
            "Token "@
        } else {
            "Bearer "@
        }) + a,
        request_of(c, a, provider).authorization == request_of(c, b, provider).authorization ==> a
            == b,
{
    let x = request_of(c, a, provider).authorization;
    let y = request_of(c, b, provider).authorization;
    let scheme = if provider == Provider::Deepgram {
        "Token "@
    } else {
        "Bearer "@
    };
    if x == y {
        assert(x.skip(scheme.len() as int) =~= a);
        assert(y.skip(scheme.len() as int) =~= b);
    }
}

/// Each provider is asked at its own address, over an encrypted connection.
/// Deepgram gets the recording as the body, the others as a part of a form.
pub proof fn each_provider_has_its_own_address(c: ConfigView, key: Seq<char>, provider: Provider)
    ensures
        request_of(c, key, provider).url == match provider {
            Provider::Deepgram => "https://api.deepgram.com/v1/listen"@,
            Provider::Mistral => "https://api.mistral.ai/v1/audio/transcriptions"@,
            Provider::Groq => "https://api.groq.com/openai/v1/audio/transcriptions"@,
        },
        request_of(c, key, provider).form is None <==> provider == Provider::Deepgram,
        provider != Provider::Deepgram ==> request_of(c, key, provider).query.len() == 0,
{
}

/// The transcription of Deepgram is that of the first alternative of the first
/// channel, whatever else the reply holds.
pub proof fn deepgram_is_read_at_its_first_alternative(
    t: JsonTree,
    results: JsonTree,
    channels: Seq<JsonTree>,
    alternatives: Seq<JsonTree>,
    transcript: JsonTree,
    body: Seq<char>,
)
    requires
        t.field("results"@) == Some(results),
        results.field("channels"@) == Some(JsonTree::Array(channels)),
        channels.len() > 0,
        channels[0].field("alternatives"@) == Some(JsonTree::Array(alternatives)),
        alternatives.len() > 0,
        alternatives[0].field("transcript"@) == Some(transcript),
    ensures
        transcript matches JsonTree::Text(s) ==> body_says(Provider::Deepgram, Some(t), body) == Ok::<
            Seq<char>,
            TranscribeError,
        >(s),
        transcript !is Text ==> body_says(Provider::Deepgram, Some(t), body) == Err::<
            Seq<char>,
            TranscribeError,
        >(TranscribeError::NoTranscript(Provider::Deepgram)),
{
}

/// The transcription of Mistral and Groq is the text of the field `text`. Where
/// a reply has none, Mistral has given nothing, while Groq may have replied in
/// plain text: that is taken without the white space around it, unless it is
/// blank. A reply that is no document is an error of every other provider.
pub proof fn a_text_field_is_the_transcription(t: JsonTree, s: Seq<char>, body: Seq<char>)
    ensures
        t.field("text"@) == Some(JsonTree::Text(s)) ==> body_says(Provider::Mistral, Some(t), body)
            == Ok::<Seq<char>, TranscribeError>(s) && body_says(Provider::Groq, Some(t), body)
            == Ok::<Seq<char>, TranscribeError>(s),
        !(t.field("text"@) matches Some(JsonTree::Text(_))) ==> body_says(
            Provider::Mistral,
            Some(t),
            body,
        ) == Err::<Seq<char>, TranscribeError>(TranscribeError::NoTranscript(Provider::Mistral))
            && body_says(Provider::Groq, Some(t), body) == body_says(Provider::Groq, None, body),
        blank(body) ==> body_says(Provider::Groq, None, body) == Err::<Seq<char>, TranscribeError>(
            TranscribeError::Empty,
        ),
        !blank(body) ==> body_says(Provider::Groq, None, body) == Ok::<Seq<char>, TranscribeError>(
            trimmed(body),
        ),
        body_says(Provider::Deepgram, None, body) == Err::<Seq<char>, TranscribeError>(
            TranscribeError::NotJson(Provider::Deepgram),
        ),
        body_says(Provider::Mistral, None, body) == Err::<Seq<char>, TranscribeError>(
            TranscribeError::NotJson(Provider::Mistral),
        ),
{
    trimmed_is_empty_iff_blank(body);
}

/// A reply is read exactly where its status is from 200 to 299; any other is a
/// refusal, with the status and the words of the provider. What went wrong
/// before there was a reply is reported as what it was.
pub proof fn a_reply_is_read_by_its_status(
    provider: Provider,
    code: u16,
    status: String,
    body: String,
)
    ensures
        ({
            let said = reply_says(provider, HttpReply::Response { code, status, body });
            &&& 200 <= code <= 299 ==> said == body_says(provider, document(body@), body@)
            &&& code < 200 || code > 299 ==> said == Err::<Seq<char>, TranscribeError>(
                TranscribeError::Refused { provider, code, status, body },
            )
        }),
        reply_says(provider, HttpReply::Unreachable) == Err::<Seq<char>, TranscribeError>(
            TranscribeError::Unreachable(provider),
        ),
        reply_says(provider, HttpReply::Unreadable) == Err::<Seq<char>, TranscribeError>(
            TranscribeError::Unreadable(provider),
        ),
        reply_says(provider, HttpReply::ClientFailed) == Err::<Seq<char>, TranscribeError>(
            TranscribeError::Client,
        ),
        reply_says(provider, HttpReply::AudioUnreadable) == Err::<Seq<char>, TranscribeError>(
            TranscribeError::Audio,
        ),
        reply_says(provider, HttpReply::MimeInvalid) == Err::<Seq<char>, TranscribeError>(
            TranscribeError::Mime,
        ),
{
}

/// The message of a refusal names the provider and holds the status and the
/// reply, and ends with the hint for the status.
pub proof fn a_refusal_is_told_as_it_was(
    provider: Provider,
    code: u16,
    status: String,
    body: String,
    config_path: Option<Seq<char>>,
)
    ensures
        ({
            let words = (TranscribeError::Refused { provider, code, status, body }).words(
                config_path,
            );
            &&& has_text(words, provider.title())
            &&& has_text(words, status@)
            &&& has_text(words, body@)
            &&& has_text(words, hint(provider, code))
        }),
{
    let none = Seq::<char>::empty();
    let words = (TranscribeError::Refused { provider, code, status, body }).words(config_path);
    let h = hint(provider, code);
    let http = " API error (HTTP "@;
    let colon = "): "@;
    a_part_stands_in_the_whole(none, provider.title(), http + status@ + colon + body@ + h);
    assert(none + provider.title() + (http + status@ + colon + body@ + h) =~= words);
    a_part_stands_in_the_whole(provider.title() + http, status@, colon + body@ + h);
    assert(provider.title() + http + status@ + (colon + body@ + h) =~= words);
    a_part_stands_in_the_whole(provider.title() + http + status@ + colon, body@, h);
    a_part_stands_in_the_whole(provider.title() + http + status@ + colon + body@, h, none);
    assert(provider.title() + http + status@ + colon + body@ + h + none =~= words);
}

/// There is a hint exactly for a bad key, for recordings that are too large, and
/// for limits: 429 everywhere, 403 at Deepgram, and 402 at the others. The two
/// codes of a limit have the same hint, and other codes have other hints.
pub proof fn hints_are_for_keys_limits_and_sizes(provider: Provider, code: u16)
    ensures
        hint(provider, code).len() > 0 <==> code == 401 || code == 413 || code == 429 || code == (
        if provider == Provider::Deepgram {
            403u16
        } else {
            402u16
        }),
        provider == Provider::Deepgram ==> hint(provider, 403) == hint(provider, 429),
        provider != Provider::Deepgram ==> hint(provider, 402) == hint(provider, 429),
        hint(provider, 401) != hint(provider, 413),
        hint(provider, 401) != hint(provider, 429),
        hint(provider, 413) != hint(provider, 429),
        has_text(hint(provider, 401), provider.variable()),
        has_text(hint(provider, 413), "Audio file too large"@),
        has_text(hint(provider, 413), provider.title()),
        has_text(hint(provider, 429), provider.title()),
        has_text(hint(provider, 429), "rate limit"@),
{
    reveal_strlit("");
    reveal_strlit("Audio file too large");
    reveal_strlit("rate limit");
    match provider {
        Provider::Deepgram => {
            reveal_strlit("\nHint: Your DEEPGRAM_API_KEY is invalid. Check ~/.config/voxtype/config.toml or your shell rc file.");
            reveal_strlit("\nHint: Deepgram rate limit or quota exceeded. Falling back to next provider.");
            reveal_strlit("\nHint: Audio file too large for Deepgram's API limit.");
            reveal_strlit("DEEPGRAM_API_KEY");
            reveal_strlit("Deepgram");
            assert(hint(provider, 401).subrange(12, 28) =~= "DEEPGRAM_API_KEY"@);
            assert(occurs_at(hint(provider, 401), "DEEPGRAM_API_KEY"@, 12));
            assert(hint(provider, 413).subrange(7, 27) =~= "Audio file too large"@);
            assert(occurs_at(hint(provider, 413), "Audio file too large"@, 7));
            assert(hint(provider, 413).subrange(32, 40) =~= "Deepgram"@);
            assert(occurs_at(hint(provider, 413), "Deepgram"@, 32));
            assert(hint(provider, 429).subrange(7, 15) =~= "Deepgram"@);
            assert(occurs_at(hint(provider, 429), "Deepgram"@, 7));
            assert(hint(provider, 429).subrange(16, 26) =~= "rate limit"@);
            assert(occurs_at(hint(provider, 429), "rate limit"@, 16));
        },
        Provider::Mistral => {
            reveal_strlit("\nHint: Your MISTRAL_API_KEY is invalid. Check ~/.config/voxtype/config.toml or your shell rc file.");
            reveal_strlit("\nHint: Mistral rate limit exceeded. Falling back to next provider.");
            reveal_strlit("\nHint: Audio file too large for Mistral's API limit.");
            reveal_strlit("MISTRAL_API_KEY");
            reveal_strlit("Mistral");
            assert(hint(provider, 401).subrange(12, 27) =~= "MISTRAL_API_KEY"@);
            assert(occurs_at(hint(provider, 401), "MISTRAL_API_KEY"@, 12));
            assert(hint(provider, 413).subrange(7, 27) =~= "Audio file too large"@);
            assert(occurs_at(hint(provider, 413), "Audio file too large"@, 7));
            assert(hint(provider, 413).subrange(32, 39) =~= "Mistral"@);
            assert(occurs_at(hint(provider, 413), "Mistral"@, 32));
            assert(hint(provider, 429).subrange(7, 14) =~= "Mistral"@);
            assert(occurs_at(hint(provider, 429), "Mistral"@, 7));
            assert(hint(provider, 429).subrange(15, 25) =~= "rate limit"@);
            assert(occurs_at(hint(provider, 429), "rate limit"@, 15));
        },
        Provider::Groq => {
            reveal_strlit("\nHint: Your GROQ_API_KEY is invalid. Check ~/.config/voxtype/config.toml or your shell rc file.");
            reveal_strlit("\nHint: Groq rate limit exceeded. Wait a moment and try again.");
            reveal_strlit("\nHint: Audio file too large for Groq's API limit.");
            reveal_strlit("GROQ_API_KEY");
            reveal_strlit("Groq");
            assert(hint(provider, 401).subrange(12, 24) =~= "GROQ_API_KEY"@);
            assert(occurs_at(hint(provider, 401), "GROQ_API_KEY"@, 12));
            assert(hint(provider, 413).subrange(7, 27) =~= "Audio file too large"@);
            assert(occurs_at(hint(provider, 413), "Audio file too large"@, 7));
            assert(hint(provider, 413).subrange(32, 36) =~= "Groq"@);
            assert(occurs_at(hint(provider, 413), "Groq"@, 32));
            assert(hint(provider, 429).subrange(7, 11) =~= "Groq"@);
            assert(occurs_at(hint(provider, 429), "Groq"@, 7));
            assert(hint(provider, 429).subrange(12, 22) =~= "rate limit"@);
            assert(occurs_at(hint(provider, 429), "rate limit"@, 12));
        },
    }
}

/// A transcription that failed for another reason says at which step, and at
/// which provider.
pub proof fn each_failed_step_has_its_words(p: Provider, path: Option<Seq<char>>)
    ensures
        TranscribeError::Client.words(path) == "Failed to create HTTP client"@,
        TranscribeError::Audio.words(path) == "Failed to read audio file for upload"@,
        TranscribeError::Mime.words(path) == "Invalid MIME type"@,
        TranscribeError::Empty.words(path) == "Empty response from Groq API (unexpected)"@,
        TranscribeError::Unreachable(p).words(path) == "Failed to reach "@ + p.title()
            + " API (check network/internet)"@,
        TranscribeError::NotJson(p).words(path) == "Failed to parse "@ + p.title()
            + " JSON response"@,
        TranscribeError::Unreadable(Provider::Groq).words(path) == "Failed to read API response"@,
        p != Provider::Groq ==> TranscribeError::Unreadable(p).words(path) == "Failed to read "@
            + p.title() + " API response"@,
        TranscribeError::NoTranscript(Provider::Deepgram).words(path) == Provider::Deepgram.title()
            + " response missing transcript field"@,
        p != Provider::Deepgram ==> TranscribeError::NoTranscript(p).words(path) == p.title()
            + " response missing 'text' field"@,
        HTTP_TIMEOUT_SECS == 30,
{
}

/// The value of a request shows it as it is: its address, its header, its
/// parameters, and the fields of its form where it has one.
pub proof fn a_request_is_shown_as_it_is(r: HttpRequest, i: int)
    ensures
        r@.url == r.url@,
        r@.authorization == r.authorization@,
        r@.query.len() == r.query@.len(),
        0 <= i < r.query@.len() ==> r@.query[i] == (r.query@[i].0@, r.query@[i].1@),
        r.upload is Body <==> r@.form is None,
        r.upload matches Upload::Form(fields) ==> (r@.form matches Some(f) && f.len()
            == fields@.len() && (0 <= i < fields@.len() ==> f[i] == (
            fields@[i].0@,
            fields@[i].1@,
        ))),
{
}

}
