use voxtype::config::{Config, KeyEnv, KeyError, Provider};
use voxtype::fallback::{provider_named, FallbackError, Transcription};
use voxtype::json::parse_json;
use voxtype::providers::{
    hint_for, provider_call, provider_key, read_body, read_reply, HttpReply, TranscribeError,
    Upload,
};
use voxtype::stats::Stats;

fn config(default_provider: Option<&str>) -> Config {
    Config {
        groq_api_key: None,
        deepgram_api_key: None,
        mistral_api_key: None,
        model: None,
        language: None,
        backend: None,
        audio_source: None,
        default_provider: default_provider.map(String::from),
    }
}

fn keys(deepgram: bool, mistral: bool, groq: bool) -> KeyEnv {
    KeyEnv {
        groq: groq.then_some("gk".to_string()),
        deepgram: deepgram.then_some("dk".to_string()),
        mistral: mistral.then_some("mk".to_string()),
        rc_lines: Vec::new(),
    }
}

fn response(code: u16, status: &str, body: &str) -> HttpReply {
    HttpReply::Response {
        code,
        status: status.to_string(),
        body: body.to_string(),
    }
}

/// Runs a transcription with providers that answer by their name.
fn transcribe(
    config: &Config,
    env: &KeyEnv,
    stats: &mut Stats,
    answer: &dyn Fn(Provider) -> Result<String, TranscribeError>,
) -> (Vec<&'static str>, Result<String, FallbackError>) {
    let mut t = Transcription::transcribe_with_fallback(config, env, stats);
    let mut called = Vec::new();
    while let Some(p) = t.action() {
        called.push(p.name());
        t = t.next(10, answer(p), stats);
    }
    (called, t.result().unwrap())
}

#[test]
fn the_first_text_is_taken() {
    let mut stats = Stats::new();
    let (called, r) = transcribe(
        &config(None),
        &keys(true, true, true),
        &mut stats,
        &|p| match p {
            Provider::Deepgram => Err(TranscribeError::Unreachable(p)),
            Provider::Mistral => Ok(" \n".to_string()),
            Provider::Groq => Ok("  hallo wält \n".to_string()),
        },
    );
    assert_eq!(called, vec!["deepgram", "mistral", "groq"]);
    assert_eq!(r.unwrap(), "hallo wält");
    let d = stats.get("deepgram").unwrap();
    assert_eq!((d.calls, d.successes, d.failures), (1, 0, 1));
    let m = stats.get("mistral").unwrap();
    assert_eq!((m.calls, m.successes, m.total_chars), (1, 1, 2));
    let g = stats.get("groq").unwrap();
    // Characters are counted, not bytes.
    assert_eq!((g.calls, g.total_chars, g.total_latency_ms), (1, 14, 10));

    // The records rank the next attempt.
    let (called, r) = transcribe(
        &config(Some("auto")),
        &keys(true, true, true),
        &mut stats,
        &|_| Ok("x".to_string()),
    );
    assert_eq!(called, vec!["mistral"]);
    assert_eq!(r.unwrap(), "x");
}

#[test]
fn only_providers_with_keys_are_tried() {
    let mut stats = Stats::new();
    let (called, r) = transcribe(
        &config(None),
        &keys(false, true, true),
        &mut stats,
        &|_| Ok(String::new()),
    );
    assert_eq!(called, vec!["mistral", "groq"]);
    assert_eq!(
        r.unwrap_err().message(None),
        "All configured providers failed or returned empty results"
    );
    let (called, r) = transcribe(
        &config(None),
        &keys(false, false, false),
        &mut stats,
        &|_| Ok("x".to_string()),
    );
    assert!(called.is_empty());
    assert_eq!(
        r.unwrap_err().message(None),
        "No STT API keys configured. Set at least one of:\n  DEEPGRAM_API_KEY=...\n  GROQ_API_KEY=...\n  MISTRAL_API_KEY=..."
    );
}

#[test]
fn a_forced_provider_is_tried_alone() {
    let mut stats = Stats::new();
    let (called, r) = transcribe(
        &config(Some("mistral")),
        &keys(true, true, true),
        &mut stats,
        &|p| Err(TranscribeError::Unreachable(p)),
    );
    assert_eq!(called, vec!["mistral"]);
    assert_eq!(
        r.unwrap_err().message(None),
        "Failed to reach Mistral API (check network/internet)"
    );
    let (called, r) = transcribe(
        &config(Some("groq")),
        &keys(true, true, true),
        &mut stats,
        &|_| Ok("  ".to_string()),
    );
    assert_eq!(called, vec!["groq"]);
    assert_eq!(r.unwrap(), "");
    let (called, r) = transcribe(
        &config(Some("whisper")),
        &keys(true, true, true),
        &mut stats,
        &|_| Ok("x".to_string()),
    );
    assert!(called.is_empty());
    assert_eq!(
        r.unwrap_err().message(None),
        "Unknown default_provider 'whisper'. Use deepgram, mistral, groq, or auto."
    );
}

#[test]
fn providers_by_name() {
    assert_eq!(provider_named("deepgram"), Some(Provider::Deepgram));
    assert_eq!(provider_named("mistral"), Some(Provider::Mistral));
    assert_eq!(provider_named("groq"), Some(Provider::Groq));
    assert_eq!(provider_named("Groq"), None);
    assert_eq!(provider_named("auto"), None);
}

#[test]
fn requests_of_the_providers() {
    let mut cfg = config(None);
    cfg.language = Some("de".to_string());
    let env = keys(true, true, true);
    let d = provider_call(&cfg, &env, Provider::Deepgram).unwrap();
    assert_eq!(d.url, "https://api.deepgram.com/v1/listen");
    assert_eq!(d.authorization, "Token dk");
    assert_eq!(
        d.query,
        vec![("model", "nova-3"), ("punctuate", "true"), ("smart_format", "true")]
    );
    assert!(matches!(d.upload, Upload::Body));

    let m = provider_call(&cfg, &env, Provider::Mistral).unwrap();
    assert_eq!(m.url, "https://api.mistral.ai/v1/audio/transcriptions");
    assert_eq!(m.authorization, "Bearer mk");
    match m.upload {
        Upload::Form(fields) => assert_eq!(
            fields,
            vec![
                ("model", "voxtral-mini-latest".to_string()),
                ("language", "de".to_string())
            ]
        ),
        other => panic!("unexpected {:?}", other),
    }

    cfg.language = None;
    cfg.model = Some("whisper-tiny".to_string());
    let g = provider_call(&cfg, &env, Provider::Groq).unwrap();
    assert_eq!(g.url, "https://api.groq.com/openai/v1/audio/transcriptions");
    assert_eq!(g.authorization, "Bearer gk");
    match g.upload {
        Upload::Form(fields) => assert_eq!(
            fields,
            vec![
                ("model", "whisper-tiny".to_string()),
                ("response_format", "text".to_string())
            ]
        ),
        other => panic!("unexpected {:?}", other),
    }

    let e = provider_call(&cfg, &keys(false, false, false), Provider::Groq).unwrap_err();
    assert!(matches!(
        e,
        TranscribeError::Key(KeyError {
            provider: Provider::Groq
        })
    ));
    assert!(provider_key(&cfg, &env, Provider::Mistral).is_ok());
    assert!(provider_key(&cfg, &keys(true, false, true), Provider::Mistral).is_err());
}

#[test]
fn replies_of_deepgram() {
    let body = r#"{"results":{"channels":[{"alternatives":[{"transcript":"hi ä"}]}]}}"#;
    assert_eq!(
        read_reply(Provider::Deepgram, response(200, "200 OK", body)).unwrap(),
        "hi ä"
    );
    let e = read_reply(Provider::Deepgram, response(200, "200 OK", "<html>")).unwrap_err();
    assert_eq!(e.message(None), "Failed to parse Deepgram JSON response");
    let e = read_reply(
        Provider::Deepgram,
        response(200, "200 OK", r#"{"results":{"channels":[]}}"#),
    )
    .unwrap_err();
    assert_eq!(
        e.message(None),
        "Deepgram response missing transcript field"
    );
    let e = read_reply(
        Provider::Deepgram,
        response(401, "401 Unauthorized", "denied"),
    )
    .unwrap_err();
    assert_eq!(
        e.message(None),
        "Deepgram API error (HTTP 401 Unauthorized): denied\nHint: Your DEEPGRAM_API_KEY is invalid. Check ~/.config/voxtype/config.toml or your shell rc file."
    );
}

#[test]
fn replies_of_mistral() {
    assert_eq!(
        read_reply(
            Provider::Mistral,
            response(299, "299", r#"{"text":"salut","n":1.5}"#)
        )
        .unwrap(),
        "salut"
    );
    let e = read_reply(
        Provider::Mistral,
        response(200, "200 OK", r#"{"text":null}"#),
    )
    .unwrap_err();
    assert_eq!(e.message(None), "Mistral response missing 'text' field");
    let e = read_reply(
        Provider::Mistral,
        response(300, "300 Multiple Choices", ""),
    )
    .unwrap_err();
    assert_eq!(
        e.message(None),
        "Mistral API error (HTTP 300 Multiple Choices): "
    );
}

#[test]
fn replies_of_groq() {
    assert_eq!(
        read_reply(
            Provider::Groq,
            response(200, "200 OK", r#"{"text":" in json "}"#)
        )
        .unwrap(),
        " in json "
    );
    assert_eq!(
        read_reply(Provider::Groq, response(200, "200 OK", " plain text\n")).unwrap(),
        "plain text"
    );
    // JSON without the field is taken as it stands.
    assert_eq!(
        read_reply(Provider::Groq, response(200, "200 OK", " 42 ")).unwrap(),
        "42"
    );
    let e = read_reply(Provider::Groq, response(200, "200 OK", " \n ")).unwrap_err();
    assert_eq!(
        e.message(None),
        "Empty response from Groq API (unexpected)"
    );
    let e = read_reply(Provider::Groq, response(199, "199", "x")).unwrap_err();
    assert_eq!(e.message(None), "Groq API error (HTTP 199): x");
}

#[test]
fn bodies_by_their_documents() {
    let json = parse_json(r#"{"text":"t"}"#).unwrap();
    assert_eq!(
        read_body(Provider::Mistral, Some(&json), "ignored").unwrap(),
        "t"
    );
    assert!(matches!(
        read_body(Provider::Deepgram, Some(&json), ""),
        Err(TranscribeError::NoTranscript(Provider::Deepgram))
    ));
    assert!(matches!(
        read_body(Provider::Mistral, None, "x"),
        Err(TranscribeError::NotJson(Provider::Mistral))
    ));
    assert_eq!(read_body(Provider::Groq, None, " x ").unwrap(), "x");
}

#[test]
fn failures_before_a_reply() {
    let message = |p, r| read_reply(p, r).unwrap_err().message(None);
    assert_eq!(
        message(Provider::Groq, HttpReply::ClientFailed),
        "Failed to create HTTP client"
    );
    assert_eq!(
        message(Provider::Groq, HttpReply::AudioUnreadable),
        "Failed to read audio file for upload"
    );
    assert_eq!(
        message(Provider::Groq, HttpReply::MimeInvalid),
        "Invalid MIME type"
    );
    assert_eq!(
        message(Provider::Deepgram, HttpReply::Unreachable),
        "Failed to reach Deepgram API (check network/internet)"
    );
    assert_eq!(
        message(Provider::Deepgram, HttpReply::Unreadable),
        "Failed to read Deepgram API response"
    );
    assert_eq!(
        message(Provider::Groq, HttpReply::Unreadable),
        "Failed to read API response"
    );
    assert_eq!(
        TranscribeError::Key(KeyError {
            provider: Provider::Mistral
        })
        .message(Some("/c.toml")),
        "No Mistral API key found. Set MISTRAL_API_KEY in your shell, or add mistral_api_key to /c.toml"
    );
}

#[test]
fn hints_by_status() {
    assert_eq!(
        hint_for(Provider::Deepgram, 403),
        "\nHint: Deepgram rate limit or quota exceeded. Falling back to next provider."
    );
    assert_eq!(hint_for(Provider::Deepgram, 402), "");
    assert_eq!(
        hint_for(Provider::Mistral, 402),
        "\nHint: Mistral rate limit exceeded. Falling back to next provider."
    );
    assert_eq!(
        hint_for(Provider::Groq, 429),
        "\nHint: Groq rate limit exceeded. Wait a moment and try again."
    );
    assert_eq!(
        hint_for(Provider::Groq, 413),
        "\nHint: Audio file too large for Groq's API limit."
    );
    assert_eq!(hint_for(Provider::Groq, 500), "");
}
