use voxtype::config::{config_toml, parse_env_assignment, Config, ConfigError, KeyEnv, KeyError, Provider};

fn nothing_set() -> Config {
    Config {
        groq_api_key: None,
        deepgram_api_key: None,
        mistral_api_key: None,
        model: None,
        language: None,
        backend: None,
        audio_source: None,
        default_provider: None,
    }
}

fn no_keys() -> KeyEnv {
    KeyEnv {
        groq: None,
        deepgram: None,
        mistral: None,
        rc_lines: Vec::new(),
    }
}

#[test]
fn parses_env_assignment() {
    assert_eq!(
        parse_env_assignment("GROQ_API_KEY=gsk_abc", "GROQ_API_KEY"),
        Some("gsk_abc".to_string())
    );
    assert_eq!(
        parse_env_assignment("export GROQ_API_KEY=\"gsk_abc\"", "GROQ_API_KEY"),
        Some("gsk_abc".to_string())
    );
    assert_eq!(
        parse_env_assignment("export DEEPGRAM_API_KEY='dg_abc'", "DEEPGRAM_API_KEY"),
        Some("dg_abc".to_string())
    );
    assert_eq!(
        parse_env_assignment("export MISTRAL_API_KEY=abc123 # comment", "MISTRAL_API_KEY"),
        Some("abc123".to_string())
    );
    assert_eq!(
        parse_env_assignment("export OTHER=1 GROQ_API_KEY=gsk_abc", "GROQ_API_KEY"),
        Some("gsk_abc".to_string())
    );
    assert_eq!(
        parse_env_assignment("export PATH=/usr/bin", "GROQ_API_KEY"),
        None
    );
    assert_eq!(parse_env_assignment("GROQ_API_KEY=", "GROQ_API_KEY"), None);
    assert_eq!(parse_env_assignment("", "GROQ_API_KEY"), None);
}

#[test]
fn parses_toml_config() {
    let cfg = Config::load(Some(
        r#"
            groq_api_key = "gsk_abc"
            deepgram_api_key = "dg_abc"
            mistral_api_key = "m_abc"
            backend = "wayland"
            language = "en"
            model = "whisper-tiny"
            audio_source = "alsa_input.usb-mic"
            default_provider = "deepgram"
            "#,
    ))
    .unwrap();
    assert_eq!(cfg.groq_api_key.as_deref(), Some("gsk_abc"));
    assert_eq!(cfg.deepgram_api_key.as_deref(), Some("dg_abc"));
    assert_eq!(cfg.mistral_api_key.as_deref(), Some("m_abc"));
    assert_eq!(cfg.model(), "whisper-tiny");
    assert_eq!(cfg.language(), Some("en"));
    assert_eq!(cfg.backend.as_deref(), Some("wayland"));
    assert_eq!(cfg.audio_source.as_deref(), Some("alsa_input.usb-mic"));
    assert_eq!(cfg.default_provider(), "deepgram");
}

#[test]
fn defaults_when_absent() {
    let cfg = Config {
        groq_api_key: None,
        deepgram_api_key: None,
        mistral_api_key: None,
        model: None,
        language: None,
        backend: None,
        audio_source: None,
        default_provider: None,
    };
    assert_eq!(cfg.model(), "whisper-large-v3-turbo");
    assert_eq!(cfg.language(), None);
    assert_eq!(cfg.default_provider(), "auto");
}

#[test]
fn api_key_resolution_order() {
    // Config file value wins over the environment variable.
    let mut cfg = nothing_set();
    cfg.groq_api_key = Some("gsk_from_file".to_string());
    let mut env = no_keys();
    env.groq = Some("gsk_from_env".to_string());
    assert_eq!(cfg.groq_api_key(&env).unwrap(), "gsk_from_file");

    // Environment is the fallback when the config omits the key.
    let cfg = nothing_set();
    assert_eq!(cfg.groq_api_key(&env).unwrap(), "gsk_from_env");

    // With no config key and no env var, resolution fails unless the
    // user's shell rc files have a key.
    let mut env = no_keys();
    assert!(cfg.groq_api_key(&env).is_err());
    env.rc_lines = vec![
        "# keys".to_string(),
        "export GROQ_API_KEY=\"gsk_from_rc\"".to_string(),
        "export GROQ_API_KEY=\"gsk_second\"".to_string(),
    ];
    assert_eq!(cfg.groq_api_key(&env).unwrap(), "gsk_from_rc");
}

#[test]
fn empty_keys_count_as_none() {
    let mut cfg = nothing_set();
    cfg.deepgram_api_key = Some(String::new());
    let mut env = no_keys();
    env.deepgram = Some(String::new());
    assert_eq!(
        cfg.deepgram_api_key(&env),
        Err(KeyError {
            provider: Provider::Deepgram
        })
    );
    env.deepgram = Some("dg".to_string());
    assert_eq!(cfg.deepgram_api_key(&env), Ok("dg".to_string()));
    assert_eq!(
        cfg.mistral_api_key(&env),
        Err(KeyError {
            provider: Provider::Mistral
        })
    );
}

#[test]
fn missing_key_messages() {
    let e = KeyError {
        provider: Provider::Groq,
    };
    assert_eq!(
        e.message(Some("/home/u/.config/voxtype/config.toml")),
        "No Groq API key found. Set GROQ_API_KEY in your shell, or add groq_api_key to /home/u/.config/voxtype/config.toml"
    );
    assert_eq!(e.message(None), "Cannot determine config directory");
}

#[test]
fn quotes_are_stripped_from_assignments() {
    assert_eq!(
        parse_env_assignment("KEY=\"'abc'\"", "KEY"),
        Some("abc".to_string())
    );
    assert_eq!(parse_env_assignment("KEY=''", "KEY"), None);
    assert_eq!(parse_env_assignment("KEY= \t ", "KEY"), None);
    // The first occurrence of the name counts.
    assert_eq!(
        parse_env_assignment("KEY=one KEY=two", "KEY"),
        Some("one".to_string())
    );
    assert_eq!(
        parse_env_assignment("KEY=  schlüssel  rest", "KEY"),
        Some("schlüssel".to_string())
    );
}

#[test]
fn no_file_sets_nothing() {
    let cfg = Config::load(None).unwrap();
    assert_eq!(config_toml(&cfg), "");
    assert_eq!(cfg.groq_api_key, None);
    assert_eq!(cfg.backend, None);
}

#[test]
fn unusable_files_are_rejected() {
    assert_eq!(
        Config::load(Some("model = ")).map(|_| ()),
        Err(ConfigError::NotParsed)
    );
    assert_eq!(
        Config::load(Some("model = 3")).map(|_| ()),
        Err(ConfigError::NotParsed)
    );
    assert_eq!(
        Config::load(Some("model = \"a\"\nmodel = \"b\"")).map(|_| ()),
        Err(ConfigError::NotParsed)
    );
    assert_eq!(
        ConfigError::NotParsed.message(),
        "Failed to parse config TOML"
    );
}

#[test]
fn unknown_keys_are_ignored() {
    let cfg = Config::load(Some("volume = 11\nlanguage = 'de'\n[extra]\nx = true\n")).unwrap();
    assert_eq!(cfg.language(), Some("de"));
    assert_eq!(cfg.model(), "whisper-large-v3-turbo");
    // A key that stands for a date elsewhere is a key like any other here.
    let first = "'$__toml_private_datetime' = 'no date'\nlanguage = 'de'\n";
    let cfg = Config::load(Some(first)).unwrap();
    assert_eq!(cfg.language(), Some("de"));
    let date = "'$__toml_private_datetime' = '1979-05-27'\n";
    let cfg = Config::load(Some(date)).unwrap();
    assert_eq!(cfg.language(), None);
    let inner = "language = 'de'\n[extra]\n'$__toml_private_datetime' = 'no date'\ny = 1\n";
    let cfg = Config::load(Some(inner)).unwrap();
    assert_eq!(cfg.language(), Some("de"));
    // Values of every kind can stand under keys that do not matter.
    let kinds = "a = 1979-05-27T07:32:00Z\nb = nan\nc = -9223372036854775808\nd = [1, 'x', {}]\nmodel = 'm'\n[[e]]\nf = true\n";
    let cfg = Config::load(Some(kinds)).unwrap();
    assert_eq!(cfg.model(), "m");
    assert!(Config::load(Some("language = 1979-05-27\n")).is_err());
    assert!(Config::load(Some("language = { '$__toml_private_datetime' = 'x' }\n")).is_err());
}

#[test]
fn saved_documents() {
    let mut cfg = nothing_set();
    cfg.groq_api_key = Some("gsk_abc".to_string());
    cfg.default_provider = Some("groq".to_string());
    assert_eq!(
        cfg.save(),
        "groq_api_key = \"gsk_abc\"\ndefault_provider = \"groq\"\n"
    );
}

#[test]
fn saving_and_loading_loses_nothing() {
    let odd = "a\"b\\c\nd\te\r\u{0}\u{1b}\u{7f}ß✓𝄞 '{}'";
    let cfg = Config {
        groq_api_key: Some(odd.to_string()),
        deepgram_api_key: Some(String::new()),
        mistral_api_key: None,
        model: Some("\u{8}\u{c}\u{80}\u{2028}".to_string()),
        language: Some("en".to_string()),
        backend: Some("#x = \"y\"".to_string()),
        audio_source: None,
        default_provider: Some("auto".to_string()),
    };
    let back = Config::load(Some(&cfg.save())).unwrap();
    assert_eq!(back.groq_api_key, cfg.groq_api_key);
    assert_eq!(back.deepgram_api_key, cfg.deepgram_api_key);
    assert_eq!(back.mistral_api_key, cfg.mistral_api_key);
    assert_eq!(back.model, cfg.model);
    assert_eq!(back.language, cfg.language);
    assert_eq!(back.backend, cfg.backend);
    assert_eq!(back.audio_source, cfg.audio_source);
    assert_eq!(back.default_provider, cfg.default_provider);
}

#[test]
fn every_character_survives_a_save() {
    for code in 0..0x3000u32 {
        if let Some(c) = char::from_u32(code) {
            let mut cfg = nothing_set();
            cfg.model = Some(c.to_string());
            let back = Config::load(Some(&cfg.save())).unwrap();
            assert_eq!(back.model, cfg.model);
        }
    }
}
