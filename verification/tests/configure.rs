use voxtype::config::{Config, KeyEnv, Provider};
use voxtype::configure::{
    choose_provider, closing_lines, menu_lines, prompt, run_configure, Choice, ConfigureError,
};

fn config() -> Config {
    Config {
        groq_api_key: Some("g".to_string()),
        deepgram_api_key: None,
        mistral_api_key: None,
        model: Some("m".to_string()),
        language: None,
        backend: Some("x11".to_string()),
        audio_source: None,
        default_provider: Some("groq".to_string()),
    }
}

fn env() -> KeyEnv {
    KeyEnv {
        groq: None,
        deepgram: None,
        mistral: None,
        rc_lines: vec!["export MISTRAL_API_KEY=abc".to_string()],
    }
}

#[test]
fn the_menu_shows_keys() {
    let lines = menu_lines(&config(), &env());
    assert_eq!(lines[1], "Current default: groq");
    assert_eq!(lines[3], "  [1] auto — fallback chain (key: ✓)");
    assert_eq!(lines[4], "  [2] deepgram (key: ✗)");
    assert_eq!(lines[5], "  [3] mistral (key: ✓)");
    assert_eq!(lines[6], "  [4] groq (key: ✓)");
    assert_eq!(lines.len(), 8);
    assert_eq!(
        prompt(&config()),
        "Select provider [1-4] (default: groq): "
    );
}

#[test]
fn a_blank_answer_keeps_the_default() {
    let (choice, saved) = run_configure(" \n", config(), &env()).unwrap();
    assert!(matches!(choice, Choice::Keep));
    assert_eq!(saved.save(), config().save());
    assert_eq!(
        closing_lines(choice, "groq"),
        vec!["No changes made (press Enter to keep current: groq)."]
    );
}

#[test]
fn a_provider_is_chosen_by_its_number() {
    let (choice, saved) = run_configure("3\n", config(), &env()).unwrap();
    assert!(matches!(choice, Choice::Only(Provider::Mistral)));
    assert_eq!(saved.default_provider(), "mistral");
    assert_eq!(saved.model(), "m");
    assert_eq!(saved.backend.as_deref(), Some("x11"));
    assert_eq!(saved.groq_api_key.as_deref(), Some("g"));
    assert_eq!(
        closing_lines(choice, "groq"),
        vec![
            "\nDefault provider set to: mistral",
            "Config saved to ~/.config/voxtype/config.toml"
        ]
    );
}

#[test]
fn the_chain_clears_the_default() {
    let (choice, saved) = run_configure("1", config(), &env()).unwrap();
    assert_eq!(saved.default_provider, None);
    assert_eq!(saved.default_provider(), "auto");
    assert_eq!(
        closing_lines(choice, "groq")[0],
        "\nDefault provider set to: auto"
    );
}

#[test]
fn answers_that_are_not_accepted() {
    let error = |answer: &str| choose_provider(answer, &config(), &env()).unwrap_err();
    assert_eq!(error("groq"), ConfigureError::NotANumber);
    assert_eq!(error("-1"), ConfigureError::NotANumber);
    assert_eq!(error("0"), ConfigureError::OutOfRange);
    assert_eq!(error("5"), ConfigureError::OutOfRange);
    assert_eq!(error("2"), ConfigureError::NoKey(Provider::Deepgram));
    assert_eq!(error("x").message(), "Please enter a number 1-4");
    assert_eq!(
        error("9").message(),
        "Please select a number between 1 and 4"
    );
    assert_eq!(
        error("2").message(),
        "You selected 'deepgram' but no API key is configured.\nAdd it to ~/.config/voxtype/config.toml or export DEEPGRAM_API_KEY in your shell."
    );
    assert!(run_configure("2", config(), &env()).is_err());
}
