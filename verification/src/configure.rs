//! Choosing the default speech provider.

use crate::config::{default_provider_of, key_of, Config, ConfigView, KeyEnv, Provider};
use crate::fallback::named;
use crate::providers::provider_key;
use crate::text::{
    a_part_stands_in_the_whole, a_written_number_is_read_back, blank, decimal, decimal_string,
    has_text, parse_usize, parsed_number, texts, trim, trimmed,
    trimmed_is_empty_iff_blank,
};
use vstd::prelude::*;

verus! {

// ── The menu ──────────────────────────────────────────────────────

/// The entries of the menu below the first, which is the fallback chain.
pub open spec fn menu_providers() -> Seq<Provider> {
    seq![Provider::Deepgram, Provider::Mistral, Provider::Groq]
}

/// The sign for a provider that has a key, and for one that has none.
pub open spec fn key_sign(has_key: bool) -> Seq<char> {
    if has_key {
        "✓"@
    } else {
        "✗"@
    }
}

/// The line of a provider.
pub open spec fn provider_line(number: nat, provider: Provider, has_key: bool) -> Seq<char> {
    "  ["@ + decimal(number) + "] "@ + provider.id() + " (key: "@ + key_sign(has_key) + ")"@
}

/// The menu: the current default, and which providers have a key.
pub open spec fn menu_of(c: Config, env: KeyEnv) -> Seq<Seq<char>> {
    seq![
        "voxtype — configure default speech provider\\n"@,
        "Current default: "@ + default_provider_of(c@),
        ""@,
        "  [1] auto — fallback chain (key: ✓)"@,
        provider_line(2, menu_providers()[0], key_of(c, env, menu_providers()[0]) is Some),
        provider_line(3, menu_providers()[1], key_of(c, env, menu_providers()[1]) is Some),
        provider_line(4, menu_providers()[2], key_of(c, env, menu_providers()[2]) is Some),
        ""@,
    ]
}

fn menu_line(number: u64, provider: Provider, config: &Config, env: &KeyEnv) -> (r: String)
    ensures
        r@ == provider_line(number as nat, provider, key_of(*config, *env, provider) is Some),
{
    let mut line = "  [".to_owned();
    line.append(decimal_string(number).as_str());
    line.append("] ");
    line.append(provider.name());
    line.append(" (key: ");
    if provider_key(config, env, provider).is_ok() {
        line.append("✓");
    } else {
        line.append("✗");
    }
    line.append(")");
    line
}

/// The menu: the current default, and which providers have a key.
pub fn menu_lines(config: &Config, env: &KeyEnv) -> (r: Vec<String>)
    ensures
        texts(r@) == menu_of(*config, *env),
{
    let mut current = "Current default: ".to_owned();
    current.append(config.default_provider());
    let r = vec![
        "voxtype — configure default speech provider\\n".to_owned(),
        current,
        "".to_owned(),
        "  [1] auto — fallback chain (key: ✓)".to_owned(),
        menu_line(2, Provider::Deepgram, config, env),
        menu_line(3, Provider::Mistral, config, env),
        menu_line(4, Provider::Groq, config, env),
        "".to_owned(),
    ];
    assert(texts(r@) =~= menu_of(*config, *env));
    r
}

/// The question to the user.
pub fn prompt(config: &Config) -> (r: String)
    ensures
        r@ == "Select provider [1-4] (default: "@ + default_provider_of(config@) + "): "@,
{
    let mut line = "Select provider [1-4] (default: ".to_owned();
    line.append(config.default_provider());
    line.append("): ");
    line
}

// ── The answer ────────────────────────────────────────────────────

/// Why an answer is not accepted.
#[derive(Debug, Clone, Copy, PartialEq, Eq, Structural)]
pub enum ConfigureError {
    NotANumber,
    OutOfRange,
    NoKey(Provider),
}

impl ConfigureError {
    /// The words for the error.
    pub open spec fn words(self) -> Seq<char> {
        match self {
            ConfigureError::NotANumber => "Please enter a number 1-4"@,
            ConfigureError::OutOfRange => "Please select a number between 1 and 4"@,
            ConfigureError::NoKey(p) => "You selected '"@ + p.id()
                + "' but no API key is configured.\nAdd it to ~/.config/voxtype/config.toml or export "@
                + p.variable() + " in your shell."@,
        }
    }

    /// The message for the user.
    pub fn message(&self) -> (r: String)
        ensures
            r@ == self.words(),
    {
        match self {
            ConfigureError::NotANumber => "Please enter a number 1-4".to_owned(),
            ConfigureError::OutOfRange => "Please select a number between 1 and 4".to_owned(),
            ConfigureError::NoKey(p) => {
                let mut m = "You selected '".to_owned();
                m.append(p.name());
                m.append("' but no API key is configured.\nAdd it to ~/.config/voxtype/config.toml or export ");
                m.append(p.env_var());
                m.append(" in your shell.");
                m
            },
        }
    }
}

/// What an answer chooses.
#[derive(Debug, Clone, Copy)]
pub enum Choice {
    /// Nothing: the default stays.
    Keep,
    /// The fallback chain.
    Auto,
    Only(Provider),
}

/// What an answer chooses: nothing if it is blank, otherwise an entry of the
/// menu by its number. A provider can be chosen only if it has a key.
pub open spec fn choice_of(answer: Seq<char>, c: Config, env: KeyEnv) -> Result<
    Choice,
    ConfigureError,
> {
    if trimmed(answer).len() == 0 {
        Ok(Choice::Keep)
    } else {
        match parsed_number(trimmed(answer), usize::MAX as nat) {
            None => Err(ConfigureError::NotANumber),
            Some(n) => if n < 1 || n > 4 {
                Err(ConfigureError::OutOfRange)
            } else if n == 1 {
                Ok(Choice::Auto)
            } else {
                let p = menu_providers()[n - 2];
                if key_of(c, env, p) is Some {
                    Ok(Choice::Only(p))
                } else {
                    Err(ConfigureError::NoKey(p))
                }
            },
        }
    }
}

/// The configuration after a choice.
pub open spec fn chosen(c: ConfigView, choice: Choice) -> ConfigView {
    match choice {
        Choice::Keep => c,
        Choice::Auto => ConfigView { default_provider: None, ..c },
        Choice::Only(p) => ConfigView { default_provider: Some(p.id()), ..c },
    }
}

/// What an answer chooses.
pub fn choose_provider(answer: &str, config: &Config, env: &KeyEnv) -> (r: Result<
    Choice,
    ConfigureError,
>)
    ensures
        r == choice_of(answer@, *config, *env),
{
    let input = trim(answer);
    if input.is_empty() {
        return Ok(Choice::Keep);
    }
    let n: usize = match parse_usize(input) {
        None => return Err(ConfigureError::NotANumber),
        Some(n) => n,
    };
    let provider = match n {
        1 => return Ok(Choice::Auto),
        2 => Provider::Deepgram,
        3 => Provider::Mistral,
        4 => Provider::Groq,
        _ => return Err(ConfigureError::OutOfRange),
    };
    match provider_key(config, env, provider) {
        Ok(_) => Ok(Choice::Only(provider)),
        Err(_) => Err(ConfigureError::NoKey(provider)),
    }
}

/// What becomes of the configuration: with an answer that is accepted, the
/// choice and the configuration to be saved, which is the old one where
/// nothing was chosen.
pub fn run_configure(answer: &str, config: Config, env: &KeyEnv) -> (r: Result<
    (Choice, Config),
    ConfigureError,
>)
    ensures
        match r {
            Ok(p) => choice_of(answer@, config, *env) == Ok::<Choice, ConfigureError>(p.0)
                && p.1@ == chosen(config@, p.0),
            Err(e) => choice_of(answer@, config, *env) == Err::<Choice, ConfigureError>(e),
        },
{
    let choice = match choose_provider(answer, &config, env) {
        Ok(choice) => choice,
        Err(e) => return Err(e),
    };
    let mut cfg = config;
    match choice {
        Choice::Keep => {},
        Choice::Auto => {
            cfg.default_provider = None;
        },
        Choice::Only(p) => {
            cfg.default_provider = Some(p.name().to_owned());
        },
    }
    Ok((choice, cfg))
}

/// What the user is told after a choice; `current` is the default before it.
pub open spec fn closing_of(choice: Choice, current: Seq<char>) -> Seq<Seq<char>> {
    match choice {
        Choice::Keep => seq![
            "No changes made (press Enter to keep current: "@ + current + ")."@,
        ],
        Choice::Auto => seq![
            "\nDefault provider set to: auto"@,
            "Config saved to ~/.config/voxtype/config.toml"@,
        ],
        Choice::Only(p) => seq![
            "\nDefault provider set to: "@ + p.id(),
            "Config saved to ~/.config/voxtype/config.toml"@,
        ],
    }
}

/// What the user is told after a choice; `current` is the default before it.
pub fn closing_lines(choice: Choice, current: &str) -> (r: Vec<String>)
    ensures
        texts(r@) == closing_of(choice, current@),
{
    let r = match choice {
        Choice::Keep => {
            let mut line = "No changes made (press Enter to keep current: ".to_owned();
            line.append(current);
            line.append(").");
            vec![line]
        },
        Choice::Auto => vec![
            "\nDefault provider set to: auto".to_owned(),
            "Config saved to ~/.config/voxtype/config.toml".to_owned(),
        ],
        Choice::Only(p) => {
            let mut line = "\nDefault provider set to: ".to_owned();
            line.append(p.name());
            vec![line, "Config saved to ~/.config/voxtype/config.toml".to_owned()]
        },
    };
    assert(texts(r@) =~= closing_of(choice, current@));
    r
}

// ── Laws ──────────────────────────────────────────────────────────

/// A choice changes the default provider and nothing else.
pub proof fn a_choice_changes_the_default_alone(c: ConfigView, choice: Choice)
    ensures
        (ConfigView { default_provider: c.default_provider, ..chosen(c, choice) }) == c,
{
}

/// The default after a choice is what was chosen: the provider by its name, or
/// the fallback chain.
pub proof fn the_default_is_what_was_chosen(c: ConfigView, choice: Choice)
    ensures
        choice matches Choice::Only(p) ==> default_provider_of(chosen(c, choice)) == p.id() && named(
            default_provider_of(chosen(c, choice)),
        ) == Some(p),
        choice is Auto ==> default_provider_of(chosen(c, choice)) == "auto"@,
        choice is Keep ==> default_provider_of(chosen(c, choice)) == default_provider_of(c),
{
    reveal_strlit("deepgram");
    reveal_strlit("mistral");
    reveal_strlit("groq");
    assert("deepgram"@.len() == 8 && "mistral"@.len() == 7 && "groq"@.len() == 4);
}

/// A provider without a key cannot become the default.
pub proof fn only_a_provider_with_a_key_is_chosen(answer: Seq<char>, c: Config, env: KeyEnv)
    ensures
        choice_of(answer, c, env) matches Ok(Choice::Only(p)) ==> key_of(c, env, p) is Some,
{
}

/// Every entry that the menu shows can be chosen by the number that it shows,
/// with white space around it or without: entry 1 is the fallback chain, and
/// each of the others a provider, which is chosen where it has a key and
/// complained about by its name where it has none.
pub proof fn every_entry_of_the_menu_can_be_chosen(
    n: nat,
    before: Seq<char>,
    after: Seq<char>,
    c: Config,
    env: KeyEnv,
)
    requires
        1 <= n <= 4,
        blank(before),
        blank(after),
    ensures
        ({
            let choice = choice_of(before + decimal(n) + after, c, env);
            let line = menu_of(c, env)[n as int + 2];
            let p = if n == 2 {
                Provider::Deepgram
            } else if n == 3 {
                Provider::Mistral
            } else {
                Provider::Groq
            };
            if n == 1 {
                choice == Ok::<Choice, ConfigureError>(Choice::Auto) && line
                    == "  [1] auto — fallback chain (key: ✓)"@
            } else if key_of(c, env, p) is Some {
                choice == Ok::<Choice, ConfigureError>(Choice::Only(p)) && line == "  ["@ + decimal(
                    n,
                ) + "] "@ + p.id() + " (key: "@ + "✓"@ + ")"@
            } else {
                choice == Err::<Choice, ConfigureError>(ConfigureError::NoKey(p)) && line == "  ["@
                    + decimal(n) + "] "@ + p.id() + " (key: "@ + "✗"@ + ")"@
            }
        }),
{
    a_written_number_is_read_back(n, usize::MAX as nat, before, after);
    lemma_a_number_is_not_blank(n, before, after);
}

proof fn lemma_a_number_is_not_blank(n: nat, before: Seq<char>, after: Seq<char>)
    requires
        blank(before),
        blank(after),
        n <= usize::MAX,
    ensures
        trimmed(before + decimal(n) + after).len() > 0,
{
    a_written_number_is_read_back(n, usize::MAX as nat, before, after);
    let s = trimmed(before + decimal(n) + after);
    if s.len() == 0 {
        assert(parsed_number(s, usize::MAX as nat) is None);
    }
}

/// A number that the menu does not show is out of range, an answer that is no
/// number is told apart from it, and an answer without anything in it keeps the
/// default.
pub proof fn other_answers_choose_nothing(
    n: nat,
    before: Seq<char>,
    after: Seq<char>,
    answer: Seq<char>,
    c: Config,
    env: KeyEnv,
)
    requires
        blank(before),
        blank(after),
        n <= usize::MAX,
    ensures
        n == 0 || n >= 5 ==> choice_of(before + decimal(n) + after, c, env) == Err::<
            Choice,
            ConfigureError,
        >(ConfigureError::OutOfRange),
        blank(answer) ==> choice_of(answer, c, env) == Ok::<Choice, ConfigureError>(Choice::Keep),
        !blank(answer) && parsed_number(trimmed(answer), usize::MAX as nat) is None ==> choice_of(
            answer,
            c,
            env,
        ) == Err::<Choice, ConfigureError>(ConfigureError::NotANumber),
{
    a_written_number_is_read_back(n, usize::MAX as nat, before, after);
    lemma_a_number_is_not_blank(n, before, after);
    trimmed_is_empty_iff_blank(answer);
}

/// What is saved after a choice is what the next transcription goes by: the
/// provider that was chosen under the name that it has in the configuration, no
/// name at all for the fallback chain, and what was there where nothing was
/// chosen.
pub proof fn a_choice_is_saved_under_its_name(c: ConfigView, p: Provider)
    ensures
        chosen(c, Choice::Only(p)).default_provider == Some(
            match p {
                Provider::Deepgram => "deepgram"@,
                Provider::Mistral => "mistral"@,
                Provider::Groq => "groq"@,
            },
        ),
        chosen(c, Choice::Auto).default_provider is None,
        chosen(c, Choice::Keep) == c,
        chosen(c, Choice::Only(p)).groq_api_key == c.groq_api_key,
        chosen(c, Choice::Only(p)).deepgram_api_key == c.deepgram_api_key,
        chosen(c, Choice::Only(p)).mistral_api_key == c.mistral_api_key,
        chosen(c, Choice::Only(p)).model == c.model,
        chosen(c, Choice::Only(p)).language == c.language,
        chosen(c, Choice::Only(p)).backend == c.backend,
        chosen(c, Choice::Only(p)).audio_source == c.audio_source,
{
}

/// The menu names the default that is in force.
pub proof fn the_menu_names_the_default(c: Config, env: KeyEnv)
    ensures
        has_text(menu_of(c, env)[1], default_provider_of(c@)),
        menu_of(c, env).len() == 8,
{
    let none = Seq::<char>::empty();
    a_part_stands_in_the_whole("Current default: "@, default_provider_of(c@), none);
    assert("Current default: "@ + default_provider_of(c@) + none =~= "Current default: "@
        + default_provider_of(c@));
}

/// The user is told what was chosen, and that it was saved; where nothing was,
/// what stays.
pub proof fn the_user_is_told_what_was_chosen(current: Seq<char>, p: Provider)
    ensures
        has_text(closing_of(Choice::Only(p), current)[0], p.id()),
        closing_of(Choice::Auto, current)[0] == "\nDefault provider set to: "@ + "auto"@,
        has_text(closing_of(Choice::Keep, current)[0], current),
        closing_of(Choice::Keep, current).len() == 1,
        closing_of(Choice::Auto, current).len() == 2,
        closing_of(Choice::Only(p), current).len() == 2,
        closing_of(Choice::Auto, current)[1] == closing_of(Choice::Only(p), current)[1],
{
    let none = Seq::<char>::empty();
    assert(has_text(closing_of(Choice::Only(p), current)[0], p.id())) by {
        a_part_stands_in_the_whole("\nDefault provider set to: "@, p.id(), none);
        assert("\nDefault provider set to: "@ + p.id() + none =~= "\nDefault provider set to: "@
            + p.id());
    }
    a_part_stands_in_the_whole(
        "No changes made (press Enter to keep current: "@,
        current,
        ")."@,
    );
    assert("\nDefault provider set to: auto"@ =~= "\nDefault provider set to: "@ + "auto"@) by {
        reveal_strlit("\nDefault provider set to: auto");
        reveal_strlit("\nDefault provider set to: ");
        reveal_strlit("auto");
    }
}

/// Who chose a provider without a key is told which, and which variable takes
/// the key.
pub proof fn a_missing_key_is_told(p: Provider)
    ensures
        has_text(ConfigureError::NoKey(p).words(), p.id()),
        has_text(ConfigureError::NoKey(p).words(), p.variable()),
{
    let start = "You selected '"@;
    let middle = "' but no API key is configured.\nAdd it to ~/.config/voxtype/config.toml or export "@;
    let end = " in your shell."@;
    let (id, var) = (p.id(), p.variable());
    a_part_stands_in_the_whole(start + id + middle, var, end);
    a_part_stands_in_the_whole(start, id, middle + var + end);
    assert(start + id + (middle + var + end) =~= start + id + middle + var + end);
}

/// An answer that is no number of the menu is told so.
pub proof fn a_wrong_answer_is_told()
    ensures
        ConfigureError::NotANumber.words() == "Please enter a number 1-4"@,
        ConfigureError::OutOfRange.words() == "Please select a number between 1 and 4"@,
{
}

/// The line of a provider shows its number, its name, and whether it has a key.
pub proof fn a_line_shows_the_number_the_name_and_the_key(number: nat, provider: Provider)
    ensures
        has_text(provider_line(number, provider, true), decimal(number)),
        has_text(provider_line(number, provider, true), provider.id()),
        has_text(provider_line(number, provider, true), " (key: ✓)"@),
        has_text(provider_line(number, provider, false), decimal(number)),
        has_text(provider_line(number, provider, false), provider.id()),
        has_text(provider_line(number, provider, false), " (key: ✗)"@),
        provider_line(number, provider, true).subrange(0, 3) == "  ["@,
{
    let none = Seq::<char>::empty();
    let (n, id) = (decimal(number), provider.id());
    reveal_strlit("  [");
    reveal_strlit(" (key: ");
    reveal_strlit(")");
    reveal_strlit("✓");
    reveal_strlit("✗");
    reveal_strlit(" (key: ✓)");
    reveal_strlit(" (key: ✗)");
    assert(" (key: "@ + "✓"@ + ")"@ =~= " (key: ✓)"@);
    assert(" (key: "@ + "✗"@ + ")"@ =~= " (key: ✗)"@);
    let yes = " (key: ✓)"@;
    let no = " (key: ✗)"@;
    let head = "  ["@;
    let mid = "] "@;
    assert(head + n + mid + id + yes =~= provider_line(number, provider, true));
    assert(head + n + mid + id + no =~= provider_line(number, provider, false));
    a_part_stands_in_the_whole(head, n, mid + id + yes);
    assert(head + n + (mid + id + yes) =~= head + n + mid + id + yes);
    a_part_stands_in_the_whole(head, n, mid + id + no);
    assert(head + n + (mid + id + no) =~= head + n + mid + id + no);
    a_part_stands_in_the_whole(head + n + mid, id, yes);
    a_part_stands_in_the_whole(head + n + mid, id, no);
    a_part_stands_in_the_whole(head + n + mid + id, yes, none);
    assert(head + n + mid + id + yes + none =~= head + n + mid + id + yes);
    a_part_stands_in_the_whole(head + n + mid + id, no, none);
    assert(head + n + mid + id + no + none =~= head + n + mid + id + no);
    assert(provider_line(number, provider, true).subrange(0, 3) =~= head);
}

}
