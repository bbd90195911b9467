//! The configuration file, and where the API keys come from.

use crate::environment::filled;
use crate::json::Json;
use crate::text::{
    a_part_stands_in_the_whole, chars_of, find_chars, has_text, lowercase, occurs_at, opt_text,
    texts, trimmed_start, white_space,
};
use crate::toml_file::{
    bare_key, entries_map, entries_of, parse_toml, push_line, toml_document, toml_line, toml_lines,
    writable,
};
use vstd::prelude::*;

verus! {

// ── Configuration ─────────────────────────────────────────────────

#[derive(Debug, Clone)]
pub struct Config {
    pub groq_api_key: Option<String>,
    pub deepgram_api_key: Option<String>,
    pub mistral_api_key: Option<String>,
    pub model: Option<String>,
    pub language: Option<String>,
    /// Force backend: "auto" (detect), "x11", or "wayland"
    pub backend: Option<String>,
    /// PulseAudio source name or device (e.g. "default", "alsa_input.usb-...")
    pub audio_source: Option<String>,
    /// Default speech provider: "deepgram", "mistral", "groq", or "auto" (fallback chain)
    pub default_provider: Option<String>,
}

/// A configuration as a mathematical value.
pub ghost struct ConfigView {
    pub groq_api_key: Option<Seq<char>>,
    pub deepgram_api_key: Option<Seq<char>>,
    pub mistral_api_key: Option<Seq<char>>,
    pub model: Option<Seq<char>>,
    pub language: Option<Seq<char>>,
    pub backend: Option<Seq<char>>,
    pub audio_source: Option<Seq<char>>,
    pub default_provider: Option<Seq<char>>,
}

impl View for Config {
    type V = ConfigView;

    open spec fn view(&self) -> ConfigView {
        ConfigView {
            groq_api_key: opt_text(self.groq_api_key),
            deepgram_api_key: opt_text(self.deepgram_api_key),
            mistral_api_key: opt_text(self.mistral_api_key),
            model: opt_text(self.model),
            language: opt_text(self.language),
            backend: opt_text(self.backend),
            audio_source: opt_text(self.audio_source),
            default_provider: opt_text(self.default_provider),
        }
    }
}

/// The configuration that sets nothing.
pub open spec fn nothing_set() -> ConfigView {
    ConfigView {
        groq_api_key: None,
        deepgram_api_key: None,
        mistral_api_key: None,
        model: None,
        language: None,
        backend: None,
        audio_source: None,
        default_provider: None,
    }
}

/// A configuration file that cannot be used.
#[derive(Debug, Clone, Copy, PartialEq, Eq, Structural)]
pub enum ConfigError {
    /// It is not TOML, or sets a key to something other than a string.
    NotParsed,
}

impl ConfigError {
    pub fn message(&self) -> (r: &'static str)
        ensures
            r@ == "Failed to parse config TOML"@,
    {
        "Failed to parse config TOML"
    }
}

// ── Reading ───────────────────────────────────────────────────────

/// A key is absent or set to a string.
pub open spec fn readable(entries: Map<Seq<char>, Option<Seq<char>>>, key: Seq<char>) -> bool {
    entries.contains_key(key) ==> entries[key] is Some
}

/// What a key is set to.
pub open spec fn value_of(entries: Map<Seq<char>, Option<Seq<char>>>, key: Seq<char>) -> Option<
    Seq<char>,
> {
    if entries.contains_key(key) {
        entries[key]
    } else {
        None
    }
}

/// The configuration that the entries of a document make up; none where one
/// of its keys is set to something other than a string. Other keys do not
/// matter.
pub open spec fn config_of(entries: Map<Seq<char>, Option<Seq<char>>>) -> Option<ConfigView> {
    if readable(entries, "groq_api_key"@) && readable(entries, "deepgram_api_key"@) && readable(
        entries,
        "mistral_api_key"@,
    ) && readable(entries, "model"@) && readable(entries, "language"@) && readable(
        entries,
        "backend"@,
    ) && readable(entries, "audio_source"@) && readable(entries, "default_provider"@) {
        Some(
            ConfigView {
                groq_api_key: value_of(entries, "groq_api_key"@),
                deepgram_api_key: value_of(entries, "deepgram_api_key"@),
                mistral_api_key: value_of(entries, "mistral_api_key"@),
                model: value_of(entries, "model"@),
                language: value_of(entries, "language"@),
                backend: value_of(entries, "backend"@),
                audio_source: value_of(entries, "audio_source"@),
                default_provider: value_of(entries, "default_provider"@),
            },
        )
    } else {
        None
    }
}

/// The configuration in a file, if the file has one.
pub open spec fn config_in(text: Seq<char>) -> Option<ConfigView> {
    match toml_document(text) {
        Some(document) => config_of(entries_of(document)),
        None => None,
    }
}

fn setting(v: &Json, key: &str) -> (r: Result<Option<String>, ConfigError>)
    ensures
        match r {
            Ok(s) => readable(entries_of(v.tree()), key@) && opt_text(s) == value_of(
                entries_of(v.tree()),
                key@,
            ),
            Err(_) => !readable(entries_of(v.tree()), key@),
        },
{
    match v.get(key) {
        None => Ok(None),
        Some(value) => match value.as_str() {
            Some(s) => Ok(Some(s.to_owned())),
            None => Err(ConfigError::NotParsed),
        },
    }
}

impl Config {
    /// The configuration in a document, or nothing set where there is no
    /// file. What [`Config::save`] wrote is read back as it was.
    pub fn load(content: Option<&str>) -> (r: Result<Config, ConfigError>)
        ensures
            match content {
                None => r matches Ok(c) && c@ == nothing_set(),
                Some(text) => {
                    &&& match r {
                        Ok(c) => config_in(text@) == Some(c@),
                        Err(e) => config_in(text@) is None,
                    }
                    &&& forall|c: ConfigView|
                        text@ == #[trigger] config_text(c) ==> (r matches Ok(k) && k@ == c)
                },
            },
    {
        let text = match content {
            None => {
                return Ok(
                    Config {
                        groq_api_key: None,
                        deepgram_api_key: None,
                        mistral_api_key: None,
                        model: None,
                        language: None,
                        backend: None,
                        audio_source: None,
                        default_provider: None,
                    },
                );
            },
            Some(text) => text,
        };
        let r = match parse_toml(text) {
            None => Err(ConfigError::NotParsed),
            Some(v) => Config::from_document(&v),
        };
        assert forall|c: ConfigView| text@ == #[trigger] config_text(c) implies (r matches Ok(k)
            && k@ == c) by {
            lemma_entries_are_writable(c);
            assert(text@ == toml_lines(config_entries(c)));
            lemma_entries_make_up_the_config(c);
        }
        r
    }

    fn from_document(v: &Json) -> (r: Result<Config, ConfigError>)
        ensures
            match r {
                Ok(c) => config_of(entries_of(v.tree())) == Some(c@),
                Err(_) => config_of(entries_of(v.tree())) is None,
            },
    {
        let groq_api_key = match setting(v, "groq_api_key") {
            Ok(s) => s,
            Err(e) => return Err(e),
        };
        let deepgram_api_key = match setting(v, "deepgram_api_key") {
            Ok(s) => s,
            Err(e) => return Err(e),
        };
        let mistral_api_key = match setting(v, "mistral_api_key") {
            Ok(s) => s,
            Err(e) => return Err(e),
        };
        let model = match setting(v, "model") {
            Ok(s) => s,
            Err(e) => return Err(e),
        };
        let language = match setting(v, "language") {
            Ok(s) => s,
            Err(e) => return Err(e),
        };
        let backend = match setting(v, "backend") {
            Ok(s) => s,
            Err(e) => return Err(e),
        };
        let audio_source = match setting(v, "audio_source") {
            Ok(s) => s,
            Err(e) => return Err(e),
        };
        let default_provider = match setting(v, "default_provider") {
            Ok(s) => s,
            Err(e) => return Err(e),
        };
        Ok(
            Config {
                groq_api_key,
                deepgram_api_key,
                mistral_api_key,
                model,
                language,
                backend,
                audio_source,
                default_provider,
            },
        )
    }
}

// ── Writing ───────────────────────────────────────────────────────

/// The entry for a key that is set; none for one that is not.
pub open spec fn entry_for(key: Seq<char>, value: Option<Seq<char>>) -> Seq<(Seq<char>, Seq<char>)> {
    match value {
        Some(v) => seq![(key, v)],
        None => Seq::empty(),
    }
}

/// The entries of a configuration, in the order of its fields.
pub open spec fn config_entries(c: ConfigView) -> Seq<(Seq<char>, Seq<char>)> {
    entry_for("groq_api_key"@, c.groq_api_key) + entry_for("deepgram_api_key"@, c.deepgram_api_key)
        + entry_for("mistral_api_key"@, c.mistral_api_key) + entry_for("model"@, c.model)
        + entry_for("language"@, c.language) + entry_for("backend"@, c.backend) + entry_for(
        "audio_source"@,
        c.audio_source,
    ) + entry_for("default_provider"@, c.default_provider)
}

/// A configuration as a TOML document.
pub open spec fn config_text(c: ConfigView) -> Seq<char> {
    toml_lines(config_entries(c))
}

proof fn lemma_one_more_entry(
    entries: Seq<(Seq<char>, Seq<char>)>,
    key: Seq<char>,
    value: Option<Seq<char>>,
)
    ensures
        toml_lines(entries + entry_for(key, value)) == toml_lines(entries) + match value {
            Some(v) => toml_line(key, v),
            None => Seq::empty(),
        },
        entries_map(entries + entry_for(key, value)) == match value {
            Some(v) => entries_map(entries).insert(key, Some(v)),
            None => entries_map(entries),
        },
{
    let more = entries + entry_for(key, value);
    match value {
        Some(v) => {
            assert(more.drop_last() =~= entries);
            assert(more.last() == (key, v));
        },
        None => {
            assert(more =~= entries);
            assert(toml_lines(entries) + Seq::<char>::empty() =~= toml_lines(entries));
        },
    }
}

fn push_setting(out: &mut String, key: &str, value: &Option<String>)
    ensures
        final(out)@ == old(out)@ + match *value {
            Some(v) => toml_line(key@, v@),
            None => Seq::empty(),
        },
{
    match value {
        Some(v) => push_line(out, key, v.as_str()),
        None => {},
    }
    assert(*value is None ==> out@ =~= old(out)@ + Seq::<char>::empty());
}

/// The configuration as a TOML document, its fields in their order.
pub fn config_toml(cfg: &Config) -> (r: String)
    ensures
        r@ == config_text(cfg@),
{
    let mut out = String::new();
    let ghost c = cfg@;
    proof {
        let e0 = Seq::<(Seq<char>, Seq<char>)>::empty();
        assert(toml_lines(e0) =~= Seq::<char>::empty());
        let e1 = entry_for("groq_api_key"@, c.groq_api_key);
        assert(e0 + e1 =~= e1);
        lemma_one_more_entry(e0, "groq_api_key"@, c.groq_api_key);
        let e2 = e1 + entry_for("deepgram_api_key"@, c.deepgram_api_key);
        lemma_one_more_entry(e1, "deepgram_api_key"@, c.deepgram_api_key);
        let e3 = e2 + entry_for("mistral_api_key"@, c.mistral_api_key);
        lemma_one_more_entry(e2, "mistral_api_key"@, c.mistral_api_key);
        let e4 = e3 + entry_for("model"@, c.model);
        lemma_one_more_entry(e3, "model"@, c.model);
        let e5 = e4 + entry_for("language"@, c.language);
        lemma_one_more_entry(e4, "language"@, c.language);
        let e6 = e5 + entry_for("backend"@, c.backend);
        lemma_one_more_entry(e5, "backend"@, c.backend);
        let e7 = e6 + entry_for("audio_source"@, c.audio_source);
        lemma_one_more_entry(e6, "audio_source"@, c.audio_source);
        lemma_one_more_entry(e7, "default_provider"@, c.default_provider);
    }
    push_setting(&mut out, "groq_api_key", &cfg.groq_api_key);
    push_setting(&mut out, "deepgram_api_key", &cfg.deepgram_api_key);
    push_setting(&mut out, "mistral_api_key", &cfg.mistral_api_key);
    push_setting(&mut out, "model", &cfg.model);
    push_setting(&mut out, "language", &cfg.language);
    push_setting(&mut out, "backend", &cfg.backend);
    push_setting(&mut out, "audio_source", &cfg.audio_source);
    push_setting(&mut out, "default_provider", &cfg.default_provider);
    out
}

/// The keys of the settings, in the order of the fields.
pub open spec fn config_keys() -> Seq<Seq<char>> {
    seq![
        "groq_api_key"@,
        "deepgram_api_key"@,
        "mistral_api_key"@,
        "model"@,
        "language"@,
        "backend"@,
        "audio_source"@,
        "default_provider"@,
    ]
}

proof fn lemma_keys_are_distinct()
    ensures
        config_keys().len() == 8,
        forall|i: int| 0 <= i < 8 ==> bare_key(#[trigger] config_keys()[i]),
        forall|i: int, j: int|
            0 <= i < j < 8 ==> #[trigger] config_keys()[i] != #[trigger] config_keys()[j],
{
    reveal_strlit("groq_api_key");
    reveal_strlit("deepgram_api_key");
    reveal_strlit("mistral_api_key");
    reveal_strlit("model");
    reveal_strlit("language");
    reveal_strlit("backend");
    reveal_strlit("audio_source");
    reveal_strlit("default_provider");
    let k = config_keys();
    assert(k[0].len() == 12 && k[1].len() == 16 && k[2].len() == 15 && k[3].len() == 5
        && k[4].len() == 8 && k[5].len() == 7 && k[6].len() == 12 && k[7].len() == 16);
    assert(k[0][0] != k[6][0]);
    assert(k[1][2] != k[7][2]);
}

/// Every entry has the key of its field.
spec fn at_key(entries: Seq<(Seq<char>, Seq<char>)>, below: int) -> bool {
    &&& writable(entries)
    &&& forall|i: int|
        0 <= i < entries.len() ==> exists|k: int|
            0 <= k < below && #[trigger] entries[i].0 == #[trigger] config_keys()[k]
}

proof fn lemma_one_more_key(
    entries: Seq<(Seq<char>, Seq<char>)>,
    below: int,
    value: Option<Seq<char>>,
)
    requires
        0 <= below < 8,
        at_key(entries, below),
    ensures
        at_key(entries + entry_for(config_keys()[below], value), below + 1),
{
    lemma_keys_are_distinct();
    let more = entries + entry_for(config_keys()[below], value);
    assert forall|i: int| 0 <= i < more.len() implies exists|k: int|
        0 <= k < below + 1 && #[trigger] more[i].0 == #[trigger] config_keys()[k] by {
        if i < entries.len() {
            let k = choose|k: int|
                0 <= k < below && #[trigger] entries[i].0 == #[trigger] config_keys()[k];
            assert(more[i].0 == config_keys()[k]);
        } else {
            assert(more[i].0 == config_keys()[below]);
        }
    }
    assert forall|i: int, j: int| 0 <= i < j < more.len() implies #[trigger] more[i].0
        != #[trigger] more[j].0 by {
        if j < entries.len() {
            assert(entries[i].0 != entries[j].0);
        } else {
            let k = choose|k: int|
                0 <= k < below && #[trigger] entries[i].0 == #[trigger] config_keys()[k];
            assert(config_keys()[k] != config_keys()[below]);
        }
    }
}

proof fn lemma_entries_are_writable(c: ConfigView)
    ensures
        writable(config_entries(c)),
{
    let e0 = Seq::<(Seq<char>, Seq<char>)>::empty();
    let e1 = entry_for("groq_api_key"@, c.groq_api_key);
    assert(e0 + e1 =~= e1);
    lemma_one_more_key(e0, 0, c.groq_api_key);
    let e2 = e1 + entry_for("deepgram_api_key"@, c.deepgram_api_key);
    lemma_one_more_key(e1, 1, c.deepgram_api_key);
    let e3 = e2 + entry_for("mistral_api_key"@, c.mistral_api_key);
    lemma_one_more_key(e2, 2, c.mistral_api_key);
    let e4 = e3 + entry_for("model"@, c.model);
    lemma_one_more_key(e3, 3, c.model);
    let e5 = e4 + entry_for("language"@, c.language);
    lemma_one_more_key(e4, 4, c.language);
    let e6 = e5 + entry_for("backend"@, c.backend);
    lemma_one_more_key(e5, 5, c.backend);
    let e7 = e6 + entry_for("audio_source"@, c.audio_source);
    lemma_one_more_key(e6, 6, c.audio_source);
    lemma_one_more_key(e7, 7, c.default_provider);
}

proof fn lemma_entries_make_up_the_config(c: ConfigView)
    ensures
        config_of(entries_map(config_entries(c))) == Some(c),
{
    lemma_keys_are_distinct();
    let k = config_keys();
    assert(k[0] == "groq_api_key"@ && k[1] == "deepgram_api_key"@ && k[2] == "mistral_api_key"@
        && k[3] == "model"@ && k[4] == "language"@ && k[5] == "backend"@ && k[6]
        == "audio_source"@ && k[7] == "default_provider"@);
    let e0 = Seq::<(Seq<char>, Seq<char>)>::empty();
    let e1 = entry_for("groq_api_key"@, c.groq_api_key);
    assert(e0 + e1 =~= e1);
    lemma_one_more_entry(e0, "groq_api_key"@, c.groq_api_key);
    let e2 = e1 + entry_for("deepgram_api_key"@, c.deepgram_api_key);
    lemma_one_more_entry(e1, "deepgram_api_key"@, c.deepgram_api_key);
    let e3 = e2 + entry_for("mistral_api_key"@, c.mistral_api_key);
    lemma_one_more_entry(e2, "mistral_api_key"@, c.mistral_api_key);
    let e4 = e3 + entry_for("model"@, c.model);
    lemma_one_more_entry(e3, "model"@, c.model);
    let e5 = e4 + entry_for("language"@, c.language);
    lemma_one_more_entry(e4, "language"@, c.language);
    let e6 = e5 + entry_for("backend"@, c.backend);
    lemma_one_more_entry(e5, "backend"@, c.backend);
    let e7 = e6 + entry_for("audio_source"@, c.audio_source);
    lemma_one_more_entry(e6, "audio_source"@, c.audio_source);
    lemma_one_more_entry(e7, "default_provider"@, c.default_provider);
}

impl Config {
    /// The document to write to the configuration file.
    pub fn save(&self) -> (r: String)
        ensures
            r@ == config_text(self@),
    {
        config_toml(self)
    }

    pub fn model(&self) -> (r: &str)
        ensures
            r@ == match self@.model {
                Some(m) => m,
                None => "whisper-large-v3-turbo"@,
            },
    {
        match &self.model {
            Some(m) => m.as_str(),
            None => "whisper-large-v3-turbo",
        }
    }

    pub fn language(&self) -> (r: Option<&str>)
        ensures
            match r {
                Some(l) => self@.language == Some(l@),
                None => self@.language is None,
            },
    {
        match &self.language {
            Some(l) => Some(l.as_str()),
            None => None,
        }
    }

    pub fn default_provider(&self) -> (r: &str)
        ensures
            r@ == default_provider_of(self@),
    {
        match &self.default_provider {
            Some(p) => p.as_str(),
            None => "auto",
        }
    }
}

/// The provider that a configuration asks for.
pub open spec fn default_provider_of(c: ConfigView) -> Seq<char> {
    match c.default_provider {
        Some(p) => p,
        None => "auto"@,
    }
}

// ── Assignments in shell files ────────────────────────────────────

/// How many characters from the start are not white space.
pub open spec fn word_len(s: Seq<char>) -> int
    decreases s.len(),
{
    if s.len() == 0 || white_space(s[0]) {
        0
    } else {
        1 + word_len(s.drop_first())
    }
}

/// The first word of a text; empty where there is none.
pub open spec fn first_word(s: Seq<char>) -> Seq<char> {
    trimmed_start(s).take(word_len(trimmed_start(s)))
}

/// A text without any `c` at its start.
pub open spec fn stripped_start(s: Seq<char>, c: char) -> Seq<char>
    decreases s.len(),
{
    if s.len() > 0 && s[0] == c {
        stripped_start(s.drop_first(), c)
    } else {
        s
    }
}

/// A text without any `c` at its end.
pub open spec fn stripped_end(s: Seq<char>, c: char) -> Seq<char>
    decreases s.len(),
{
    if s.len() > 0 && s.last() == c {
        stripped_end(s.drop_last(), c)
    } else {
        s
    }
}

/// A text without any `c` at either end.
pub open spec fn stripped(s: Seq<char>, c: char) -> Seq<char> {
    stripped_end(stripped_start(s, c), c)
}

/// Where a pattern first stands in a text.
pub open spec fn first_at(s: Seq<char>, pattern: Seq<char>, i: int) -> bool {
    occurs_at(s, pattern, i) && forall|j: int| 0 <= j < i ==> !occurs_at(s, pattern, j)
}

/// What follows the first occurrence of a pattern in a text.
pub open spec fn text_after(s: Seq<char>, pattern: Seq<char>) -> Option<Seq<char>> {
    if has_text(s, pattern) {
        Some(s.skip((choose|i: int| first_at(s, pattern, i)) + pattern.len()))
    } else {
        None
    }
}

/// The value that a line assigns to a variable: the word after the first
/// `NAME=`, without the double quotes and then without the single quotes
/// around it, unless that leaves nothing.
pub open spec fn assigned(line: Seq<char>, var: Seq<char>) -> Option<Seq<char>> {
    match text_after(line, var.push('=')) {
        Some(after) => {
            let value = stripped(stripped(first_word(after), '"'), '\'');
            if value.len() == 0 {
                None
            } else {
                Some(value)
            }
        },
        None => None,
    }
}

fn strip(s: &Vec<char>, from: usize, to: usize, c: char) -> (r: (usize, usize))
    requires
        from <= to <= s@.len(),
    ensures
        from <= r.0 <= r.1 <= to,
        s@.subrange(r.0 as int, r.1 as int) == stripped(s@.subrange(from as int, to as int), c),
{
    let mut a: usize = from;
    let ghost whole = s@.subrange(from as int, to as int);
    while a < to && s[a] == c
        invariant
            from <= a <= to <= s@.len(),
            stripped_start(s@.subrange(a as int, to as int), c) == stripped_start(whole, c),
        decreases to - a,
    {
        assert(s@.subrange(a as int, to as int).drop_first() =~= s@.subrange(a + 1, to as int));
        a += 1;
    }
    let ghost rest = s@.subrange(a as int, to as int);
    assert(rest == stripped_start(whole, c));
    let mut b: usize = to;
    while b > a && s[b - 1] == c
        invariant
            a <= b <= to <= s@.len(),
            stripped_end(s@.subrange(a as int, b as int), c) == stripped_end(rest, c),
        decreases b,
    {
        assert(s@.subrange(a as int, b as int).drop_last() =~= s@.subrange(a as int, b - 1));
        b -= 1;
    }
    (a, b)
}

/// The value that a line of a shell file assigns to a variable.
pub fn parse_env_assignment(line: &str, var: &str) -> (r: Option<String>)
    ensures
        opt_text(r) == assigned(line@, var@),
{
    let s = chars_of(line);
    let mut pattern = chars_of(var);
    pattern.push('=');
    let ghost wanted = var@.push('=');
    let found: usize = match find_chars(&s, &pattern) {
        None => return None,
        Some(i) => i,
    };
    proof {
        assert(first_at(line@, wanted, found as int));
        let k = choose|i: int| first_at(line@, wanted, i);
        assert(k == found) by {
            if k < found {
                assert(!occurs_at(line@, wanted, k));
            } else if found < k {
                assert(!occurs_at(line@, wanted, found as int));
            }
        }
    }
    assert(found + pattern.len() <= s.len());
    let start: usize = found + pattern.len();
    let ghost after = line@.skip(start as int);
    let mut a: usize = start;
    assert(s@.skip(a as int) =~= after);
    while a < s.len() && s[a].is_whitespace()
        invariant
            start <= a <= s@.len(),
            trimmed_start(s@.skip(a as int)) == trimmed_start(after),
        decreases s@.len() - a,
    {
        assert(s@.skip(a as int).drop_first() =~= s@.skip(a + 1));
        a += 1;
    }
    let ghost rest = s@.skip(a as int);
    assert(rest == trimmed_start(after));
    let mut b: usize = a;
    while b < s.len() && !s[b].is_whitespace()
        invariant
            a <= b <= s@.len(),
            rest == s@.skip(a as int),
            word_len(rest) == (b - a) + word_len(s@.skip(b as int)),
        decreases s@.len() - b,
    {
        assert(s@.skip(b as int).drop_first() =~= s@.skip(b + 1));
        b += 1;
    }
    assert(s@.subrange(a as int, b as int) =~= first_word(after));
    let (c, d) = strip(&s, a, b, '"');
    let (from, to) = strip(&s, c, d, '\'');
    if from == to {
        return None;
    }
    let mut value = String::new();
    for i in from..to
        invariant
            from <= i <= to <= s@.len(),
            value@ == s@.subrange(from as int, i as int),
    {
        value.push(s[i]);
        assert(value@ =~= s@.subrange(from as int, i + 1));
    }
    Some(value)
}

/// The value that the first of some lines to assign a variable assigns to it.
pub open spec fn first_assigned(lines: Seq<Seq<char>>, var: Seq<char>) -> Option<Seq<char>>
    decreases lines.len(),
{
    if lines.len() == 0 {
        None
    } else if assigned(lines[0], var) is Some {
        assigned(lines[0], var)
    } else {
        first_assigned(lines.drop_first(), var)
    }
}

fn assignment_among(lines: &Vec<String>, var: &str) -> (r: Option<String>)
    ensures
        opt_text(r) == first_assigned(texts(lines@), var@),
{
    let ghost all = texts(lines@);
    assert(all.skip(0) =~= all);
    for i in 0..lines.len()
        invariant
            all == texts(lines@),
            first_assigned(all, var@) == first_assigned(all.skip(i as int), var@),
    {
        assert(all.skip(i as int)[0] == lines@[i as int]@);
        assert(all.skip(i as int).drop_first() =~= all.skip(i + 1));
        let value = parse_env_assignment(lines[i].as_str(), var);
        if value.is_some() {
            return value;
        }
    }
    assert(all.skip(all.len() as int).len() == 0);
    None
}

// ── API keys ──────────────────────────────────────────────────────

/// The speech-to-text providers.
#[derive(Debug, Clone, Copy, PartialEq, Eq, Structural)]
pub enum Provider {
    Deepgram,
    Mistral,
    Groq,
}

/// Where API keys are looked for beside the configuration: environment
/// variables, `None` where one is not set, and the lines of the shell files.
#[derive(Debug)]
pub struct KeyEnv {
    pub groq: Option<String>,
    pub deepgram: Option<String>,
    pub mistral: Option<String>,
    pub rc_lines: Vec<String>,
}

/// A provider without an API key.
#[derive(Debug, Clone, Copy, PartialEq, Eq, Structural)]
pub struct KeyError {
    pub provider: Provider,
}

impl Provider {
    /// The name of the provider in the configuration.
    pub open spec fn id(self) -> Seq<char> {
        match self {
            Provider::Deepgram => "deepgram"@,
            Provider::Mistral => "mistral"@,
            Provider::Groq => "groq"@,
        }
    }

    /// The name of the provider in messages.
    pub open spec fn title(self) -> Seq<char> {
        match self {
            Provider::Deepgram => "Deepgram"@,
            Provider::Mistral => "Mistral"@,
            Provider::Groq => "Groq"@,
        }
    }

    /// The environment variable with the API key.
    pub open spec fn variable(self) -> Seq<char> {
        match self {
            Provider::Deepgram => "DEEPGRAM_API_KEY"@,
            Provider::Mistral => "MISTRAL_API_KEY"@,
            Provider::Groq => "GROQ_API_KEY"@,
        }
    }

    /// The name of the provider in the configuration.
    pub fn name(&self) -> (r: &'static str)
        ensures
            r@ == self.id(),
    {
        match self {
            Provider::Deepgram => "deepgram",
            Provider::Mistral => "mistral",
            Provider::Groq => "groq",
        }
    }

    /// The name of the provider in messages.
    pub fn label(&self) -> (r: &'static str)
        ensures
            r@ == self.title(),
    {
        match self {
            Provider::Deepgram => "Deepgram",
            Provider::Mistral => "Mistral",
            Provider::Groq => "Groq",
        }
    }

    /// The environment variable with the API key.
    pub fn env_var(&self) -> (r: &'static str)
        ensures
            r@ == self.variable(),
    {
        match self {
            Provider::Deepgram => "DEEPGRAM_API_KEY",
            Provider::Mistral => "MISTRAL_API_KEY",
            Provider::Groq => "GROQ_API_KEY",
        }
    }
}

/// The key that a provider has: the one of the configuration, otherwise the
/// one of the environment variable, otherwise the one that a shell file
/// assigns to that variable. An empty key is none.
pub open spec fn resolved(
    file_value: Option<String>,
    env_value: Option<String>,
    rc_lines: Seq<Seq<char>>,
    var: Seq<char>,
) -> Option<Seq<char>> {
    if filled(file_value) {
        opt_text(file_value)
    } else if filled(env_value) {
        opt_text(env_value)
    } else {
        first_assigned(rc_lines, var)
    }
}

/// The key that a provider has.
pub open spec fn key_of(c: Config, env: KeyEnv, provider: Provider) -> Option<Seq<char>> {
    match provider {
        Provider::Groq => resolved(
            c.groq_api_key,
            env.groq,
            texts(env.rc_lines@),
            provider.variable(),
        ),
        Provider::Deepgram => resolved(
            c.deepgram_api_key,
            env.deepgram,
            texts(env.rc_lines@),
            provider.variable(),
        ),
        Provider::Mistral => resolved(
            c.mistral_api_key,
            env.mistral,
            texts(env.rc_lines@),
            provider.variable(),
        ),
    }
}

/// What a lookup of a key gives: the key, or the complaint of the provider.
pub open spec fn key_found(
    r: Result<String, KeyError>,
    key: Option<Seq<char>>,
    provider: Provider,
) -> bool {
    match r {
        Ok(k) => key == Some(k@),
        Err(e) => key is None && e.provider == provider,
    }
}

/// Generic key resolver: config file value wins, then env var, then shell rc.
fn resolve_key(
    file_value: &Option<String>,
    env_value: &Option<String>,
    rc_lines: &Vec<String>,
    provider: Provider,
) -> (r: Result<String, KeyError>)
    ensures
        key_found(
            r,
            resolved(*file_value, *env_value, texts(rc_lines@), provider.variable()),
            provider,
        ),
{
    if let Some(key) = file_value {
        if !key.as_str().is_empty() {
            return Ok(key.clone());
        }
    }
    if let Some(key) = env_value {
        if !key.as_str().is_empty() {
            return Ok(key.clone());
        }
    }
    match assignment_among(rc_lines, provider.env_var()) {
        Some(key) => Ok(key),
        None => Err(KeyError { provider }),
    }
}

impl Config {
    pub fn groq_api_key(&self, env: &KeyEnv) -> (r: Result<String, KeyError>)
        ensures
            key_found(r, key_of(*self, *env, Provider::Groq), Provider::Groq),
    {
        resolve_key(&self.groq_api_key, &env.groq, &env.rc_lines, Provider::Groq)
    }

    pub fn deepgram_api_key(&self, env: &KeyEnv) -> (r: Result<String, KeyError>)
        ensures
            key_found(r, key_of(*self, *env, Provider::Deepgram), Provider::Deepgram),
    {
        resolve_key(&self.deepgram_api_key, &env.deepgram, &env.rc_lines, Provider::Deepgram)
    }

    pub fn mistral_api_key(&self, env: &KeyEnv) -> (r: Result<String, KeyError>)
        ensures
            key_found(r, key_of(*self, *env, Provider::Mistral), Provider::Mistral),
    {
        resolve_key(&self.mistral_api_key, &env.mistral, &env.rc_lines, Provider::Mistral)
    }

    /// The key that a provider has.
    pub fn api_key(&self, env: &KeyEnv, provider: Provider) -> (r: Result<String, KeyError>)
        ensures
            key_found(r, key_of(*self, *env, provider), provider),
    {
        match provider {
            Provider::Groq => self.groq_api_key(env),
            Provider::Deepgram => self.deepgram_api_key(env),
            Provider::Mistral => self.mistral_api_key(env),
        }
    }
}

impl KeyError {
    /// The words for the error; `config_path` is the place of the
    /// configuration file, if it is known.
    pub open spec fn words(self, config_path: Option<Seq<char>>) -> Seq<char> {
        match config_path {
            Some(path) => "No "@ + self.provider.title() + " API key found. Set "@
                + self.provider.variable() + " in your shell, or add "@ + self.provider.id()
                + "_api_key to "@ + path,
            None => "Cannot determine config directory"@,
        }
    }

    /// The message for the user.
    pub fn message(&self, config_path: Option<&str>) -> (r: String)
        ensures
            r@ == self.words(
                match config_path {
                    Some(p) => Some(p@),
                    None => None,
                },
            ),
    {
        match config_path {
            Some(path) => {
                let mut m = "No ".to_owned();
                m.append(self.provider.label());
                m.append(" API key found. Set ");
                m.append(self.provider.env_var());
                m.append(" in your shell, or add ");
                m.append(self.provider.name());
                m.append("_api_key to ");
                m.append(path);
                m
            },
            None => "Cannot determine config directory".to_owned(),
        }
    }
}

// ── Laws ──────────────────────────────────────────────────────────

/// Of the three places of a key the first that has one counts: the
/// configuration, then the environment variable, then the shell files.
pub proof fn keys_are_resolved_in_order(
    file_value: Option<String>,
    env_value: Option<String>,
    rc_lines: Seq<Seq<char>>,
    var: Seq<char>,
)
    ensures
        filled(file_value) ==> resolved(file_value, env_value, rc_lines, var) == opt_text(
            file_value,
        ),
        !filled(file_value) && filled(env_value) ==> resolved(file_value, env_value, rc_lines, var)
            == opt_text(env_value),
        !filled(file_value) && !filled(env_value) ==> resolved(
            file_value,
            env_value,
            rc_lines,
            var,
        ) == first_assigned(rc_lines, var),
{
}

/// A key that was found is not empty.
pub proof fn a_resolved_key_is_not_empty(
    file_value: Option<String>,
    env_value: Option<String>,
    rc_lines: Seq<Seq<char>>,
    var: Seq<char>,
)
    ensures
        resolved(file_value, env_value, rc_lines, var) matches Some(k) ==> k.len() > 0,
{
    lemma_first_assigned_is_not_empty(rc_lines, var);
}

proof fn lemma_first_assigned_is_not_empty(lines: Seq<Seq<char>>, var: Seq<char>)
    ensures
        first_assigned(lines, var) matches Some(k) ==> k.len() > 0,
    decreases lines.len(),
{
    if lines.len() > 0 {
        lemma_first_assigned_is_not_empty(lines.drop_first(), var);
    }
}

/// Each setting stands under its own key: what the document says under a name is
/// what the setting of that name is, and nothing where it says nothing.
pub proof fn each_setting_stands_under_its_own_key(
    entries: Map<Seq<char>, Option<Seq<char>>>,
    c: ConfigView,
    key: Seq<char>,
)
    requires
        config_of(entries) == Some(c),
    ensures
        c.groq_api_key == value_of(entries, "groq_api_key"@),
        c.deepgram_api_key == value_of(entries, "deepgram_api_key"@),
        c.mistral_api_key == value_of(entries, "mistral_api_key"@),
        c.model == value_of(entries, "model"@),
        c.language == value_of(entries, "language"@),
        c.backend == value_of(entries, "backend"@),
        c.audio_source == value_of(entries, "audio_source"@),
        c.default_provider == value_of(entries, "default_provider"@),
        entries.contains_key(key) ==> value_of(entries, key) == entries[key],
        !entries.contains_key(key) ==> value_of(entries, key) is None,
{
}

/// A document is refused exactly where one of the settings is no text; whatever
/// else it says does not matter.
pub proof fn only_the_settings_have_to_be_texts(entries: Map<Seq<char>, Option<Seq<char>>>)
    ensures
        config_of(entries) is None <==> exists|i: int|
            0 <= i < config_keys().len() && entries.contains_key(#[trigger] config_keys()[i])
                && entries[config_keys()[i]] is None,
        config_keys() == seq![
            "groq_api_key"@,
            "deepgram_api_key"@,
            "mistral_api_key"@,
            "model"@,
            "language"@,
            "backend"@,
            "audio_source"@,
            "default_provider"@,
        ],
{
    let k = config_keys();
    assert(k[0] == "groq_api_key"@ && k[1] == "deepgram_api_key"@ && k[2] == "mistral_api_key"@
        && k[3] == "model"@ && k[4] == "language"@ && k[5] == "backend"@ && k[6]
        == "audio_source"@ && k[7] == "default_provider"@);
    if exists|i: int|
        0 <= i < k.len() && entries.contains_key(#[trigger] k[i]) && entries[k[i]] is None {
        let i = choose|i: int|
            0 <= i < k.len() && entries.contains_key(#[trigger] k[i]) && entries[k[i]] is None;
        assert(i == 0 || i == 1 || i == 2 || i == 3 || i == 4 || i == 5 || i == 6 || i == 7);
    }
}

/// A setting is written exactly where it is set, under its own key and as it is.
pub proof fn what_is_set_is_written_under_its_key(c: ConfigView, v: Seq<char>)
    ensures
        c.groq_api_key == Some(v) <==> config_entries(c).contains(("groq_api_key"@, v)),
        c.deepgram_api_key == Some(v) <==> config_entries(c).contains(("deepgram_api_key"@, v)),
        c.mistral_api_key == Some(v) <==> config_entries(c).contains(("mistral_api_key"@, v)),
        c.model == Some(v) <==> config_entries(c).contains(("model"@, v)),
        c.language == Some(v) <==> config_entries(c).contains(("language"@, v)),
        c.backend == Some(v) <==> config_entries(c).contains(("backend"@, v)),
        c.audio_source == Some(v) <==> config_entries(c).contains(("audio_source"@, v)),
        c.default_provider == Some(v) <==> config_entries(c).contains(("default_provider"@, v)),
{
    lemma_keys_are_distinct();
    let k = config_keys();
    assert(k[0] == "groq_api_key"@ && k[1] == "deepgram_api_key"@ && k[2] == "mistral_api_key"@
        && k[3] == "model"@ && k[4] == "language"@ && k[5] == "backend"@ && k[6]
        == "audio_source"@ && k[7] == "default_provider"@);
    let e0 = Seq::<(Seq<char>, Seq<char>)>::empty();
    let e1 = entry_for("groq_api_key"@, c.groq_api_key);
    let e2 = e1 + entry_for("deepgram_api_key"@, c.deepgram_api_key);
    let e3 = e2 + entry_for("mistral_api_key"@, c.mistral_api_key);
    let e4 = e3 + entry_for("model"@, c.model);
    let e5 = e4 + entry_for("language"@, c.language);
    let e6 = e5 + entry_for("backend"@, c.backend);
    let e7 = e6 + entry_for("audio_source"@, c.audio_source);
    assert(e0 + e1 =~= e1);
    assert forall|key: Seq<char>| #![trigger config_entries(c).contains((key, v))]
        config_entries(c).contains((key, v)) <==> ((key == k[0] && c.groq_api_key == Some(v)) || (
        key == k[1] && c.deepgram_api_key == Some(v)) || (key == k[2] && c.mistral_api_key == Some(
            v,
        )) || (key == k[3] && c.model == Some(v)) || (key == k[4] && c.language == Some(v)) || (key
            == k[5] && c.backend == Some(v)) || (key == k[6] && c.audio_source == Some(v)) || (key
            == k[7] && c.default_provider == Some(v))) by {
        lemma_one_more_contained(e0, k[0], c.groq_api_key, key, v);
        lemma_one_more_contained(e1, k[1], c.deepgram_api_key, key, v);
        lemma_one_more_contained(e2, k[2], c.mistral_api_key, key, v);
        lemma_one_more_contained(e3, k[3], c.model, key, v);
        lemma_one_more_contained(e4, k[4], c.language, key, v);
        lemma_one_more_contained(e5, k[5], c.backend, key, v);
        lemma_one_more_contained(e6, k[6], c.audio_source, key, v);
        lemma_one_more_contained(e7, k[7], c.default_provider, key, v);
    }
}

proof fn lemma_one_more_contained(
    entries: Seq<(Seq<char>, Seq<char>)>,
    key: Seq<char>,
    value: Option<Seq<char>>,
    k: Seq<char>,
    v: Seq<char>,
)
    ensures
        (entries + entry_for(key, value)).contains((k, v)) <==> entries.contains((k, v)) || (k == key
            && value == Some(v)),
{
    let more = entries + entry_for(key, value);
    if entries.contains((k, v)) {
        let i = choose|i: int| 0 <= i < entries.len() && entries[i] == (k, v);
        assert(more[i] == (k, v));
    }
    if k == key && value == Some(v) {
        assert(more[more.len() - 1] == (k, v));
    }
    if more.contains((k, v)) {
        let i = choose|i: int| 0 <= i < more.len() && more[i] == (k, v);
        if i < entries.len() {
            assert(entries[i] == (k, v));
        }
    }
}

/// Each provider has its own key: that of its own setting, of its own variable,
/// and of the lines that assign its own variable, in this order. The keys of
/// the other providers do not matter.
pub proof fn each_provider_has_its_own_key(c: Config, env: KeyEnv)
    ensures
        filled(c.deepgram_api_key) ==> key_of(c, env, Provider::Deepgram) == opt_text(
            c.deepgram_api_key,
        ),
        filled(c.mistral_api_key) ==> key_of(c, env, Provider::Mistral) == opt_text(
            c.mistral_api_key,
        ),
        filled(c.groq_api_key) ==> key_of(c, env, Provider::Groq) == opt_text(c.groq_api_key),
        !filled(c.deepgram_api_key) && filled(env.deepgram) ==> key_of(c, env, Provider::Deepgram)
            == opt_text(env.deepgram),
        !filled(c.mistral_api_key) && filled(env.mistral) ==> key_of(c, env, Provider::Mistral)
            == opt_text(env.mistral),
        !filled(c.groq_api_key) && filled(env.groq) ==> key_of(c, env, Provider::Groq) == opt_text(
            env.groq,
        ),
        !filled(c.deepgram_api_key) && !filled(env.deepgram) ==> key_of(c, env, Provider::Deepgram)
            == first_assigned(texts(env.rc_lines@), "DEEPGRAM_API_KEY"@),
        !filled(c.mistral_api_key) && !filled(env.mistral) ==> key_of(c, env, Provider::Mistral)
            == first_assigned(texts(env.rc_lines@), "MISTRAL_API_KEY"@),
        !filled(c.groq_api_key) && !filled(env.groq) ==> key_of(c, env, Provider::Groq)
            == first_assigned(texts(env.rc_lines@), "GROQ_API_KEY"@),
{
}

/// A provider has one name in all its writings: the variable and the setting of
/// its key are made of it, and so is its title.
pub proof fn the_names_of_a_provider_belong_together(p: Provider)
    ensures
        lowercase(p.variable()) == p.id() + "_api_key"@,
        lowercase(p.title()) == p.id(),
        p == Provider::Deepgram ==> p.id() + "_api_key"@ == "deepgram_api_key"@,
        p == Provider::Mistral ==> p.id() + "_api_key"@ == "mistral_api_key"@,
        p == Provider::Groq ==> p.id() + "_api_key"@ == "groq_api_key"@,
{
    reveal_strlit("_api_key");
    match p {
        Provider::Deepgram => {
            reveal_strlit("deepgram");
            reveal_strlit("Deepgram");
            reveal_strlit("DEEPGRAM_API_KEY");
            reveal_strlit("deepgram_api_key");
        },
        Provider::Mistral => {
            reveal_strlit("mistral");
            reveal_strlit("Mistral");
            reveal_strlit("MISTRAL_API_KEY");
            reveal_strlit("mistral_api_key");
        },
        Provider::Groq => {
            reveal_strlit("groq");
            reveal_strlit("Groq");
            reveal_strlit("GROQ_API_KEY");
            reveal_strlit("groq_api_key");
        },
    }
    assert(vstd::utf8::is_ascii_chars(p.variable()) && vstd::utf8::is_ascii_chars(p.title()));
    assert(lowercase(p.variable()) =~= p.id() + "_api_key"@);
    assert(lowercase(p.title()) =~= p.id());
    assert(p == Provider::Deepgram ==> p.id() + "_api_key"@ =~= "deepgram_api_key"@);
    assert(p == Provider::Mistral ==> p.id() + "_api_key"@ =~= "mistral_api_key"@);
    assert(p == Provider::Groq ==> p.id() + "_api_key"@ =~= "groq_api_key"@);
}

/// The first line that assigns a variable counts, and lines that do not assign
/// it do not matter.
pub proof fn the_first_assignment_counts(lines: Seq<Seq<char>>, var: Seq<char>, i: int)
    requires
        0 <= i < lines.len(),
        assigned(lines[i], var) is Some,
        forall|k: int| 0 <= k < i ==> assigned(#[trigger] lines[k], var) is None,
    ensures
        first_assigned(lines, var) == assigned(lines[i], var),
    decreases lines.len(),
{
    if i > 0 {
        let rest = lines.drop_first();
        assert(assigned(lines[0], var) is None);
        assert forall|k: int| 0 <= k < i - 1 implies assigned(#[trigger] rest[k], var) is None by {
            assert(rest[k] == lines[k + 1]);
        }
        the_first_assignment_counts(rest, var, i - 1);
    }
}

/// Where no line assigns a variable there is no value.
pub proof fn without_an_assignment_there_is_no_value(lines: Seq<Seq<char>>, var: Seq<char>)
    requires
        forall|k: int| 0 <= k < lines.len() ==> assigned(#[trigger] lines[k], var) is None,
    ensures
        first_assigned(lines, var) is None,
    decreases lines.len(),
{
    if lines.len() > 0 {
        let rest = lines.drop_first();
        assert(assigned(lines[0], var) is None);
        assert forall|k: int| 0 <= k < rest.len() implies assigned(#[trigger] rest[k], var) is None by {
            assert(rest[k] == lines[k + 1]);
        }
        without_an_assignment_there_is_no_value(rest, var);
    }
}

/// The text is one word of a shell line, without quotation marks around it.
pub open spec fn plain_word(s: Seq<char>) -> bool {
    &&& s.len() > 0
    &&& forall|i: int| 0 <= i < s.len() ==> !white_space(#[trigger] s[i])
    &&& s[0] != '"' && s[0] != '\''
    &&& s.last() != '"' && s.last() != '\''
}

/// No character of the text is `=`.
pub open spec fn without_equals(s: Seq<char>) -> bool {
    forall|i: int| 0 <= i < s.len() ==> #[trigger] s[i] != '='
}

/// A line such as `export NAME=value` or `export NAME="value" # words` assigns
/// the value, with the quotation marks around it taken away; what stands before
/// the name and what follows the word does not matter.
pub proof fn an_assignment_gives_the_value(
    before: Seq<char>,
    var: Seq<char>,
    value: Seq<char>,
    rest: Seq<char>,
)
    requires
        without_equals(before),
        without_equals(var),
        plain_word(value),
        rest.len() > 0 ==> white_space(rest[0]),
    ensures
        assigned(before + var.push('=') + value + rest, var) == Some(value),
        assigned(before + var.push('=') + (seq!['"'] + value + seq!['"']) + rest, var) == Some(value),
        assigned(before + var.push('=') + (seq!['\''] + value + seq!['\'']) + rest, var) == Some(
            value,
        ),
{
    lemma_assigned_word(before, var, value, rest);
    let double = seq!['"'] + value + seq!['"'];
    let single = seq!['\''] + value + seq!['\''];
    lemma_assigned_word(before, var, double, rest);
    lemma_assigned_word(before, var, single, rest);
    assert(stripped(value, '"') == value && stripped(value, '\'') == value);
    assert(stripped(double, '"') == value) by {
        assert(double.drop_first() =~= value + seq!['"']);
        assert((value + seq!['"'])[0] == value[0]);
        let tail = value + seq!['"'];
        assert(double[0] == '"');
        assert(stripped_start(tail, '"') == tail);
        assert(stripped_start(double, '"') == tail);
        assert(stripped_end(value, '"') == value);
        assert((value + seq!['"']).drop_last() =~= value);
        assert((value + seq!['"']).last() == '"');
    }
    assert(stripped(single, '"') == single);
    assert(stripped(single, '\'') == value) by {
        assert(single.drop_first() =~= value + seq!['\'']);
        assert((value + seq!['\''])[0] == value[0]);
        let tail = value + seq!['\''];
        assert(single[0] == '\'');
        assert(stripped_start(tail, '\'') == tail);
        assert(stripped_start(single, '\'') == tail);
        assert(stripped_end(value, '\'') == value);
        assert((value + seq!['\'']).drop_last() =~= value);
        assert((value + seq!['\'']).last() == '\'');
    }
}

proof fn lemma_assigned_word(
    before: Seq<char>,
    var: Seq<char>,
    word: Seq<char>,
    rest: Seq<char>,
)
    requires
        without_equals(before),
        without_equals(var),
        word.len() > 0,
        forall|i: int| 0 <= i < word.len() ==> !white_space(#[trigger] word[i]),
        rest.len() > 0 ==> white_space(rest[0]),
    ensures
        text_after(before + var.push('=') + word + rest, var.push('=')) == Some(word + rest),
        first_word(word + rest) == word,
{
    let line = before + var.push('=') + word + rest;
    let pattern = var.push('=');
    let at = before.len() as int;
    assert(line.subrange(at, at + pattern.len()) =~= pattern);
    assert(occurs_at(line, pattern, at));
    assert forall|j: int| 0 <= j < at implies !occurs_at(line, pattern, j) by {
        if occurs_at(line, pattern, j) {
            let part = line.subrange(j, j + pattern.len());
            assert(part[var.len() as int] == '=');
            let p = j + var.len();
            if p < at {
                assert(line[p] == before[p]);
            } else {
                assert(line[p] == var[p - at]);
            }
        }
    }
    assert(first_at(line, pattern, at));
    let k = choose|i: int| first_at(line, pattern, i);
    assert(k == at) by {
        if k < at {
            assert(!occurs_at(line, pattern, k));
        } else if at < k {
            assert(!occurs_at(line, pattern, at));
        }
    }
    assert(line.skip(at + pattern.len()) =~= word + rest);
    assert(!white_space(word[0]));
    assert((word + rest)[0] == word[0]);
    assert(trimmed_start(word + rest) == word + rest);
    lemma_word_len(word, rest);
    assert((word + rest).take(word.len() as int) =~= word);
}

proof fn lemma_word_len(word: Seq<char>, rest: Seq<char>)
    requires
        forall|i: int| 0 <= i < word.len() ==> !white_space(#[trigger] word[i]),
        rest.len() > 0 ==> white_space(rest[0]),
    ensures
        word_len(word + rest) == word.len(),
    decreases word.len(),
{
    let s = word + rest;
    if word.len() == 0 {
        assert(s =~= rest);
    } else {
        let w = word.drop_first();
        assert forall|i: int| 0 <= i < w.len() implies !white_space(#[trigger] w[i]) by {
            assert(w[i] == word[i + 1]);
        }
        assert(s[0] == word[0]);
        assert(s.drop_first() =~= w + rest);
        lemma_word_len(w, rest);
    }
}

/// A line without the name and an equals sign after it assigns nothing.
pub proof fn another_line_assigns_nothing(line: Seq<char>, var: Seq<char>)
    requires
        !has_text(line, var.push('=')),
    ensures
        assigned(line, var) is None,
{
}

/// Who has no key is told the variable that takes it, and the file and the
/// setting.
pub proof fn a_missing_key_is_explained(p: Provider, path: Seq<char>)
    ensures
        ({
            let words = (KeyError { provider: p }).words(Some(path));
            &&& has_text(words, p.title())
            &&& has_text(words, p.variable())
            &&& has_text(words, p.id() + "_api_key to "@)
            &&& has_text(words, path)
        }),
{
    let none = Seq::<char>::empty();
    let (a, b, c, d) = (
        "No "@,
        " API key found. Set "@,
        " in your shell, or add "@,
        "_api_key to "@,
    );
    let (t, v, i) = (p.title(), p.variable(), p.id());
    let words = a + t + b + v + c + i + d + path;
    a_part_stands_in_the_whole(a, t, b + v + c + i + d + path);
    assert(a + t + (b + v + c + i + d + path) =~= words);
    a_part_stands_in_the_whole(a + t + b, v, c + i + d + path);
    assert(a + t + b + v + (c + i + d + path) =~= words);
    a_part_stands_in_the_whole(a + t + b + v + c, i + d, path);
    assert(a + t + b + v + c + (i + d) + path =~= words);
    a_part_stands_in_the_whole(a + t + b + v + c + i + d, path, none);
    assert(words + none =~= words);
}

/// Without a setting the provider is chosen by the chain.
pub proof fn the_chain_is_the_default(c: ConfigView, name: Seq<char>)
    ensures
        c.default_provider is None ==> default_provider_of(c) == "auto"@,
        c.default_provider == Some(name) ==> default_provider_of(c) == name,
{
}

/// The value of a configuration shows each setting as it is.
pub proof fn a_configuration_is_shown_as_it_is(c: Config)
    ensures
        c@.groq_api_key == opt_text(c.groq_api_key),
        c@.deepgram_api_key == opt_text(c.deepgram_api_key),
        c@.mistral_api_key == opt_text(c.mistral_api_key),
        c@.model == opt_text(c.model),
        c@.language == opt_text(c.language),
        c@.backend == opt_text(c.backend),
        c@.audio_source == opt_text(c.audio_source),
        c@.default_provider == opt_text(c.default_provider),
        c.language matches Some(l) ==> c@.language == Some(l@),
        c.language is None ==> c@.language is None,
{
}

}
