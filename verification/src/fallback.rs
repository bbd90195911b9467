//! The fallback chain: which providers are tried, in which order, and which
//! transcription is taken.

use crate::config::{default_provider_of, key_of, Config, KeyEnv, Provider};
use crate::providers::{provider_key, TranscribeError};
use crate::ranking::Ranked;
use crate::stats::{
    a_ranking_keeps_the_providers, is_provider_ranking, record_of, score_of,
    the_better_provider_goes_first, ProviderStats, Stats,
};
use crate::text::{
    a_part_stands_in_the_whole, blank, has_text, same_text, texts, trim, trimmed,
    trimmed_is_empty_iff_blank,
};
use vstd::prelude::*;

verus! {

/// Why there is no transcription.
#[derive(Debug)]
pub enum FallbackError {
    /// The configuration asks for a provider that there is not.
    UnknownProvider(String),
    /// No provider has an API key.
    NoKeys,
    /// The provider that the configuration asks for failed.
    Forced(TranscribeError),
    /// Every provider failed or heard nothing.
    AllFailed,
}

impl FallbackError {
    /// The words for the error; `config_path` is the place of the
    /// configuration file, if it is known.
    pub open spec fn words(self, config_path: Option<Seq<char>>) -> Seq<char> {
        match self {
            FallbackError::UnknownProvider(name) => "Unknown default_provider '"@ + name@
                + "'. Use deepgram, mistral, groq, or auto."@,
            FallbackError::NoKeys => "No STT API keys configured. Set at least one of:\n  DEEPGRAM_API_KEY=...\n  GROQ_API_KEY=...\n  MISTRAL_API_KEY=..."@,
            FallbackError::Forced(e) => e.words(config_path),
            FallbackError::AllFailed => "All configured providers failed or returned empty results"@,
        }
    }

    /// The message for the user.
    pub fn message(&self, config_path: Option<&str>) -> (r: String)
        ensures
            r@ == self.words(
                match config_path {
                    Some(p) => Some(p@),
                    None => None,
                },
            ),
    {
        match self {
            FallbackError::UnknownProvider(name) => {
                let mut m = "Unknown default_provider '".to_owned();
                m.append(name.as_str());
                m.append("'. Use deepgram, mistral, groq, or auto.");
                m
            },
            FallbackError::NoKeys => "No STT API keys configured. Set at least one of:\n  DEEPGRAM_API_KEY=...\n  GROQ_API_KEY=...\n  MISTRAL_API_KEY=...".to_owned(),
            FallbackError::Forced(e) => e.message(config_path),
            FallbackError::AllFailed => "All configured providers failed or returned empty results".to_owned(),
        }
    }
}

// ── Who is tried ──────────────────────────────────────────────────

/// The provider of a name.
pub open spec fn named(name: Seq<char>) -> Option<Provider> {
    if name == Provider::Deepgram.id() {
        Some(Provider::Deepgram)
    } else if name == Provider::Mistral.id() {
        Some(Provider::Mistral)
    } else if name == Provider::Groq.id() {
        Some(Provider::Groq)
    } else {
        None
    }
}

/// The provider of a name.
pub fn provider_named(name: &str) -> (r: Option<Provider>)
    ensures
        r == named(name@),
{
    if same_text(name, "deepgram") {
        Some(Provider::Deepgram)
    } else if same_text(name, "mistral") {
        Some(Provider::Mistral)
    } else if same_text(name, "groq") {
        Some(Provider::Groq)
    } else {
        None
    }
}

/// The names of a list of providers.
pub open spec fn ids(providers: Seq<Provider>) -> Seq<Seq<char>> {
    providers.map_values(|p: Provider| p.id())
}

/// All providers, in the default order.
pub open spec fn all_providers() -> Seq<Provider> {
    seq![Provider::Deepgram, Provider::Mistral, Provider::Groq]
}

/// The providers that have an API key, in the default order.
pub open spec fn available(c: Config, env: KeyEnv) -> Seq<Provider> {
    all_providers().filter(|p: Provider| key_of(c, env, p) is Some)
}

proof fn lemma_names_are_distinct()
    ensures
        Provider::Deepgram.id() != Provider::Mistral.id(),
        Provider::Deepgram.id() != Provider::Groq.id(),
        Provider::Mistral.id() != Provider::Groq.id(),
        forall|p: Provider| #[trigger] named(p.id()) == Some(p),
{
    reveal_strlit("deepgram");
    reveal_strlit("mistral");
    reveal_strlit("groq");
    assert("deepgram"@.len() == 8 && "mistral"@.len() == 7 && "groq"@.len() == 4);
}

proof fn lemma_available(c: Config, env: KeyEnv)
    ensures
        available(c, env) == Seq::<Provider>::empty() + (if key_of(c, env, Provider::Deepgram) is Some {
            seq![Provider::Deepgram]
        } else {
            Seq::empty()
        }) + (if key_of(c, env, Provider::Mistral) is Some {
            seq![Provider::Mistral]
        } else {
            Seq::empty()
        }) + (if key_of(c, env, Provider::Groq) is Some {
            seq![Provider::Groq]
        } else {
            Seq::empty()
        }),
{
    reveal(Seq::filter);
    let pred = |p: Provider| key_of(c, env, p) is Some;
    let s3 = all_providers();
    let s2 = s3.drop_last();
    let s1 = s2.drop_last();
    let s0 = s1.drop_last();
    assert(s2 =~= seq![Provider::Deepgram, Provider::Mistral]);
    assert(s1 =~= seq![Provider::Deepgram]);
    assert(s0 =~= Seq::empty());
    assert(s0.filter(pred) =~= Seq::empty());
    assert(s1.filter(pred) =~= s0.filter(pred) + (if pred(Provider::Deepgram) {
        seq![Provider::Deepgram]
    } else {
        Seq::empty()
    }));
    assert(s2.filter(pred) =~= s1.filter(pred) + (if pred(Provider::Mistral) {
        seq![Provider::Mistral]
    } else {
        Seq::empty()
    }));
    assert(s3.filter(pred) =~= s2.filter(pred) + (if pred(Provider::Groq) {
        seq![Provider::Groq]
    } else {
        Seq::empty()
    }));
}

fn available_names(config: &Config, env: &KeyEnv) -> (r: Vec<String>)
    ensures
        texts(r@) == ids(available(*config, *env)),
{
    let mut r: Vec<String> = Vec::new();
    if provider_key(config, env, Provider::Deepgram).is_ok() {
        r.push(Provider::Deepgram.name().to_owned());
    }
    if provider_key(config, env, Provider::Mistral).is_ok() {
        r.push(Provider::Mistral.name().to_owned());
    }
    if provider_key(config, env, Provider::Groq).is_ok() {
        r.push(Provider::Groq.name().to_owned());
    }
    proof {
        lemma_available(*config, *env);
    }
    assert(texts(r@) =~= ids(available(*config, *env)));
    r
}

// ── The chain ─────────────────────────────────────────────────────

/// A transcription in progress.
#[derive(Debug)]
pub enum Transcription {
    /// Call the first provider of the queue. Where the configuration asks for
    /// it there is no other.
    Calling { queue: Vec<Provider>, forced: bool },
    Done(Result<String, FallbackError>),
}

/// A transcription as a mathematical value.
pub ghost enum Progress {
    Calling { queue: Seq<Provider>, forced: bool },
    Done(Result<Seq<char>, FallbackError>),
}

impl View for Transcription {
    type V = Progress;

    open spec fn view(&self) -> Progress {
        match self {
            Transcription::Calling { queue, forced } => Progress::Calling {
                queue: queue@,
                forced: *forced,
            },
            Transcription::Done(Ok(s)) => Progress::Done(Ok(s@)),
            Transcription::Done(Err(e)) => Progress::Done(Err(*e)),
        }
    }
}

/// How a transcription starts: with the provider that the configuration asks
/// for alone, or with all that have a key, ranked by their records.
pub open spec fn starts_as(
    c: Config,
    env: KeyEnv,
    records: Map<Seq<char>, ProviderStats>,
    s: Progress,
) -> bool {
    let wanted = default_provider_of(c@);
    if wanted == "auto"@ {
        if available(c, env).len() == 0 {
            s == Progress::Done(Err(FallbackError::NoKeys))
        } else {
            &&& s matches Progress::Calling { queue, forced }
            &&& !forced
            &&& is_provider_ranking(records, ids(available(c, env)), ids(queue))
        }
    } else {
        match named(wanted) {
            Some(p) => s == (Progress::Calling { queue: seq![p], forced: true }),
            None => s matches Progress::Done(Err(FallbackError::UnknownProvider(name))) && name@
                == wanted,
        }
    }
}

/// What is on record after an attempt.
pub open spec fn recorded(
    records: Map<Seq<char>, ProviderStats>,
    provider: Provider,
    elapsed_ms: u64,
    result: Result<String, TranscribeError>,
) -> Map<Seq<char>, ProviderStats> {
    let before = record_of(records, provider.id());
    records.insert(
        provider.id(),
        match result {
            Ok(text) => before.after_success(elapsed_ms, text@.len() as usize),
            Err(_) => before.after_failure(elapsed_ms),
        },
    )
}

/// The counters can take the attempt.
pub open spec fn has_room(
    records: Map<Seq<char>, ProviderStats>,
    provider: Provider,
    elapsed_ms: u64,
    result: Result<String, TranscribeError>,
) -> bool {
    let before = record_of(records, provider.id());
    match result {
        Ok(text) => before.has_room_for_success(elapsed_ms, text@.len() as usize),
        Err(_) => before.has_room_for_failure(elapsed_ms),
    }
}

impl Progress {
    /// There is someone to call.
    pub open spec fn wf(self) -> bool {
        self matches Progress::Calling { queue, .. } ==> queue.len() > 0
    }

    /// The provider to call.
    pub open spec fn due(self) -> Option<Provider> {
        match self {
            Progress::Calling { queue, .. } => Some(queue[0]),
            Progress::Done(_) => None,
        }
    }

    /// The state after an attempt. A forced provider has the last word; in
    /// the chain the first text that is not blank wins, and anything else
    /// means that the next provider is tried.
    pub open spec fn after(self, result: Result<String, TranscribeError>) -> Progress {
        match self {
            Progress::Calling { queue, forced } => match result {
                Ok(text) => if forced || !blank(text@) {
                    Progress::Done(Ok(trimmed(text@)))
                } else if queue.len() == 1 {
                    Progress::Done(Err(FallbackError::AllFailed))
                } else {
                    Progress::Calling { queue: queue.drop_first(), forced }
                },
                Err(e) => if forced {
                    Progress::Done(Err(FallbackError::Forced(e)))
                } else if queue.len() == 1 {
                    Progress::Done(Err(FallbackError::AllFailed))
                } else {
                    Progress::Calling { queue: queue.drop_first(), forced }
                },
            },
            Progress::Done(_) => self,
        }
    }
}

impl Transcription {
    /// Fallback chain driven by historical provider performance.
    ///
    /// When `default_provider` is a specific name, only that provider is
    /// tried. When it is "auto", providers are ordered by
    /// [`Stats::ranked_providers`].
    pub fn transcribe_with_fallback(config: &Config, env: &KeyEnv, stats: &Stats) -> (r:
        Transcription)
        requires
            stats.wf(),
        ensures
            r@.wf(),
            starts_as(*config, *env, stats@, r@),
    {
        let wanted = config.default_provider();
        if !same_text(wanted, "auto") {
            return match provider_named(wanted) {
                Some(p) => {
                    let queue = vec![p];
                    assert(queue@ =~= seq![p]);
                    Transcription::Calling { queue, forced: true }
                },
                None => Transcription::Done(Err(FallbackError::UnknownProvider(wanted.to_owned()))),
            };
        }
        let names = available_names(config, env);
        assert(texts(names@).len() == names@.len());
        if names.len() == 0 {
            return Transcription::Done(Err(FallbackError::NoKeys));
        }
        let ranked = stats.ranked_providers(names.as_slice());
        let ghost known = ids(available(*config, *env));
        proof {
            a_ranking_keeps_the_providers(stats@, known, texts(ranked@));
            lemma_names_are_distinct();
        }
        let mut queue: Vec<Provider> = Vec::new();
        for i in 0..ranked.len()
            invariant
                known == ids(available(*config, *env)),
                forall|p: Seq<char>| texts(ranked@).contains(p) <==> known.contains(p),
                forall|p: Provider| #[trigger] named(p.id()) == Some(p),
                ids(queue@) == texts(ranked@).take(i as int),
        {
            proof {
                assert(texts(ranked@)[i as int] == ranked@[i as int]@);
                assert(texts(ranked@).contains(ranked@[i as int]@));
                assert(known.contains(ranked@[i as int]@));
                let k = choose|k: int| 0 <= k < known.len() && known[k] == ranked@[i as int]@;
                assert(known[k] == available(*config, *env)[k].id());
            }
            if let Some(p) = provider_named(ranked[i].as_str()) {
                let ghost before = queue@;
                queue.push(p);
                assert(ids(queue@) =~= ids(before).push(p.id()));
                assert(texts(ranked@).take(i + 1) =~= texts(ranked@).take(i as int).push(p.id()));
            }
        }
        assert(texts(ranked@).take(ranked@.len() as int) =~= texts(ranked@));
        assert(ids(queue@).len() == queue@.len());
        Transcription::Calling { queue, forced: false }
    }

    /// The provider to call.
    pub fn action(&self) -> (r: Option<Provider>)
        requires
            self@.wf(),
        ensures
            r == self@.due(),
    {
        match self {
            Transcription::Calling { queue, .. } => Some(queue[0]),
            Transcription::Done(_) => None,
        }
    }

    /// The state after an attempt that took so long; the attempt is recorded.
    pub fn next(
        self,
        elapsed_ms: u64,
        result: Result<String, TranscribeError>,
        stats: &mut Stats,
    ) -> (r: Transcription)
        requires
            self@.wf(),
            old(stats).wf(),
            self@.due() matches Some(p) ==> has_room(old(stats)@, p, elapsed_ms, result),
        ensures
            r@.wf(),
            r@ == self@.after(result),
            final(stats).wf(),
            final(stats)@ == match self@.due() {
                Some(p) => recorded(old(stats)@, p, elapsed_ms, result),
                None => old(stats)@,
            },
    {
        let (queue, forced) = match self {
            Transcription::Done(d) => return Transcription::Done(d),
            Transcription::Calling { queue, forced } => (queue, forced),
        };
        let provider = queue[0];
        match &result {
            Ok(text) => {
                let len: usize = text.as_str().unicode_len();
                stats.record_success(provider.name(), elapsed_ms, len)
            },
            Err(_) => stats.record_failure(provider.name(), elapsed_ms),
        }
        let failure = match result {
            Ok(text) => {
                let clean = trim(text.as_str());
                proof {
                    trimmed_is_empty_iff_blank(text@);
                }
                if forced || !clean.is_empty() {
                    return Transcription::Done(Ok(clean.to_owned()));
                }
                None
            },
            Err(e) => Some(e),
        };
        if forced {
            if let Some(e) = failure {
                return Transcription::Done(Err(FallbackError::Forced(e)));
            }
        }
        if queue.len() == 1 {
            return Transcription::Done(Err(FallbackError::AllFailed));
        }
        let mut rest = queue;
        rest.remove(0);
        assert(rest@ =~= queue@.drop_first());
        Transcription::Calling { queue: rest, forced }
    }

    /// The result, once there is one.
    pub fn result(self) -> (r: Option<Result<String, FallbackError>>)
        ensures
            match self {
                Transcription::Done(d) => r == Some(d),
                _ => r is None,
            },
    {
        match self {
            Transcription::Done(d) => Some(d),
            _ => None,
        }
    }
}

// ── Laws ──────────────────────────────────────────────────────────

/// The attempt brought nothing: it failed, or the text is blank.
pub open spec fn in_vain(result: Result<String, TranscribeError>) -> bool {
    match result {
        Ok(text) => blank(text@),
        Err(_) => true,
    }
}

impl Progress {
    /// The state after a list of attempts.
    pub open spec fn run(self, results: Seq<Result<String, TranscribeError>>) -> Progress
        decreases results.len(),
    {
        if results.len() == 0 {
            self
        } else {
            self.after(results[0]).run(results.drop_first())
        }
    }

    /// The providers that were called for a list of attempts.
    pub open spec fn called(self, results: Seq<Result<String, TranscribeError>>) -> Seq<Provider>
        decreases results.len(),
    {
        if results.len() == 0 {
            Seq::empty()
        } else {
            match self.due() {
                Some(p) => seq![p] + self.after(results[0]).called(results.drop_first()),
                None => Seq::empty(),
            }
        }
    }
}

proof fn lemma_nothing_is_called_after_the_end(
    r: Result<Seq<char>, FallbackError>,
    results: Seq<Result<String, TranscribeError>>,
)
    ensures
        Progress::Done(r).run(results) == Progress::Done(r),
        Progress::Done(r).called(results).len() == 0,
    decreases results.len(),
{
    if results.len() > 0 {
        lemma_nothing_is_called_after_the_end(r, results.drop_first());
    }
}

/// The first provider of the chain that hears something wins: its text is the
/// transcription, and no one is called after it.
pub proof fn the_first_text_wins(
    queue: Seq<Provider>,
    results: Seq<Result<String, TranscribeError>>,
    k: int,
)
    requires
        0 <= k < queue.len(),
        k < results.len(),
        forall|i: int| 0 <= i < k ==> in_vain(#[trigger] results[i]),
        !in_vain(results[k]),
    ensures
        ({
            let s = Progress::Calling { queue, forced: false };
            &&& results[k] matches Ok(text) && s.run(results) == Progress::Done(
                Ok(trimmed(text@)),
            )
            &&& s.called(results) == queue.take(k + 1)
        }),
    decreases k,
{
    let s = Progress::Calling { queue, forced: false };
    let t = s.after(results[0]);
    if k == 0 {
        if let Progress::Done(r) = t {
            lemma_nothing_is_called_after_the_end(r, results.drop_first());
        }
        assert(s.called(results) =~= queue.take(1));
    } else {
        let rest = results.drop_first();
        assert(in_vain(results[0]));
        assert forall|i: int| 0 <= i < k - 1 implies in_vain(#[trigger] rest[i]) by {
            assert(rest[i] == results[i + 1]);
        }
        the_first_text_wins(queue.drop_first(), rest, k - 1);
        assert(s.called(results) =~= queue.take(k + 1));
    }
}

/// Where no provider of the chain hears anything, each was called once, in the
/// order of the chain, and that is the error.
pub proof fn every_provider_is_tried(
    queue: Seq<Provider>,
    results: Seq<Result<String, TranscribeError>>,
)
    requires
        queue.len() > 0,
        results.len() >= queue.len(),
        forall|i: int| 0 <= i < queue.len() ==> in_vain(#[trigger] results[i]),
    ensures
        ({
            let s = Progress::Calling { queue, forced: false };
            &&& s.run(results) == Progress::Done(Err(FallbackError::AllFailed))
            &&& s.called(results) == queue
        }),
    decreases queue.len(),
{
    let s = Progress::Calling { queue, forced: false };
    let rest = results.drop_first();
    assert(in_vain(results[0]));
    if queue.len() == 1 {
        lemma_nothing_is_called_after_the_end(Err(FallbackError::AllFailed), rest);
        assert(s.called(results) =~= queue);
    } else {
        assert forall|i: int| 0 <= i < queue.len() - 1 implies in_vain(#[trigger] rest[i]) by {
            assert(rest[i] == results[i + 1]);
        }
        every_provider_is_tried(queue.drop_first(), rest);
        assert(s.called(results) =~= queue);
    }
}

/// A provider that the configuration asks for is the only one that is called,
/// and it is called once, whatever comes of it.
pub proof fn a_forced_provider_is_called_alone(
    provider: Provider,
    results: Seq<Result<String, TranscribeError>>,
)
    requires
        results.len() > 0,
    ensures
        ({
            let s = Progress::Calling { queue: seq![provider], forced: true };
            &&& s.called(results) == seq![provider]
            &&& s.run(results) == match results[0] {
                Ok(text) => Progress::Done(Ok(trimmed(text@))),
                Err(e) => Progress::Done(Err(FallbackError::Forced(e))),
            }
        }),
{
    let s = Progress::Calling { queue: seq![provider], forced: true };
    if let Progress::Done(r) = s.after(results[0]) {
        lemma_nothing_is_called_after_the_end(r, results.drop_first());
    }
    assert(s.called(results) =~= seq![provider]);
}

/// The chain of a transcription holds the providers that have a key and no
/// others, each once.
pub proof fn the_chain_holds_the_available_providers(
    c: Config,
    env: KeyEnv,
    records: Map<Seq<char>, ProviderStats>,
    queue: Seq<Provider>,
)
    requires
        default_provider_of(c@) == "auto"@,
        starts_as(c, env, records, Progress::Calling { queue, forced: false }),
    ensures
        queue.len() == available(c, env).len(),
        queue.no_duplicates(),
        forall|p: Provider| queue.contains(p) <==> key_of(c, env, p) is Some,
{
    let avail = available(c, env);
    lemma_available(c, env);
    lemma_names_are_distinct();
    a_ranking_keeps_the_providers(records, ids(avail), ids(queue));
    assert(ids(avail).no_duplicates()) by {
        assert forall|i: int, j: int| 0 <= i < avail.len() && 0 <= j < avail.len() && i != j implies
            ids(avail)[i] != ids(avail)[j] by {
            assert(avail[i] != avail[j]);
            assert(named(avail[i].id()) == Some(avail[i]));
            assert(named(avail[j].id()) == Some(avail[j]));
        }
    }
    assert forall|i: int, j: int| 0 <= i < queue.len() && 0 <= j < queue.len() && i != j implies
        queue[i] != queue[j] by {
        assert(ids(queue)[i] != ids(queue)[j]);
    }
    assert forall|p: Provider| queue.contains(p) <==> key_of(c, env, p) is Some by {
        assert(avail.contains(p) <==> key_of(c, env, p) is Some) by {
            if key_of(c, env, p) is Some {
                if p == Provider::Deepgram {
                    assert(avail[0] == p);
                } else if p == Provider::Groq {
                    assert(avail.last() == p);
                } else if key_of(c, env, Provider::Deepgram) is Some {
                    assert(avail[1] == p);
                } else {
                    assert(avail[0] == p);
                }
            }
        }
        if queue.contains(p) {
            let k = choose|k: int| 0 <= k < queue.len() && queue[k] == p;
            assert(ids(queue)[k] == p.id());
            assert(ids(queue).contains(p.id()));
            assert(ids(avail).contains(p.id()));
            let m = choose|m: int| 0 <= m < ids(avail).len() && ids(avail)[m] == p.id();
            assert(named(avail[m].id()) == Some(avail[m]));
            assert(avail[m] == p);
        }
        if avail.contains(p) {
            let k = choose|k: int| 0 <= k < avail.len() && avail[k] == p;
            assert(ids(avail)[k] == p.id());
            assert(ids(avail).contains(p.id()));
            assert(ids(queue).contains(p.id()));
            let m = choose|m: int| 0 <= m < ids(queue).len() && ids(queue)[m] == p.id();
            assert(named(queue[m].id()) == Some(queue[m]));
            assert(queue[m] == p);
        }
    }
}

/// The chain begins with the best provider: none of the others has a better
/// record.
pub proof fn the_best_provider_is_called_first(
    c: Config,
    env: KeyEnv,
    records: Map<Seq<char>, ProviderStats>,
    queue: Seq<Provider>,
    j: int,
)
    requires
        default_provider_of(c@) == "auto"@,
        starts_as(c, env, records, Progress::Calling { queue, forced: false }),
        0 <= j < queue.len(),
    ensures
        !score_of(record_of(records, queue[j].id())).outranks(
            score_of(record_of(records, queue[0].id())),
        ),
{
    if score_of(record_of(records, queue[j].id())).outranks(
        score_of(record_of(records, queue[0].id())),
    ) {
        assert(ids(queue)[j] == queue[j].id());
        assert(ids(queue)[0] == queue[0].id());
        the_better_provider_goes_first(records, ids(available(c, env)), ids(queue), j, 0);
    }
}

/// A transcription that the chain gives is not blank, and has no white space
/// around it.
pub proof fn the_chain_gives_no_blank_text(
    queue: Seq<Provider>,
    results: Seq<Result<String, TranscribeError>>,
)
    requires
        queue.len() > 0,
    ensures
        (Progress::Calling { queue, forced: false }).run(results) matches Progress::Done(Ok(s))
            ==> s.len() > 0 && trimmed(s) == s,
    decreases results.len(),
{
    if results.len() > 0 {
        let rest = results.drop_first();
        match (Progress::Calling { queue, forced: false }).after(results[0]) {
            Progress::Done(r) => {
                lemma_nothing_is_called_after_the_end(r, rest);
                if let Ok(text) = results[0] {
                    trimmed_is_empty_iff_blank(text@);
                    crate::text::trimming_twice_is_trimming_once(text@);
                }
            },
            Progress::Calling { queue: q, .. } => {
                the_chain_gives_no_blank_text(q, rest);
            },
        }
    }
}

/// Each attempt is one more call on the record of its provider, and leaves the
/// records of the others as they are.
pub proof fn an_attempt_is_recorded_once(
    records: Map<Seq<char>, ProviderStats>,
    provider: Provider,
    elapsed_ms: u64,
    result: Result<String, TranscribeError>,
    other: Provider,
)
    requires
        has_room(records, provider, elapsed_ms, result),
        other != provider,
    ensures
        ({
            let after = recorded(records, provider, elapsed_ms, result);
            &&& record_of(after, provider.id()).calls == record_of(records, provider.id()).calls + 1
            &&& record_of(after, other.id()) == record_of(records, other.id())
        }),
{
    lemma_names_are_distinct();
}

/// Each provider goes by its own name, and no other word names one.
pub proof fn a_provider_is_asked_for_by_its_name(name: Seq<char>)
    ensures
        named("deepgram"@) == Some(Provider::Deepgram),
        named("mistral"@) == Some(Provider::Mistral),
        named("groq"@) == Some(Provider::Groq),
        named(name) matches Some(p) ==> name == p.id(),
        named(name) is None <==> name != "deepgram"@ && name != "mistral"@ && name != "groq"@,
        named("auto"@) is None,
{
    lemma_names_are_distinct();
    reveal_strlit("auto");
    reveal_strlit("deepgram");
    reveal_strlit("mistral");
    reveal_strlit("groq");
    assert("auto"@.len() == 4 && "auto"@[0] == 'a');
    assert("groq"@.len() == 4 && "groq"@[0] == 'g');
    assert("deepgram"@.len() == 8);
    assert("mistral"@.len() == 7);
}

/// A provider that the configuration names is called, whether it has a key or
/// not and whatever is on record; a name that is no provider's is the error.
pub proof fn the_configured_provider_is_called(
    c: Config,
    env: KeyEnv,
    records: Map<Seq<char>, ProviderStats>,
    s: Progress,
    p: Provider,
)
    requires
        starts_as(c, env, records, s),
    ensures
        default_provider_of(c@) == p.id() ==> s == (Progress::Calling {
            queue: seq![p],
            forced: true,
        }),
        default_provider_of(c@) != "deepgram"@ && default_provider_of(c@) != "mistral"@
            && default_provider_of(c@) != "groq"@ && default_provider_of(c@) != "auto"@ ==> (
        s matches Progress::Done(Err(FallbackError::UnknownProvider(name))) && name@
            == default_provider_of(c@)),
{
    lemma_names_are_distinct();
    a_provider_is_asked_for_by_its_name(default_provider_of(c@));
    if default_provider_of(c@) == p.id() {
        assert(named(p.id()) == Some(p));
    }
}

/// Without a configured provider someone is called exactly if any provider has a
/// key, and otherwise that is the error.
pub proof fn a_key_is_enough(
    c: Config,
    env: KeyEnv,
    records: Map<Seq<char>, ProviderStats>,
    s: Progress,
)
    requires
        starts_as(c, env, records, s),
        default_provider_of(c@) == "auto"@,
    ensures
        ({
            let any = key_of(c, env, Provider::Deepgram) is Some || key_of(
                c,
                env,
                Provider::Mistral,
            ) is Some || key_of(c, env, Provider::Groq) is Some;
            &&& any ==> (s matches Progress::Calling { queue, forced } && queue.len() > 0
                && !forced)
            &&& !any ==> s == Progress::Done(Err(FallbackError::NoKeys))
        }),
{
    lemma_available(c, env);
    if let Progress::Calling { queue, .. } = s {
        the_chain_holds_the_available_providers(c, env, records, queue);
    }
}

/// Providers with nothing on record are called in the order deepgram, mistral,
/// groq.
pub proof fn without_records_the_default_order_stands(
    c: Config,
    env: KeyEnv,
    records: Map<Seq<char>, ProviderStats>,
    queue: Seq<Provider>,
)
    requires
        starts_as(c, env, records, Progress::Calling { queue, forced: false }),
        forall|p: Provider| record_of(records, #[trigger] p.id()).calls == 0,
    ensures
        key_of(c, env, Provider::Deepgram) is Some ==> queue[0] == Provider::Deepgram,
        key_of(c, env, Provider::Groq) is Some ==> queue.last() == Provider::Groq,
        key_of(c, env, Provider::Mistral) is Some && key_of(c, env, Provider::Deepgram) is None
            ==> queue[0] == Provider::Mistral,
        key_of(c, env, Provider::Mistral) is Some && key_of(c, env, Provider::Groq) is None
            ==> queue.last() == Provider::Mistral,
{
    let avail = available(c, env);
    lemma_available(c, env);
    lemma_names_are_distinct();
    assert forall|i: int| 0 <= i < ids(avail).len() implies record_of(
        records,
        #[trigger] ids(avail)[i],
    ).calls == 0 by {
        assert(ids(avail)[i] == avail[i].id());
    }
    crate::stats::without_data_the_default_order_stands(records, ids(avail), ids(queue));
    assert(queue.len() == ids(queue).len());
    assert forall|i: int| 0 <= i < queue.len() implies queue[i] == avail[i] by {
        assert(ids(queue)[i] == queue[i].id());
        assert(ids(avail)[i] == avail[i].id());
        assert(named(queue[i].id()) == Some(queue[i]));
        assert(named(avail[i].id()) == Some(avail[i]));
    }
    assert(queue =~= avail);
}

/// An answer is recorded as a success with the characters of its text, blank or
/// not, and an error as a failure; both with the time that they took.
pub proof fn an_attempt_is_recorded_as_what_it_was(
    records: Map<Seq<char>, ProviderStats>,
    provider: Provider,
    elapsed_ms: u64,
    result: Result<String, TranscribeError>,
)
    requires
        has_room(records, provider, elapsed_ms, result),
        result matches Ok(text) ==> text@.len() <= usize::MAX,
    ensures
        ({
            let before = record_of(records, provider.id());
            let after = record_of(
                recorded(records, provider, elapsed_ms, result),
                provider.id(),
            );
            &&& after.total_latency_ms == before.total_latency_ms + elapsed_ms
            &&& result matches Ok(text) ==> {
                &&& after.successes == before.successes + 1
                &&& after.failures == before.failures
                &&& after.total_chars == before.total_chars + text@.len()
            }
            &&& result is Err ==> {
                &&& after.successes == before.successes
                &&& after.failures == before.failures + 1
                &&& after.total_chars == before.total_chars
            }
        }),
{
}

/// The errors say what is wrong: the name that is unknown, the variables that can
/// hold a key, or what the provider said.
pub proof fn a_failed_transcription_is_explained(
    name: String,
    e: TranscribeError,
    path: Option<Seq<char>>,
)
    ensures
        has_text(FallbackError::UnknownProvider(name).words(path), name@),
        FallbackError::Forced(e).words(path) == e.words(path),
        FallbackError::NoKeys.words(path)
            == "No STT API keys configured. Set at least one of:\n  DEEPGRAM_API_KEY=...\n  GROQ_API_KEY=...\n  MISTRAL_API_KEY=..."@,
        FallbackError::AllFailed.words(path)
            == "All configured providers failed or returned empty results"@,
{
    a_part_stands_in_the_whole(
        "Unknown default_provider '"@,
        name@,
        "'. Use deepgram, mistral, groq, or auto."@,
    );
}

/// The value of a transcription shows it as it is.
pub proof fn a_transcription_is_shown_as_it_is(t: Transcription)
    ensures
        t matches Transcription::Calling { queue, forced } ==> t@ == (Progress::Calling {
            queue: queue@,
            forced,
        }),
        t matches Transcription::Done(Ok(s)) ==> t@ == Progress::Done(Ok(s@)),
        t matches Transcription::Done(Err(e)) ==> t@ == Progress::Done(Err(e)),
{
}

}
