//! Per-provider usage statistics and the order in which providers are tried.

use crate::ranking::{
    a_list_has_one_ranking, equals_keep_their_order, is_ranking, lists_position, ranking,
    ranks_before, Ranked,
};
use crate::text::{
    decimal, decimal_string, fill_left, fill_right, filled_left, filled_right, precedes,
    push_repeated, repeated, text_less, text_order_is_one_sided, text_order_is_transitive, texts,
};
use vstd::prelude::*;

verus! {

// ── Counters ──────────────────────────────────────────────────────

/// The record of one provider.
#[derive(Debug, Clone, Copy, PartialEq, Eq, Structural)]
pub struct ProviderStats {
    /// Total API calls attempted (not just fallbacks — every call)
    pub calls: u64,
    /// Calls that returned valid text
    pub successes: u64,
    /// Calls that errored
    pub failures: u64,
    /// Total latency in milliseconds across all calls
    pub total_latency_ms: u64,
    /// Total characters of text returned across all successful calls
    pub total_chars: u64,
}

/// The record of a provider that was never called.
pub open spec fn no_record() -> ProviderStats {
    ProviderStats { calls: 0, successes: 0, failures: 0, total_latency_ms: 0, total_chars: 0 }
}

impl Default for ProviderStats {
    fn default() -> (r: ProviderStats)
        ensures
            r == no_record(),
    {
        ProviderStats { calls: 0, successes: 0, failures: 0, total_latency_ms: 0, total_chars: 0 }
    }
}

impl ProviderStats {
    /// Every call is counted once as a success or a failure.
    pub open spec fn adds_up(self) -> bool {
        self.calls == self.successes + self.failures
    }

    /// The counters can take one more success.
    pub open spec fn has_room_for_success(self, latency_ms: u64, char_count: usize) -> bool {
        &&& self.calls < u64::MAX
        &&& self.successes < u64::MAX
        &&& self.total_latency_ms + latency_ms <= u64::MAX
        &&& self.total_chars + char_count <= u64::MAX
    }

    /// The counters can take one more failure.
    pub open spec fn has_room_for_failure(self, latency_ms: u64) -> bool {
        &&& self.calls < u64::MAX
        &&& self.failures < u64::MAX
        &&& self.total_latency_ms + latency_ms <= u64::MAX
    }

    /// The record after one more success.
    pub open spec fn after_success(self, latency_ms: u64, char_count: usize) -> ProviderStats {
        ProviderStats {
            calls: (self.calls + 1) as u64,
            successes: (self.successes + 1) as u64,
            failures: self.failures,
            total_latency_ms: (self.total_latency_ms + latency_ms) as u64,
            total_chars: (self.total_chars + char_count) as u64,
        }
    }

    /// The record after one more failure.
    pub open spec fn after_failure(self, latency_ms: u64) -> ProviderStats {
        ProviderStats {
            calls: (self.calls + 1) as u64,
            successes: self.successes,
            failures: (self.failures + 1) as u64,
            total_latency_ms: (self.total_latency_ms + latency_ms) as u64,
            total_chars: self.total_chars,
        }
    }
}

// ── The statistics ────────────────────────────────────────────────

/// Per-provider usage statistics, ordered by the providers' names.
#[derive(Debug, Clone)]
pub struct Stats {
    pub providers: Vec<(String, ProviderStats)>,
}

/// Entry `i` of the list is that of `provider`.
pub open spec fn listed_at(
    entries: Seq<(String, ProviderStats)>,
    provider: Seq<char>,
    i: int,
) -> bool {
    0 <= i < entries.len() && entries[i].0@ == provider
}

/// The names of the list are in strictly ascending order, so none is in it
/// twice.
pub open spec fn ascending(entries: Seq<(String, ProviderStats)>) -> bool {
    forall|i: int, j: int|
        0 <= i < j < entries.len() ==> text_less(
            (#[trigger] entries[i]).0@,
            (#[trigger] entries[j]).0@,
        )
}

/// What is on record about a provider; nothing at all counts as zeros.
pub open spec fn record_of(
    records: Map<Seq<char>, ProviderStats>,
    provider: Seq<char>,
) -> ProviderStats {
    if records.dom().contains(provider) {
        records[provider]
    } else {
        no_record()
    }
}

impl View for Stats {
    type V = Map<Seq<char>, ProviderStats>;

    /// The record of each provider.
    open spec fn view(&self) -> Map<Seq<char>, ProviderStats> {
        Map::new(
            |p: Seq<char>| exists|i: int| listed_at(self.providers@, p, i),
            |p: Seq<char>| self.providers@[choose|i: int| listed_at(self.providers@, p, i)].1,
        )
    }
}

proof fn lemma_listed_once(entries: Seq<(String, ProviderStats)>, i: int, j: int)
    requires
        ascending(entries),
        0 <= i < entries.len(),
        0 <= j < entries.len(),
        entries[i].0@ == entries[j].0@,
    ensures
        i == j,
{
    if i < j {
        text_order_is_one_sided(entries[i].0@, entries[j].0@);
    } else if j < i {
        text_order_is_one_sided(entries[j].0@, entries[i].0@);
    }
}

impl Stats {
    /// The names are in ascending order, none twice.
    pub open spec fn wf(&self) -> bool {
        ascending(self.providers@)
    }

    proof fn lemma_record_at(&self, i: int)
        requires
            self.wf(),
            0 <= i < self.providers@.len(),
        ensures
            self@.dom().contains(self.providers@[i].0@),
            self@[self.providers@[i].0@] == self.providers@[i].1,
    {
        let p = self.providers@[i].0@;
        assert(listed_at(self.providers@, p, i));
        let j = choose|j: int| listed_at(self.providers@, p, j);
        lemma_listed_once(self.providers@, i, j);
    }

    /// Statistics with nothing on record.
    pub fn new() -> (r: Stats)
        ensures
            r.wf(),
            r@ == Map::<Seq<char>, ProviderStats>::empty(),
    {
        let r = Stats { providers: Vec::new() };
        assert(r@ =~= Map::<Seq<char>, ProviderStats>::empty());
        r
    }

    /// The position of a provider's entry, or else the position where it
    /// belongs.
    fn slot(&self, provider: &str) -> (r: (usize, bool))
        requires
            self.wf(),
        ensures
            r.0 <= self.providers@.len(),
            r.1 ==> listed_at(self.providers@, provider@, r.0 as int),
            !r.1 ==> forall|j: int|
                r.0 <= j < self.providers@.len() ==> text_less(
                    provider@,
                    (#[trigger] self.providers@[j]).0@,
                ),
            forall|j: int|
                0 <= j < r.0 ==> text_less((#[trigger] self.providers@[j]).0@, provider@),
            r.1 == self@.dom().contains(provider@),
    {
        let mut i: usize = 0;
        while i < self.providers.len() && precedes(self.providers[i].0.as_str(), provider)
            invariant
                i <= self.providers@.len(),
                forall|j: int|
                    0 <= j < i ==> text_less((#[trigger] self.providers@[j]).0@, provider@),
            decreases self.providers@.len() - i,
        {
            i += 1;
        }
        let found = i < self.providers.len() && !precedes(provider, self.providers[i].0.as_str());
        proof {
            if found {
                self.lemma_record_at(i as int);
            } else {
                assert forall|j: int| i <= j < self.providers@.len() implies text_less(
                    provider@,
                    (#[trigger] self.providers@[j]).0@,
                ) by {
                    if j > i {
                        text_order_is_transitive(
                            provider@,
                            self.providers@[i as int].0@,
                            self.providers@[j].0@,
                        );
                    }
                }
                if self@.dom().contains(provider@) {
                    let j = choose|j: int| listed_at(self.providers@, provider@, j);
                    if j < i {
                        text_order_is_one_sided(self.providers@[j].0@, provider@);
                    } else {
                        text_order_is_one_sided(provider@, self.providers@[j].0@);
                    }
                }
            }
        }
        (i, found)
    }

    /// What is on record about a provider.
    pub fn get(&self, provider: &str) -> (r: Option<ProviderStats>)
        requires
            self.wf(),
        ensures
            match r {
                Some(s) => self@.dom().contains(provider@) && s == self@[provider@],
                None => !self@.dom().contains(provider@),
            },
    {
        let (i, found) = self.slot(provider);
        if found {
            proof {
                self.lemma_record_at(i as int);
            }
            Some(self.providers[i].1)
        } else {
            None
        }
    }

    /// Puts a provider's record in the place of what was on record about it.
    pub fn insert(&mut self, provider: &str, stats: ProviderStats)
        requires
            old(self).wf(),
        ensures
            final(self).wf(),
            final(self)@ == old(self)@.insert(provider@, stats),
    {
        let (i, found) = self.slot(provider);
        let ghost before = self.providers@;
        let entry = (provider.to_owned(), stats);
        if found {
            self.providers.set(i, entry);
            assert(self.providers@ == before.update(i as int, entry));
        } else {
            self.providers.insert(i, entry);
            assert(self.providers@ == before.insert(i as int, entry));
        }
        proof {
            let after = self.providers@;
            let shift = |j: int|
                if found || j < i {
                    j
                } else {
                    j + 1
                };
            assert forall|j: int| 0 <= j < before.len() && !(found && j == i) implies {
                let k = #[trigger] shift(j);
                0 <= k < after.len() && k != i && after[k] == before[j]
            } by {}
            assert(self.wf()) by {
                assert forall|a: int, b: int| 0 <= a < b < after.len() implies text_less(
                    (#[trigger] after[a]).0@,
                    (#[trigger] after[b]).0@,
                ) by {
                    let x = if found || a < i {
                        a
                    } else {
                        a - 1
                    };
                    let y = if found || b < i {
                        b
                    } else {
                        b - 1
                    };
                    if a != i && b != i {
                        assert(after[a] == before[x] && after[b] == before[y]);
                    } else if a == i {
                        assert(after[b] == before[y]);
                        if found {
                            assert(text_less(before[i as int].0@, before[y].0@));
                        }
                    } else {
                        assert(after[a] == before[x]);
                    }
                }
            }
            let want = old(self)@.insert(provider@, stats);
            assert forall|p: Seq<char>| self@.dom().contains(p) == want.dom().contains(p) by {
                if self@.dom().contains(p) {
                    let k = choose|k: int| listed_at(after, p, k);
                    if k != i {
                        let j = if found || k < i {
                            k
                        } else {
                            k - 1
                        };
                        assert(listed_at(before, p, j));
                    }
                }
                if p == provider@ {
                    assert(listed_at(after, p, i as int));
                } else if old(self)@.dom().contains(p) {
                    let j = choose|j: int| listed_at(before, p, j);
                    assert(listed_at(after, p, shift(j)));
                }
            }
            assert forall|p: Seq<char>| self@.dom().contains(p) implies self@[p] == want[p] by {
                let k = choose|k: int| listed_at(after, p, k);
                self.lemma_record_at(k);
                if p == provider@ {
                    lemma_listed_once(after, k, i as int);
                } else {
                    let j = if found || k < i {
                        k
                    } else {
                        k - 1
                    };
                    old(self).lemma_record_at(j);
                }
            }
            assert(self@ =~= want);
        }
    }
}

impl Default for Stats {
    fn default() -> (r: Stats)
        ensures
            r.wf(),
            r@ == Map::<Seq<char>, ProviderStats>::empty(),
    {
        Stats::new()
    }
}

impl Stats {
    /// Record a successful transcription for a provider.
    /// `latency_ms` is how long the API call took.
    /// `char_count` is the number of characters returned.
    pub fn record_success(&mut self, provider: &str, latency_ms: u64, char_count: usize)
        requires
            old(self).wf(),
            record_of(old(self)@, provider@).has_room_for_success(latency_ms, char_count),
        ensures
            final(self).wf(),
            final(self)@ == old(self)@.insert(
                provider@,
                record_of(old(self)@, provider@).after_success(latency_ms, char_count),
            ),
    {
        let s = match self.get(provider) {
            Some(s) => s,
            None => ProviderStats::default(),
        };
        self.insert(
            provider,
            ProviderStats {
                calls: s.calls + 1,
                successes: s.successes + 1,
                failures: s.failures,
                total_latency_ms: s.total_latency_ms + latency_ms,
                total_chars: s.total_chars + char_count as u64,
            },
        );
    }

    /// Whether the counters of a provider can take one more call.
    pub fn has_room(&self, provider: &str, latency_ms: u64, char_count: usize) -> (r: bool)
        requires
            self.wf(),
        ensures
            r ==> record_of(self@, provider@).has_room_for_success(latency_ms, char_count)
                && record_of(self@, provider@).has_room_for_failure(latency_ms),
            !r ==> !record_of(self@, provider@).has_room_for_success(latency_ms, char_count)
                || !record_of(self@, provider@).has_room_for_failure(latency_ms),
    {
        let s = match self.get(provider) {
            Some(s) => s,
            None => ProviderStats::default(),
        };
        s.calls < u64::MAX && s.successes < u64::MAX && s.failures < u64::MAX && latency_ms
            <= u64::MAX - s.total_latency_ms && char_count as u64 <= u64::MAX - s.total_chars
    }

    /// Record a failed attempt for a provider.
    pub fn record_failure(&mut self, provider: &str, latency_ms: u64)
        requires
            old(self).wf(),
            record_of(old(self)@, provider@).has_room_for_failure(latency_ms),
        ensures
            final(self).wf(),
            final(self)@ == old(self)@.insert(
                provider@,
                record_of(old(self)@, provider@).after_failure(latency_ms),
            ),
    {
        let s = match self.get(provider) {
            Some(s) => s,
            None => ProviderStats::default(),
        };
        self.insert(
            provider,
            ProviderStats {
                calls: s.calls + 1,
                successes: s.successes,
                failures: s.failures + 1,
                total_latency_ms: s.total_latency_ms + latency_ms,
                total_chars: s.total_chars,
            },
        );
    }
}

// ── Ranking ───────────────────────────────────────────────────────

/// The average latency that counts for a provider without a record.
pub const UNKNOWN_LATENCY_MS: u64 = 100_000;

/// What a provider is ranked by: its smoothed success rate
/// `(successes + 1) / (calls + 2)`, then its average latency.
#[derive(Debug, Clone, Copy)]
pub struct Score {
    pub successes: u64,
    pub calls: u64,
    pub latency_ms: u64,
}

/// The score of a record. Without calls the rate is one half and the latency
/// pessimistic.
pub open spec fn score_of(record: ProviderStats) -> Score {
    if record.calls > 0 {
        Score {
            successes: record.successes,
            calls: record.calls,
            latency_ms: record.total_latency_ms / record.calls,
        }
    } else {
        Score { successes: 0, calls: 0, latency_ms: UNKNOWN_LATENCY_MS }
    }
}

impl Score {
    /// The success rate is above that of `other`: the fractions
    /// `(successes + 1) / (calls + 2)` compared, multiplied out.
    pub open spec fn more_reliable(self, other: Score) -> bool {
        (self.successes + 1) * (other.calls + 2) > (other.successes + 1) * (self.calls + 2)
    }

    fn is_more_reliable(&self, other: &Score) -> (r: bool)
        ensures
            r == self.more_reliable(*other),
    {
        let (s1, c1) = (self.successes as u128, self.calls as u128);
        let (s2, c2) = (other.successes as u128, other.calls as u128);
        proof {
            assert((s1 + 1) * (c2 + 2) == s1 * c2 + 2 * s1 + c2 + 2) by (nonlinear_arith);
            assert((s2 + 1) * (c1 + 2) == s2 * c1 + 2 * s2 + c1 + 2) by (nonlinear_arith);
            assert(s1 * c2 <= u64::MAX * u64::MAX) by (nonlinear_arith)
                requires
                    s1 <= u64::MAX,
                    c2 <= u64::MAX,
            ;
            assert(s2 * c1 <= u64::MAX * u64::MAX) by (nonlinear_arith)
                requires
                    s2 <= u64::MAX,
                    c1 <= u64::MAX,
            ;
        }
        let left: u128 = s1 * c2;
        let right: u128 = s2 * c1;
        let left_rest: u128 = 2 * s1 + c2;
        let right_rest: u128 = 2 * s2 + c1;
        if left >= right {
            left_rest > right_rest || left - right > right_rest - left_rest
        } else {
            left_rest > right_rest && left_rest - right_rest > right - left
        }
    }
}

impl Ranked for Score {
    open spec fn outranks(self, other: Score) -> bool {
        self.more_reliable(other) || (!other.more_reliable(self) && self.latency_ms
            < other.latency_ms)
    }

    proof fn outranking_is_one_sided(a: Score, b: Score) {
    }

    proof fn outranking_carries_over(a: Score, b: Score, c: Score) {
        lemma_fractions(
            a.successes + 1,
            a.calls + 2,
            b.successes + 1,
            b.calls + 2,
            c.successes + 1,
            c.calls + 2,
        );
    }

    fn goes_before(&self, other: &Score) -> bool {
        self.is_more_reliable(other) || (!other.is_more_reliable(self) && self.latency_ms
            < other.latency_ms)
    }
}

/// Fractions with positive denominators, compared multiplied out, are ordered
/// transitively.
proof fn lemma_fractions(an: int, ad: int, bn: int, bd: int, cn: int, cd: int)
    requires
        ad > 0,
        bd > 0,
        cd > 0,
    ensures
        an * bd >= bn * ad && bn * cd >= cn * bd ==> an * cd >= cn * ad,
        an * bd > bn * ad && bn * cd >= cn * bd ==> an * cd > cn * ad,
        an * bd >= bn * ad && bn * cd > cn * bd ==> an * cd > cn * ad,
{
    assert((an * bd) * cd == (an * cd) * bd) by (nonlinear_arith);
    assert((bn * ad) * cd == (bn * cd) * ad) by (nonlinear_arith);
    assert((cn * bd) * ad == (cn * ad) * bd) by (nonlinear_arith);
    if an * bd >= bn * ad && bn * cd >= cn * bd {
        assert((an * bd) * cd >= (bn * ad) * cd) by (nonlinear_arith)
            requires
                an * bd >= bn * ad,
                cd > 0,
        ;
        assert((bn * cd) * ad >= (cn * bd) * ad) by (nonlinear_arith)
            requires
                bn * cd >= cn * bd,
                ad > 0,
        ;
        assert(an * cd >= cn * ad) by (nonlinear_arith)
            requires
                (an * cd) * bd >= (cn * ad) * bd,
                bd > 0,
        ;
        if an * bd > bn * ad {
            assert((an * bd) * cd > (bn * ad) * cd) by (nonlinear_arith)
                requires
                    an * bd > bn * ad,
                    cd > 0,
            ;
        }
        if bn * cd > cn * bd {
            assert((bn * cd) * ad > (cn * bd) * ad) by (nonlinear_arith)
                requires
                    bn * cd > cn * bd,
                    ad > 0,
            ;
        }
    }
}

/// The scores of a list of providers.
pub open spec fn scores_of(
    records: Map<Seq<char>, ProviderStats>,
    providers: Seq<Seq<char>>,
) -> Seq<Score> {
    providers.map_values(|p: Seq<char>| score_of(record_of(records, p)))
}

/// `ranked` lists the providers of `available` by their records, the better
/// ones first, equals in the order of `available`.
pub open spec fn is_provider_ranking(
    records: Map<Seq<char>, ProviderStats>,
    available: Seq<Seq<char>>,
    ranked: Seq<Seq<char>>,
) -> bool {
    exists|order: Seq<usize>| #[trigger]
        is_ranking(scores_of(records, available), order) && ranked == order.map_values(
            |i: usize| available[i as int],
        )
}

impl Stats {
    fn score(&self, provider: &str) -> (r: Score)
        requires
            self.wf(),
        ensures
            r == score_of(record_of(self@, provider@)),
    {
        match self.get(provider) {
            Some(s) if s.calls > 0 => Score {
                successes: s.successes,
                calls: s.calls,
                latency_ms: s.total_latency_ms / s.calls,
            },
            _ => Score { successes: 0, calls: 0, latency_ms: UNKNOWN_LATENCY_MS },
        }
    }

    /// Rank available providers by historical reliability (primary) and
    /// average latency (secondary). Reliability uses Laplace (add-one)
    /// smoothing so that providers with few calls are not over-ranked:
    /// `(successes + 1) / (calls + 2)`. A provider with zero recorded
    /// calls gets a rate of one half and a pessimistic latency. Wherever they
    /// are listed, a provider that succeeded in more than half of its calls
    /// goes before it, and so does one that succeeded in exactly half of them
    /// and took less than [`UNKNOWN_LATENCY_MS`] on average.
    ///
    /// `available` is the list of providers that have a configured API key,
    /// in the user's preferred default order. That order is preserved as the
    /// final tiebreaker so that with no data the default chain is used.
    pub fn ranked_providers(&self, available: &[String]) -> (ranked: Vec<String>)
        requires
            self.wf(),
        ensures
            is_provider_ranking(self@, texts(available@), texts(ranked@)),
    {
        let ghost scores = scores_of(self@, texts(available@));
        let mut scored: Vec<Score> = Vec::new();
        for i in 0..available.len()
            invariant
                self.wf(),
                scores == scores_of(self@, texts(available@)),
                scored@ == scores.take(i as int),
        {
            scored.push(self.score(available[i].as_str()));
            assert(scores.take(i + 1) =~= scores.take(i as int).push(scores[i as int]));
        }
        assert(scored@ =~= scores);
        let order = ranking(&scored);
        let mut ranked: Vec<String> = Vec::new();
        for i in 0..order.len()
            invariant
                is_ranking(scores, order@),
                scores == scores_of(self@, texts(available@)),
                texts(ranked@) == order@.take(i as int).map_values(
                    |k: usize| texts(available@)[k as int],
                ),
        {
            let k: usize = order[i];
            let ghost before = texts(ranked@);
            ranked.push(available[k].clone());
            proof {
                let name_at = |k: usize| texts(available@)[k as int];
                assert(texts(ranked@) =~= before.push(available@[k as int]@));
                assert(order@.take(i + 1) =~= order@.take(i as int).push(k));
                assert(order@.take(i + 1).map_values(name_at) =~= order@.take(i as int).map_values(
                    name_at,
                ).push(name_at(k)));
            }
        }
        assert(order@.take(order.len() as int) =~= order@);
        ranked
    }
}

// ── The table ─────────────────────────────────────────────────────

/// A number of calls, the higher ones first.
#[derive(Debug, Clone, Copy)]
pub struct CallCount {
    pub calls: u64,
}

impl Ranked for CallCount {
    open spec fn outranks(self, other: CallCount) -> bool {
        self.calls > other.calls
    }

    proof fn outranking_is_one_sided(a: CallCount, b: CallCount) {
    }

    proof fn outranking_carries_over(a: CallCount, b: CallCount, c: CallCount) {
    }

    fn goes_before(&self, other: &CallCount) -> bool {
        self.calls > other.calls
    }
}

/// The call counts of a list of entries.
pub open spec fn call_counts(entries: Seq<(String, ProviderStats)>) -> Seq<CallCount> {
    entries.map_values(|e: (String, ProviderStats)| CallCount { calls: e.1.calls })
}

/// `a / b` rounded down, or zero where `b` is zero.
pub open spec fn ratio(a: nat, b: nat) -> nat {
    if b == 0 {
        0
    } else {
        a / b
    }
}

/// A line of eight columns: the first filled up on the right, the others on
/// the left.
pub open spec fn columns(
    name: Seq<char>,
    a: Seq<char>,
    b: Seq<char>,
    c: Seq<char>,
    d: Seq<char>,
    e: Seq<char>,
    f: Seq<char>,
    g: Seq<char>,
) -> Seq<char> {
    filled_right(name, ' ', 12) + " "@ + filled_left(a, ' ', 6) + " "@ + filled_left(b, ' ', 6)
        + " "@ + filled_left(c, ' ', 6) + " "@ + filled_left(d, ' ', 10) + " "@ + filled_left(
        e,
        ' ',
        10,
    ) + " "@ + filled_left(f, ' ', 12) + " "@ + filled_left(g, ' ', 12)
}

/// The table's line about one provider: calls, successes, failures, average
/// latency, average length, success rate in percent, total latency.
pub open spec fn row_text(name: Seq<char>, s: ProviderStats) -> Seq<char> {
    columns(
        name,
        decimal(s.calls as nat),
        decimal(s.successes as nat),
        decimal(s.failures as nat),
        decimal(ratio(s.total_latency_ms as nat, s.calls as nat)),
        decimal(ratio(s.total_chars as nat, s.successes as nat)),
        decimal(ratio(s.successes as nat * 100, s.calls as nat)) + "%"@,
        decimal(s.total_latency_ms as nat),
    )
}

/// The table's lines above the providers.
pub open spec fn table_head() -> Seq<Seq<char>> {
    seq![
        "voxtype provider statistics"@,
        ""@,
        columns(
            "Provider"@,
            "Calls"@,
            "OK"@,
            "Fail"@,
            "Avg(ms)"@,
            "Avg(chars)"@,
            "Success%"@,
            "Total(ms)"@,
        ),
        repeated('-', 82),
    ]
}

/// The table's lines about the providers of `entries`, in the order given.
pub open spec fn table_rows(
    entries: Seq<(String, ProviderStats)>,
    order: Seq<usize>,
) -> Seq<Seq<char>> {
    order.map_values(|i: usize| row_text(entries[i as int].0@, entries[i as int].1))
}

/// The table's lines below the providers.
pub open spec fn table_foot(entries: Seq<(String, ProviderStats)>) -> Seq<Seq<char>> {
    if entries.len() == 0 {
        seq!["No statistics recorded yet. Use voxtype to start transcribing."@]
    } else {
        Seq::empty()
    }
}

fn columns_string(
    name: &str,
    a: &str,
    b: &str,
    c: &str,
    d: &str,
    e: &str,
    f: &str,
    g: &str,
) -> (r: String)
    ensures
        r@ == columns(name@, a@, b@, c@, d@, e@, f@, g@),
{
    let mut out = fill_right(name, ' ', 12);
    out.append(" ");
    out.append(fill_left(a, ' ', 6).as_str());
    out.append(" ");
    out.append(fill_left(b, ' ', 6).as_str());
    out.append(" ");
    out.append(fill_left(c, ' ', 6).as_str());
    out.append(" ");
    out.append(fill_left(d, ' ', 10).as_str());
    out.append(" ");
    out.append(fill_left(e, ' ', 10).as_str());
    out.append(" ");
    out.append(fill_left(f, ' ', 12).as_str());
    out.append(" ");
    out.append(fill_left(g, ' ', 12).as_str());
    out
}

fn ratio_of(a: u64, b: u64) -> (r: u64)
    ensures
        r == ratio(a as nat, b as nat),
{
    if b == 0 {
        0
    } else {
        a / b
    }
}

fn row_string(name: &str, s: &ProviderStats) -> (r: String)
    requires
        s.successes * 100 <= u64::MAX,
    ensures
        r@ == row_text(name@, *s),
{
    columns_string(
        name,
        decimal_string(s.calls).as_str(),
        decimal_string(s.successes).as_str(),
        decimal_string(s.failures).as_str(),
        decimal_string(ratio_of(s.total_latency_ms, s.calls)).as_str(),
        decimal_string(ratio_of(s.total_chars, s.successes)).as_str(),
        decimal_string(ratio_of(s.successes * 100, s.calls)).concat("%").as_str(),
        decimal_string(s.total_latency_ms).as_str(),
    )
}

impl Stats {
    /// The lines of a summary table of all providers, those with the most
    /// calls first.
    pub fn print_table(&self) -> (lines: Vec<String>)
        requires
            forall|i: int|
                0 <= i < self.providers@.len() ==> (#[trigger] self.providers@[i]).1.successes * 100
                    <= u64::MAX,
        ensures
            exists|order: Seq<usize>| #[trigger]
                is_ranking(call_counts(self.providers@), order) && texts(lines@) == table_head()
                    + table_rows(self.providers@, order) + table_foot(self.providers@),
    {
        let mut counts: Vec<CallCount> = Vec::new();
        for i in 0..self.providers.len()
            invariant
                counts@ == call_counts(self.providers@).take(i as int),
        {
            counts.push(CallCount { calls: self.providers[i].1.calls });
            assert(counts@ =~= call_counts(self.providers@).take(i + 1));
        }
        assert(counts@ =~= call_counts(self.providers@));
        let order = ranking(&counts);

        let mut lines: Vec<String> = Vec::new();
        lines.push("voxtype provider statistics".to_owned());
        lines.push("".to_owned());
        lines.push(
            columns_string(
                "Provider",
                "Calls",
                "OK",
                "Fail",
                "Avg(ms)",
                "Avg(chars)",
                "Success%",
                "Total(ms)",
            ),
        );
        let mut rule = String::new();
        push_repeated(&mut rule, '-', 82);
        assert(rule@ =~= repeated('-', 82));
        lines.push(rule);
        assert(texts(lines@) =~= table_head());
        let ghost rows = table_rows(self.providers@, order@);
        assert(texts(lines@) =~= table_head() + rows.take(0));
        for i in 0..order.len()
            invariant
                is_ranking(call_counts(self.providers@), order@),
                forall|i: int|
                    0 <= i < self.providers@.len() ==> (#[trigger] self.providers@[i]).1.successes
                        * 100 <= u64::MAX,
                rows == table_rows(self.providers@, order@),
                texts(lines@) == table_head() + rows.take(i as int),
        {
            let k: usize = order[i];
            let ghost before = texts(lines@);
            lines.push(row_string(self.providers[k].0.as_str(), &self.providers[k].1));
            proof {
                assert(texts(lines@) =~= before.push(rows[i as int]));
                assert(rows.take(i + 1) =~= rows.take(i as int).push(rows[i as int]));
                assert(texts(lines@) =~= table_head() + rows.take(i + 1));
            }
        }
        assert(rows.take(order.len() as int) =~= rows);
        let ghost before = texts(lines@);
        if self.providers.len() == 0 {
            lines.push("No statistics recorded yet. Use voxtype to start transcribing.".to_owned());
            assert(texts(lines@) =~= before + table_foot(self.providers@));
        } else {
            assert(texts(lines@) =~= before + table_foot(self.providers@));
        }
        lines
    }
}

// ── Laws ──────────────────────────────────────────────────────────

/// What is on record and who is available determines the ranking.
pub proof fn providers_have_one_ranking(
    records: Map<Seq<char>, ProviderStats>,
    available: Seq<Seq<char>>,
    a: Seq<Seq<char>>,
    b: Seq<Seq<char>>,
)
    requires
        is_provider_ranking(records, available, a),
        is_provider_ranking(records, available, b),
    ensures
        a == b,
{
    let scores = scores_of(records, available);
    let x = choose|order: Seq<usize>| #[trigger]
        is_ranking(scores, order) && a == order.map_values(|i: usize| available[i as int]);
    let y = choose|order: Seq<usize>| #[trigger]
        is_ranking(scores, order) && b == order.map_values(|i: usize| available[i as int]);
    a_list_has_one_ranking(scores, x, y);
}

/// A ranking holds the available providers and no others, as many as there are.
pub proof fn a_ranking_keeps_the_providers(
    records: Map<Seq<char>, ProviderStats>,
    available: Seq<Seq<char>>,
    ranked: Seq<Seq<char>>,
)
    requires
        is_provider_ranking(records, available, ranked),
    ensures
        ranked.len() == available.len(),
        forall|p: Seq<char>| ranked.contains(p) <==> available.contains(p),
        available.no_duplicates() ==> ranked.no_duplicates(),
{
    let order = choose|order: Seq<usize>| #[trigger]
        is_ranking(scores_of(records, available), order) && ranked == order.map_values(
            |i: usize| available[i as int],
        );
    assert forall|p: Seq<char>| available.contains(p) implies ranked.contains(p) by {
        let i = available.index_of(p);
        assert(lists_position(order, i));
        let k = choose|k: int| 0 <= k < order.len() && order[k] == i;
        assert(ranked[k] == p);
    }
    assert forall|p: Seq<char>| ranked.contains(p) implies available.contains(p) by {
        let k = ranked.index_of(p);
        assert(available[order[k] as int] == p);
    }
}

/// With no calls on record the default order is kept.
pub proof fn without_data_the_default_order_stands(
    records: Map<Seq<char>, ProviderStats>,
    available: Seq<Seq<char>>,
    ranked: Seq<Seq<char>>,
)
    requires
        is_provider_ranking(records, available, ranked),
        forall|i: int|
            0 <= i < available.len() ==> record_of(records, #[trigger] available[i]).calls == 0,
    ensures
        ranked == available,
{
    let scores = scores_of(records, available);
    let order = choose|order: Seq<usize>| #[trigger]
        is_ranking(scores, order) && ranked == order.map_values(|i: usize| available[i as int]);
    assert forall|x: int, y: int| 0 <= x < scores.len() && 0 <= y < scores.len() implies !(
    #[trigger] scores[x]).outranks(#[trigger] scores[y]) by {
        assert(record_of(records, available[x]).calls == 0);
        assert(record_of(records, available[y]).calls == 0);
    }
    equals_keep_their_order(scores, order);
    assert(ranked =~= available);
}

/// A provider with the better score is tried before one with a worse score:
/// the more reliable one first, and of two equally reliable ones the faster.
pub proof fn the_better_provider_goes_first(
    records: Map<Seq<char>, ProviderStats>,
    available: Seq<Seq<char>>,
    ranked: Seq<Seq<char>>,
    i: int,
    j: int,
)
    requires
        is_provider_ranking(records, available, ranked),
        0 <= i < ranked.len(),
        0 <= j < ranked.len(),
        score_of(record_of(records, ranked[i])).outranks(score_of(record_of(records, ranked[j]))),
    ensures
        i < j,
{
    let scores = scores_of(records, available);
    let order = choose|order: Seq<usize>| #[trigger]
        is_ranking(scores, order) && ranked == order.map_values(|i: usize| available[i as int]);
    let x = order[i] as int;
    let y = order[j] as int;
    assert(scores[x] == score_of(record_of(records, ranked[i])));
    assert(scores[y] == score_of(record_of(records, ranked[j])));
    Score::outranking_is_one_sided(scores[x], scores[y]);
    if j < i {
        assert(ranks_before(scores, order[j] as int, order[i] as int));
    }
}

/// A provider that succeeded in more than half of its calls is tried before
/// one that was never called, however slow it was; one that succeeded in
/// exactly half of them is, too, where it took less on average than counts for
/// an unknown one.
pub proof fn a_proven_provider_goes_before_an_unknown_one(
    records: Map<Seq<char>, ProviderStats>,
    available: Seq<Seq<char>>,
    ranked: Seq<Seq<char>>,
    i: int,
    j: int,
)
    requires
        is_provider_ranking(records, available, ranked),
        0 <= i < ranked.len(),
        0 <= j < ranked.len(),
        record_of(records, ranked[i]).calls > 0,
        2 * record_of(records, ranked[i]).successes > record_of(records, ranked[i]).calls || (2
            * record_of(records, ranked[i]).successes == record_of(records, ranked[i]).calls
            && record_of(records, ranked[i]).total_latency_ms / record_of(records, ranked[i]).calls
            < UNKNOWN_LATENCY_MS),
        record_of(records, ranked[j]).calls == 0,
    ensures
        i < j,
{
    let s = record_of(records, ranked[i]).successes as int;
    let c = record_of(records, ranked[i]).calls as int;
    assert((s + 1) * (0 + 2) >= (0 + 1) * (c + 2)) by (nonlinear_arith)
        requires
            2 * s >= c,
    ;
    assert(2 * s > c ==> (s + 1) * (0 + 2) > (0 + 1) * (c + 2)) by (nonlinear_arith);
    the_better_provider_goes_first(records, available, ranked, i, j);
}

/// Every record on file adds up.
pub open spec fn all_add_up(records: Map<Seq<char>, ProviderStats>) -> bool {
    forall|p: Seq<char>| records.dom().contains(p) ==> (#[trigger] records[p]).adds_up()
}

/// Recording an attempt keeps every record adding up, and leaves the records
/// of the other providers as they are.
pub proof fn recording_keeps_the_books(
    records: Map<Seq<char>, ProviderStats>,
    provider: Seq<char>,
    latency_ms: u64,
    char_count: usize,
)
    requires
        all_add_up(records),
    ensures
        ({
            let before = record_of(records, provider);
            let won = records.insert(provider, before.after_success(latency_ms, char_count));
            let lost = records.insert(provider, before.after_failure(latency_ms));
            &&& before.has_room_for_success(latency_ms, char_count) ==> all_add_up(won)
            &&& before.has_room_for_failure(latency_ms) ==> all_add_up(lost)
            &&& forall|p: Seq<char>|
                p != provider ==> #[trigger] record_of(won, p) == record_of(records, p)
            &&& forall|p: Seq<char>|
                p != provider ==> #[trigger] record_of(lost, p) == record_of(records, p)
        }),
{
}

/// A success never makes a provider count as less reliable, and a failure
/// never as more reliable.
pub proof fn reliability_follows_the_outcomes(
    record: ProviderStats,
    latency_ms: u64,
    char_count: usize,
)
    requires
        record.adds_up(),
    ensures
        record.has_room_for_success(latency_ms, char_count) ==> !score_of(record).more_reliable(
            score_of(record.after_success(latency_ms, char_count)),
        ),
        record.has_room_for_failure(latency_ms) ==> !score_of(
            record.after_failure(latency_ms),
        ).more_reliable(score_of(record)),
{
    let s = record.successes as int;
    let c = record.calls as int;
    assert((s + 1) * (c + 3) <= (s + 2) * (c + 2)) by (nonlinear_arith)
        requires
            0 <= s <= c,
    ;
    assert((s + 1) * (c + 2) <= (s + 1) * (c + 3)) by (nonlinear_arith)
        requires
            0 <= s <= c,
    ;
}

/// A success counts as one call and one success, with its time and its
/// characters; a failure as one call and one failure, with its time alone.
pub proof fn every_outcome_is_counted(record: ProviderStats, latency_ms: u64, char_count: usize)
    ensures
        record.has_room_for_success(latency_ms, char_count) ==> {
            let after = record.after_success(latency_ms, char_count);
            &&& after.calls - record.calls == 1
            &&& after.successes - record.successes == 1
            &&& after.failures == record.failures
            &&& after.total_latency_ms - record.total_latency_ms == latency_ms
            &&& after.total_chars - record.total_chars == char_count
        },
        record.has_room_for_failure(latency_ms) ==> {
            let after = record.after_failure(latency_ms);
            &&& after.calls - record.calls == 1
            &&& after.successes == record.successes
            &&& after.failures - record.failures == 1
            &&& after.total_latency_ms - record.total_latency_ms == latency_ms
            &&& after.total_chars == record.total_chars
        },
        no_record().calls == 0,
        no_record().successes == 0,
        no_record().failures == 0,
        no_record().total_latency_ms == 0,
        no_record().total_chars == 0,
{
}

/// A record has room for a call wherever no counter would run over.
pub proof fn there_is_room_for_most_calls(
    record: ProviderStats,
    latency_ms: u64,
    char_count: usize,
)
    requires
        record.adds_up(),
        record.calls < u64::MAX,
        record.total_latency_ms + latency_ms <= u64::MAX,
        record.total_chars + char_count <= u64::MAX,
    ensures
        record.has_room_for_success(latency_ms, char_count),
        record.has_room_for_failure(latency_ms),
{
}

/// Of two providers that were called, the one with the higher rate
/// `(successes + 1) / (calls + 2)` is tried first; of two with the same rate the
/// one that took less time on average.
pub proof fn providers_go_by_their_rate_and_then_their_time(
    records: Map<Seq<char>, ProviderStats>,
    available: Seq<Seq<char>>,
    ranked: Seq<Seq<char>>,
    i: int,
    j: int,
)
    requires
        is_provider_ranking(records, available, ranked),
        0 <= i < ranked.len(),
        0 <= j < ranked.len(),
        record_of(records, ranked[i]).calls > 0,
        record_of(records, ranked[j]).calls > 0,
    ensures
        ({
            let a = record_of(records, ranked[i]);
            let b = record_of(records, ranked[j]);
            let left = (a.successes + 1) * (b.calls + 2);
            let right = (b.successes + 1) * (a.calls + 2);
            &&& left > right ==> i < j
            &&& left == right && (a.total_latency_ms / a.calls) < (b.total_latency_ms / b.calls)
                ==> i < j
        }),
{
    let a = score_of(record_of(records, ranked[i]));
    let b = score_of(record_of(records, ranked[j]));
    if a.outranks(b) {
        the_better_provider_goes_first(records, available, ranked, i, j);
    }
}

/// Of two providers that were called equally often, the one with more successes
/// is tried first; of two that succeeded equally often, the one that was called
/// less. Where both agree, less time in all decides, if it makes a millisecond
/// on average.
pub proof fn more_successes_go_first(
    records: Map<Seq<char>, ProviderStats>,
    available: Seq<Seq<char>>,
    ranked: Seq<Seq<char>>,
    i: int,
    j: int,
)
    requires
        is_provider_ranking(records, available, ranked),
        0 <= i < ranked.len(),
        0 <= j < ranked.len(),
        record_of(records, ranked[i]).calls > 0,
        record_of(records, ranked[j]).calls > 0,
    ensures
        ({
            let a = record_of(records, ranked[i]);
            let b = record_of(records, ranked[j]);
            &&& a.calls == b.calls && a.successes > b.successes ==> i < j
            &&& a.calls < b.calls && a.successes == b.successes ==> i < j
            &&& a.calls == b.calls && a.successes == b.successes && a.total_latency_ms + a.calls
                <= b.total_latency_ms ==> i < j
        }),
{
    let a = record_of(records, ranked[i]);
    let b = record_of(records, ranked[j]);
    let (sa, ca, sb, cb) = (a.successes as int, a.calls as int, b.successes as int, b.calls as int);
    providers_go_by_their_rate_and_then_their_time(records, available, ranked, i, j);
    assert(ca == cb && sa > sb ==> (sa + 1) * (cb + 2) > (sb + 1) * (ca + 2)) by (nonlinear_arith)
        requires
            ca >= 0,
            cb >= 0,
    ;
    assert(ca < cb && sa == sb ==> (sa + 1) * (cb + 2) > (sb + 1) * (ca + 2)) by (nonlinear_arith)
        requires
            sa >= 0,
    ;
    let (ta, tb) = (a.total_latency_ms as int, b.total_latency_ms as int);
    assert(ca == cb && ta + ca <= tb ==> ta / ca < tb / cb) by (nonlinear_arith)
        requires
            ca > 0,
            cb > 0,
    ;
}

/// A provider that was never called is tried before one that succeeded in less
/// than half of its calls, and before one that succeeded in exactly half of them
/// and took more than 100 seconds on average.
pub proof fn an_unknown_provider_goes_before_a_failing_one(
    records: Map<Seq<char>, ProviderStats>,
    available: Seq<Seq<char>>,
    ranked: Seq<Seq<char>>,
    i: int,
    j: int,
)
    requires
        is_provider_ranking(records, available, ranked),
        0 <= i < ranked.len(),
        0 <= j < ranked.len(),
        record_of(records, ranked[i]).calls == 0,
        record_of(records, ranked[j]).calls > 0,
        2 * record_of(records, ranked[j]).successes < record_of(records, ranked[j]).calls || (2
            * record_of(records, ranked[j]).successes == record_of(records, ranked[j]).calls
            && record_of(records, ranked[j]).total_latency_ms / record_of(records, ranked[j]).calls
            > 100_000),
    ensures
        i < j,
{
    let s = record_of(records, ranked[j]).successes as int;
    let c = record_of(records, ranked[j]).calls as int;
    assert((s + 1) * (0 + 2) <= (0 + 1) * (c + 2)) by (nonlinear_arith)
        requires
            2 * s <= c,
    ;
    assert(2 * s < c ==> (s + 1) * (0 + 2) < (0 + 1) * (c + 2)) by (nonlinear_arith);
    the_better_provider_goes_first(records, available, ranked, i, j);
}

/// Providers with the same counters are tried in the order in which they are
/// available.
pub proof fn equal_providers_keep_their_order(
    records: Map<Seq<char>, ProviderStats>,
    available: Seq<Seq<char>>,
    ranked: Seq<Seq<char>>,
    x: int,
    y: int,
    i: int,
    j: int,
)
    requires
        is_provider_ranking(records, available, ranked),
        available.no_duplicates(),
        0 <= x < y < available.len(),
        0 <= i < ranked.len(),
        0 <= j < ranked.len(),
        ranked[i] == available[x],
        ranked[j] == available[y],
        record_of(records, available[x]) == record_of(records, available[y]),
    ensures
        i < j,
{
    let scores = scores_of(records, available);
    let order = choose|order: Seq<usize>| #[trigger]
        is_ranking(scores, order) && ranked == order.map_values(|i: usize| available[i as int]);
    assert(available[order[i] as int] == available[x]);
    assert(available[order[j] as int] == available[y]);
    assert(order[i] == x && order[j] == y);
    assert(scores[x] == scores[y]);
    if j < i {
        assert(ranks_before(scores, order[j] as int, order[i] as int));
        if scores[y].outranks(scores[x]) {
            Score::outranking_is_one_sided(scores[y], scores[x]);
        }
    }
}

/// The average is the total shared out, rounded down; without anything to share
/// it among it is zero.
pub proof fn an_average_is_rounded_down(total: nat, count: nat)
    ensures
        count == 0 ==> ratio(total, count) == 0,
        count > 0 ==> ratio(total, count) * count <= total,
        count > 0 ==> total < (ratio(total, count) + 1) * count,
{
    if count > 0 {
        let q = total / count;
        assert(q * count <= total && total < (q + 1) * count) by (nonlinear_arith)
            requires
                count > 0,
                q == total / count,
        ;
    }
}

/// The place of the table's columns: where a column begins and where it ends.
pub open spec fn column(line: Seq<char>, k: int) -> Seq<char> {
    if k == 0 {
        line.subrange(0, 12)
    } else if k == 1 {
        line.subrange(13, 19)
    } else if k == 2 {
        line.subrange(20, 26)
    } else if k == 3 {
        line.subrange(27, 33)
    } else if k == 4 {
        line.subrange(34, 44)
    } else if k == 5 {
        line.subrange(45, 55)
    } else if k == 6 {
        line.subrange(56, 68)
    } else {
        line.subrange(69, 81)
    }
}

proof fn lemma_columns(
    name: Seq<char>,
    a: Seq<char>,
    b: Seq<char>,
    c: Seq<char>,
    d: Seq<char>,
    e: Seq<char>,
    f: Seq<char>,
    g: Seq<char>,
)
    requires
        name.len() <= 12,
        a.len() <= 6,
        b.len() <= 6,
        c.len() <= 6,
        d.len() <= 10,
        e.len() <= 10,
        f.len() <= 12,
        g.len() <= 12,
    ensures
        ({
            let line = columns(name, a, b, c, d, e, f, g);
            &&& line.len() == 81
            &&& column(line, 0) == filled_right(name, ' ', 12)
            &&& column(line, 1) == filled_left(a, ' ', 6)
            &&& column(line, 2) == filled_left(b, ' ', 6)
            &&& column(line, 3) == filled_left(c, ' ', 6)
            &&& column(line, 4) == filled_left(d, ' ', 10)
            &&& column(line, 5) == filled_left(e, ' ', 10)
            &&& column(line, 6) == filled_left(f, ' ', 12)
            &&& column(line, 7) == filled_left(g, ' ', 12)
        }),
{
    reveal_strlit(" ");
    let line = columns(name, a, b, c, d, e, f, g);
    assert(filled_right(name, ' ', 12).len() == 12);
    assert(filled_left(a, ' ', 6).len() == 6);
    assert(filled_left(b, ' ', 6).len() == 6);
    assert(filled_left(c, ' ', 6).len() == 6);
    assert(filled_left(d, ' ', 10).len() == 10);
    assert(filled_left(e, ' ', 10).len() == 10);
    assert(filled_left(f, ' ', 12).len() == 12);
    assert(filled_left(g, ' ', 12).len() == 12);
    assert(line.len() == 81);
    assert(column(line, 0) =~= filled_right(name, ' ', 12));
    assert(column(line, 1) =~= filled_left(a, ' ', 6));
    assert(column(line, 2) =~= filled_left(b, ' ', 6));
    assert(column(line, 3) =~= filled_left(c, ' ', 6));
    assert(column(line, 4) =~= filled_left(d, ' ', 10));
    assert(column(line, 5) =~= filled_left(e, ' ', 10));
    assert(column(line, 6) =~= filled_left(f, ' ', 12));
    assert(column(line, 7) =~= filled_left(g, ' ', 12));
}

/// Each heading of the table has its column.
pub proof fn the_headings_stand_above_their_columns()
    ensures
        table_head().len() == 4,
        table_head()[0] == "voxtype provider statistics"@,
        table_head()[1].len() == 0,
        column(table_head()[2], 0) == filled_right("Provider"@, ' ', 12),
        column(table_head()[2], 1) == filled_left("Calls"@, ' ', 6),
        column(table_head()[2], 2) == filled_left("OK"@, ' ', 6),
        column(table_head()[2], 3) == filled_left("Fail"@, ' ', 6),
        column(table_head()[2], 4) == filled_left("Avg(ms)"@, ' ', 10),
        column(table_head()[2], 5) == filled_left("Avg(chars)"@, ' ', 10),
        column(table_head()[2], 6) == filled_left("Success%"@, ' ', 12),
        column(table_head()[2], 7) == filled_left("Total(ms)"@, ' ', 12),
        table_head()[3].len() == 82,
        forall|i: int| 0 <= i < 82 ==> table_head()[3][i] == '-',
{
    reveal_strlit("");
    reveal_strlit("Provider");
    reveal_strlit("Calls");
    reveal_strlit("OK");
    reveal_strlit("Fail");
    reveal_strlit("Avg(ms)");
    reveal_strlit("Avg(chars)");
    reveal_strlit("Success%");
    reveal_strlit("Total(ms)");
    lemma_columns(
        "Provider"@,
        "Calls"@,
        "OK"@,
        "Fail"@,
        "Avg(ms)"@,
        "Avg(chars)"@,
        "Success%"@,
        "Total(ms)"@,
    );
}

/// Each number of a provider stands in its column, under its heading: the calls,
/// the successes, the failures, the average time of a call, the average length of
/// a transcription, the part of the calls that succeeded in percent, and the time
/// in all.
pub proof fn each_number_stands_under_its_heading(name: Seq<char>, s: ProviderStats)
    requires
        name.len() <= 12,
        s.calls > 0,
        s.successes > 0,
        decimal(s.calls as nat).len() <= 6,
        decimal(s.successes as nat).len() <= 6,
        decimal(s.failures as nat).len() <= 6,
        decimal((s.total_latency_ms / s.calls) as nat).len() <= 10,
        decimal((s.total_chars / s.successes) as nat).len() <= 10,
        decimal((s.successes * 100 / (s.calls as int)) as nat).len() <= 11,
        decimal(s.total_latency_ms as nat).len() <= 12,
    ensures
        ({
            let row = row_text(name, s);
            &&& column(row, 0) == filled_right(name, ' ', 12)
            &&& column(row, 1) == filled_left(decimal(s.calls as nat), ' ', 6)
            &&& column(row, 2) == filled_left(decimal(s.successes as nat), ' ', 6)
            &&& column(row, 3) == filled_left(decimal(s.failures as nat), ' ', 6)
            &&& column(row, 4) == filled_left(
                decimal((s.total_latency_ms / s.calls) as nat),
                ' ',
                10,
            )
            &&& column(row, 5) == filled_left(
                decimal((s.total_chars / s.successes) as nat),
                ' ',
                10,
            )
            &&& column(row, 6) == filled_left(
                decimal((s.successes * 100 / (s.calls as int)) as nat) + "%"@,
                ' ',
                12,
            )
            &&& column(row, 7) == filled_left(decimal(s.total_latency_ms as nat), ' ', 12)
        }),
{
    reveal_strlit("%");
    lemma_columns(
        name,
        decimal(s.calls as nat),
        decimal(s.successes as nat),
        decimal(s.failures as nat),
        decimal((s.total_latency_ms / s.calls) as nat),
        decimal((s.total_chars / s.successes) as nat),
        decimal((s.successes * 100 / (s.calls as int)) as nat) + "%"@,
        decimal(s.total_latency_ms as nat),
    );
}

/// Every provider has one line in the table, and one with more calls stands above
/// one with fewer; of two with as many calls the one that comes first by name.
pub proof fn the_busier_provider_stands_above(
    entries: Seq<(String, ProviderStats)>,
    order: Seq<usize>,
    i: int,
    j: int,
)
    requires
        is_ranking(call_counts(entries), order),
        0 <= i < j < order.len(),
    ensures
        table_rows(entries, order).len() == entries.len(),
        ({
            let a = entries[order[i] as int];
            let b = entries[order[j] as int];
            &&& table_rows(entries, order)[i] == row_text(a.0@, a.1)
            &&& a.1.calls > b.1.calls || (a.1.calls == b.1.calls && order[i] < order[j])
        }),
{
    let counts = call_counts(entries);
    assert(ranks_before(counts, order[i] as int, order[j] as int));
    assert(counts[order[i] as int].calls == entries[order[i] as int].1.calls);
    assert(counts[order[j] as int].calls == entries[order[j] as int].1.calls);
}

/// The table says so where there is nothing in it, and only there.
pub proof fn an_empty_table_says_so(entries: Seq<(String, ProviderStats)>)
    ensures
        entries.len() == 0 <==> table_foot(entries).len() > 0,
        entries.len() == 0 ==> table_foot(entries)
            == seq!["No statistics recorded yet. Use voxtype to start transcribing."@],
{
}

/// What is on record about a provider is its entry in the list.
pub proof fn a_record_is_the_entry_of_its_provider(stats: Stats, i: int)
    requires
        stats.wf(),
        0 <= i < stats.providers@.len(),
    ensures
        record_of(stats@, stats.providers@[i].0@) == stats.providers@[i].1,
        forall|p: Seq<char>|
            (forall|k: int| 0 <= k < stats.providers@.len() ==> (#[trigger] stats.providers@[k]).0@
                != p) ==> #[trigger] record_of(stats@, p) == no_record(),
{
    stats.lemma_record_at(i);
    assert forall|p: Seq<char>|
        (forall|k: int| 0 <= k < stats.providers@.len() ==> (#[trigger] stats.providers@[k]).0@
            != p) implies #[trigger] record_of(stats@, p) == no_record() by {
        if stats@.dom().contains(p) {
            let k = choose|k: int| listed_at(stats.providers@, p, k);
            assert(stats.providers@[k].0@ == p);
        }
    }
}

}
