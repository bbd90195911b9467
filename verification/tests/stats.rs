use voxtype::stats::{ProviderStats, Stats};

fn make_stats() -> Stats {
    Stats {
        providers: Vec::new(),
    }
}

fn avail(list: &[&str]) -> Vec<String> {
    list.iter().map(|s| s.to_string()).collect()
}

#[test]
fn no_data_preserves_default_order() {
    let stats = make_stats();
    let ranked = stats.ranked_providers(&avail(&["deepgram", "mistral", "groq"]));
    assert_eq!(ranked, vec!["deepgram", "mistral", "groq"]);
}

#[test]
fn reliability_ranks_first_even_if_slower() {
    // deepgram: 9 success, 1 failure → rate = (9+1)/(10+2) = 0.833
    // groq:     4 success, 1 failure → rate = (4+1)/(5+2)  = 0.714
    // Even though groq is faster (20ms vs 100ms), deepgram's higher
    // reliability must rank it first.
    let mut stats = make_stats();
    for _ in 0..9 {
        stats.record_success("deepgram", 100, 10);
    }
    stats.record_failure("deepgram", 100);

    for _ in 0..4 {
        stats.record_success("groq", 20, 10);
    }
    stats.record_failure("groq", 20);

    let ranked = stats.ranked_providers(&avail(&["groq", "deepgram"]));
    assert_eq!(ranked, vec!["deepgram", "groq"]);
}

#[test]
fn latency_breaks_ties_when_reliability_equal() {
    // Both deepgram and groq: 5/5 success → rate = (5+1)/(5+2) = 6/7 ≈ 0.857
    let mut stats = make_stats();
    for _ in 0..5 {
        stats.record_success("deepgram", 100, 10);
        stats.record_success("groq", 30, 10);
    }

    let ranked = stats.ranked_providers(&avail(&["deepgram", "groq"]));
    // Equal reliability → faster (groq) ranks first
    assert_eq!(ranked, vec!["groq", "deepgram"]);
}

#[test]
fn proven_provider_beats_unknown_even_if_slower() {
    let mut stats = make_stats();
    // mistral: 1/1 success, 500ms latency
    stats.record_success("mistral", 500, 10);

    let ranked = stats.ranked_providers(&avail(&["groq", "mistral"]));
    // mistral (rate = 2/3 ≈ 0.667) > groq (rate = 0.5)
    assert_eq!(ranked[0], "mistral");
    assert_eq!(ranked[1], "groq");
}

#[test]
fn single_failure_drops_provider_below_known_good() {
    let mut stats = make_stats();
    // deepgram: 1/1 → rate 2/3 ≈ 0.667
    stats.record_success("deepgram", 50, 10);
    // mistral: 0/1 → rate 1/3 ≈ 0.33
    stats.record_failure("mistral", 50);

    let ranked = stats.ranked_providers(&avail(&["mistral", "deepgram"]));
    assert_eq!(ranked, vec!["deepgram", "mistral"]);
}

#[test]
fn empty_available_returns_empty() {
    let stats = make_stats();
    assert!(stats.ranked_providers(&[]).is_empty());
}

#[test]
fn large_sample_overrides_small_sample() {
    // groq: 1/1 success, very fast
    let mut stats = make_stats();
    stats.record_success("groq", 20, 10);

    // deepgram: 50/51 success (rate = 51/53 ≈ 0.962), slower
    for _ in 0..50 {
        stats.record_success("deepgram", 200, 10);
    }
    stats.record_failure("deepgram", 200);

    let ranked = stats.ranked_providers(&avail(&["groq", "deepgram"]));
    // deepgram (0.962) >> groq (0.667)
    assert_eq!(ranked, vec!["deepgram", "groq"]);
}

#[test]
fn recording_adds_up() {
    let mut stats = Stats::default();
    stats.record_success("groq", 120, 7);
    stats.record_success("groq", 80, 5);
    stats.record_failure("groq", 40);
    assert_eq!(
        stats.get("groq"),
        Some(ProviderStats {
            calls: 3,
            successes: 2,
            failures: 1,
            total_latency_ms: 240,
            total_chars: 12,
        })
    );
    assert_eq!(stats.get("mistral"), None);
}

#[test]
fn providers_are_kept_in_order_of_their_names() {
    let mut stats = Stats::new();
    stats.record_success("mistral", 1, 1);
    stats.record_success("deepgram", 1, 1);
    stats.record_success("groq", 1, 1);
    stats.record_success("deepgram", 1, 1);
    let names: Vec<&str> = stats.providers.iter().map(|p| p.0.as_str()).collect();
    assert_eq!(names, vec!["deepgram", "groq", "mistral"]);
}

#[test]
fn a_failed_provider_goes_behind_an_unknown_one() {
    // 0/1 gives 1/3, which is below the 1/2 of a provider without a record.
    let mut stats = Stats::new();
    stats.record_failure("deepgram", 10);
    let ranked = stats.ranked_providers(&avail(&["deepgram", "groq"]));
    assert_eq!(ranked, vec!["groq", "deepgram"]);
}

#[test]
fn half_of_the_calls_and_a_fair_latency_beat_an_unknown_one() {
    // 1/2 gives 2/4, the rate of a provider without a record; latency decides.
    let mut stats = Stats::new();
    stats.record_success("deepgram", 99_999, 10);
    stats.record_failure("deepgram", 99_999);
    let ranked = stats.ranked_providers(&avail(&["groq", "deepgram"]));
    assert_eq!(ranked, vec!["deepgram", "groq"]);

    let mut slow = Stats::new();
    slow.record_success("deepgram", 100_000, 10);
    slow.record_failure("deepgram", 100_000);
    let ranked = slow.ranked_providers(&avail(&["groq", "deepgram"]));
    assert_eq!(ranked, vec!["groq", "deepgram"]);
}

#[test]
fn counters_at_their_limit_have_no_room() {
    let mut stats = Stats::new();
    assert!(stats.has_room("groq", 10, 10));
    stats.insert(
        "groq",
        ProviderStats {
            calls: 1,
            successes: 1,
            failures: 0,
            total_latency_ms: u64::MAX - 5,
            total_chars: 0,
        },
    );
    assert!(stats.has_room("groq", 5, 10));
    assert!(!stats.has_room("groq", 6, 10));
}

#[test]
fn table_lists_providers_by_calls() {
    let mut stats = Stats::new();
    stats.record_success("deepgram", 100, 10);
    stats.record_success("groq", 50, 20);
    stats.record_success("groq", 70, 21);
    stats.record_failure("groq", 30);
    let lines = stats.print_table();
    assert_eq!(lines[0], "voxtype provider statistics");
    assert_eq!(lines[1], "");
    assert_eq!(
        lines[2],
        "Provider      Calls     OK   Fail    Avg(ms) Avg(chars)     Success%    Total(ms)"
    );
    assert_eq!(lines[3], "-".repeat(82));
    assert_eq!(
        lines[4],
        "groq              3      2      1         50         20          66%          150"
    );
    assert_eq!(
        lines[5],
        "deepgram          1      1      0        100         10         100%          100"
    );
    assert_eq!(lines.len(), 6);
}

#[test]
fn empty_table_says_so() {
    let lines = Stats::new().print_table();
    assert_eq!(lines.len(), 5);
    assert_eq!(
        lines[4],
        "No statistics recorded yet. Use voxtype to start transcribing."
    );
}
