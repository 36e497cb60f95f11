use scribe::rules::{calculate_metrics, normalize_word, split_words, RuleTranscriptSegment};

fn segment(text: &str, started_at_ms: u64, ended_at_ms: u64) -> RuleTranscriptSegment {
    RuleTranscriptSegment {
        text: text.to_string(),
        started_at_ms,
        ended_at_ms,
    }
}

fn chars(s: &str) -> Vec<char> {
    s.chars().collect()
}

#[test]
fn words_are_runs_of_non_space() {
    let words = split_words(&chars("  Um,  I think\twe\n"));
    let words: Vec<String> = words.iter().map(|w| w.iter().collect()).collect();
    assert_eq!(words, vec!["Um,", "I", "think", "we"]);
    assert!(split_words(&chars("   ")).is_empty());
}

#[test]
fn words_are_compared_without_punctuation_or_case() {
    let n: String = normalize_word(&chars("\"Um,")).iter().collect();
    assert_eq!(n, "um");
    let n: String = normalize_word(&chars("don't!")).iter().collect();
    assert_eq!(n, "don't");
    assert!(normalize_word(&chars("...")).is_empty());
}

#[test]
fn metrics_count_words_fillers_and_hedges() {
    let metrics = calculate_metrics(&[
        segment("Um, I think we should, like, maybe wait.", 0, 4_000),
        segment("Sort of.", 5_000, 5_500),
    ]);
    assert_eq!(metrics.word_count, 10);
    assert_eq!(metrics.filler_word_count, 2);
    assert_eq!(metrics.hedging_phrase_count, 3);
    assert_eq!(metrics.speaking_duration_ms, 4_500);
    assert_eq!(metrics.longest_monologue_ms, 4_000);
}

#[test]
fn a_hedge_does_not_span_two_segments() {
    let metrics = calculate_metrics(&[segment("I", 0, 10), segment("think", 10, 20)]);
    assert_eq!(metrics.hedging_phrase_count, 0);
}

#[test]
fn pace_is_judged_per_minute_of_speaking() {
    let fast = calculate_metrics(&[segment(&"word ".repeat(21), 0, 5_000)]);
    assert!(fast.is_fast_pace());
    assert!(!fast.is_slow_pace());
    let slow = calculate_metrics(&[segment(&"word ".repeat(20), 0, 60_000)]);
    assert!(slow.is_slow_pace());
    let none = calculate_metrics(&[segment("a b c", 10, 10)]);
    assert!(!none.is_fast_pace() && !none.is_slow_pace());
    let backwards = calculate_metrics(&[segment("a", 50, 10)]);
    assert_eq!(backwards.speaking_duration_ms, 0);
    assert_eq!(calculate_metrics(&[]).word_count, 0);
}
