use ethaddrgen::{
    address_from_hash, check_patterns, decimal_string, derive_address, evaluate, generate,
    header_segments, no_pattern_segments, quiet_line, rate_segments, result_segments,
    to_hex_string, worker_pool_size, worker_step, Candidate, ColorValue, CoordinatorPoll, RegexPatterns,
    SearchError, SearchState, Segment, Tint, WorkerStep,
};

fn patterns(raw: &[&str]) -> RegexPatterns {
    let owned: Vec<String> = raw.iter().map(|s| s.to_string()).collect();
    RegexPatterns::new(&owned)
}

fn is_lower_hex(s: &str) -> bool {
    s.chars().all(|c| c.is_ascii_digit() || ('a'..='f').contains(&c))
}

fn texts(segments: &[Segment]) -> Vec<String> {
    segments.iter().map(|s| s.text.clone()).collect()
}

fn sample_candidate() -> Candidate {
    Candidate::from_keypair(&[0xabu8; 32], &[])
}

#[test]
fn hex_encodes_bytes_in_order() {
    assert_eq!(to_hex_string(&[0x00, 0xff, 0x1a, 0x09], 8), "00ff1a09");
    assert_eq!(to_hex_string(&[], 0), "");
}

#[test]
fn address_takes_low_order_twenty_bytes() {
    let hash: Vec<u8> = (0u8..32).collect();
    assert_eq!(
        address_from_hash(&hash),
        "0c0d0e0f101112131415161718191a1b1c1d1e1f"
    );
}

#[test]
fn derive_address_hashes_with_keccak256() {
    // Keccak-256 of the empty input ends in these twenty bytes.
    assert_eq!(derive_address(&[]), "dcc703c0e500b653ca82273b7bfad8045d85a470");
}

#[test]
fn candidate_from_keypair_encodes_both_parts() {
    let c = Candidate::from_keypair(&[1u8; 32], &[]);
    assert_eq!(c.private_key().as_str(), "01".repeat(32));
    assert_eq!(c.address().as_str(), "dcc703c0e500b653ca82273b7bfad8045d85a470");
}

#[test]
fn generated_candidates_are_lowercase_hex_of_fixed_length() {
    for _ in 0..20 {
        let c = generate();
        assert_eq!(c.address().len(), 40);
        assert!(is_lower_hex(c.address()));
        assert_eq!(c.private_key().len(), 64);
        assert!(is_lower_hex(c.private_key()));
    }
}

#[test]
fn generated_candidates_differ() {
    let a = generate();
    let b = generate();
    assert_ne!(a.private_key(), b.private_key());
}

#[test]
fn invalid_patterns_are_dropped_and_valid_ones_kept() {
    let p = patterns(&["abc", "(", "^0", "["]);
    assert_eq!(p.len(), 2);
    assert!(p.contains("xxabcxx"));
    assert!(p.contains("0fff"));
    assert!(!p.contains("f0ff"));
}

#[test]
fn match_everything_pattern_matches_every_text() {
    let p = patterns(&[".*"]);
    assert_eq!(p.len(), 1);
    assert!(p.contains(""));
    assert!(p.contains("deadbeef"));
}

#[test]
fn contains_is_case_insensitive_and_unanchored() {
    let p = patterns(&["BEEF"]);
    assert!(p.contains("00deadbeef00"));
    assert!(!p.contains("00deadbee00"));
}

#[test]
fn contains_honours_anchors_in_patterns() {
    let p = patterns(&["^dead", "f00d$"]);
    assert!(p.contains("deadbeef"));
    assert!(p.contains("0000f00d"));
    assert!(!p.contains("beefdead"));
}

#[test]
fn contains_is_unicode_aware() {
    let p = patterns(&["é"]);
    assert!(p.contains("CAFÉ"));
}

#[test]
fn contains_is_single_line() {
    let p = patterns(&["^b"]);
    assert!(!p.contains("a\nb"));
    let dot = patterns(&["a.b"]);
    assert!(!dot.contains("a\nb"));
}

#[test]
fn empty_set_matches_nothing() {
    let p = patterns(&[]);
    assert_eq!(p.len(), 0);
    assert!(!p.contains("anything"));
}

#[test]
fn evaluate_keeps_only_matches() {
    let c = sample_candidate();
    assert!(evaluate(&patterns(&["dcc7"]), c).is_some());
    let c = sample_candidate();
    assert!(evaluate(&patterns(&["zzz"]), c).is_none());
}

#[test]
fn zero_valid_patterns_refuse_to_start() {
    assert_eq!(check_patterns(&patterns(&[])), Err(SearchError::NoValidPattern));
    assert_eq!(check_patterns(&patterns(&["(", "["])), Err(SearchError::NoValidPattern));
    assert_eq!(SearchError::NoValidPattern.exit_code(), 1);
    assert_eq!(check_patterns(&patterns(&["a"])), Ok(()));
    assert_eq!(texts(&no_pattern_segments()), vec!["Please, provide at least one valid pattern."]);
}

#[test]
fn match_everything_round_ends_with_a_result() {
    let p = patterns(&[".*"]);
    let mut state = SearchState::new(2);
    let step = worker_step(&p, state.is_found());
    assert!(matches!(step, WorkerStep::Matched(_)));
    state.apply(step);
    assert!(state.is_found());
    for _ in 0..2 {
        let step = worker_step(&p, state.is_found());
        assert!(matches!(step, WorkerStep::Stop));
        state.apply(step);
    }
    assert!(state.is_complete());
    let c = state.take_result().unwrap();
    assert_eq!(c.address().len(), 40);
}

#[test]
fn missed_candidates_are_counted() {
    let p = patterns(&["^this will never match a hex address$"]);
    let step = worker_step(&p, false);
    assert!(matches!(step, WorkerStep::Missed));
}

#[test]
fn reporter_tick_reports_and_resets_counter() {
    let mut state = SearchState::new(1);
    state.apply(WorkerStep::Missed);
    state.apply(WorkerStep::Missed);
    state.apply(WorkerStep::Missed);
    assert!(state.reporter_tick(false));
    let line = state.take_pending_line().unwrap();
    assert_eq!(texts(&line), vec!["3", " addresses / second"]);
    assert!(state.take_pending_line().is_none());
    assert!(state.reporter_tick(false));
    assert_eq!(texts(&state.take_pending_line().unwrap()), vec!["0", " addresses / second"]);
}

#[test]
fn reporter_latest_line_wins() {
    let mut state = SearchState::new(1);
    state.apply(WorkerStep::Missed);
    assert!(state.reporter_tick(false));
    state.apply(WorkerStep::Missed);
    state.apply(WorkerStep::Missed);
    assert!(state.reporter_tick(false));
    assert_eq!(texts(&state.take_pending_line().unwrap())[0], "2");
}

#[test]
fn reporter_stops_once_found() {
    let mut state = SearchState::new(1);
    state.apply(WorkerStep::Matched(sample_candidate()));
    assert!(!state.reporter_tick(false));
    assert!(state.take_pending_line().is_none());
}

#[test]
fn later_match_replaces_earlier() {
    let mut state = SearchState::new(2);
    state.apply(WorkerStep::Matched(sample_candidate()));
    state.apply(WorkerStep::Matched(Candidate::from_keypair(&[1u8; 32], &[])));
    assert_eq!(state.take_result().unwrap().private_key().as_str(), "01".repeat(32));
}

#[test]
fn decimal_text() {
    assert_eq!(decimal_string(0), "0");
    assert_eq!(decimal_string(1234), "1234");
    assert_eq!(decimal_string(u64::MAX), "18446744073709551615");
}

#[test]
fn header_text_is_pluralised() {
    let one = header_segments(1, false);
    assert_eq!(one.len(), 6);
    assert_eq!(one[0].text, "-".repeat(87));
    assert_eq!(one[1].text, "Looking for an address matching ");
    assert_eq!(one[2].text, "1");
    assert_eq!(one[2].tint, Tint::Cyan);
    assert_eq!(one[3].text, " pattern");
    let many = header_segments(3, false);
    assert_eq!(many[1].text, "Looking for an address matching any of ");
    assert_eq!(many[2].text, "3");
    assert_eq!(many[3].text, " patterns");
    assert!(header_segments(3, true).is_empty());
}

#[test]
fn rate_line_text() {
    let line = rate_segments(42, false);
    assert_eq!(texts(&line), vec!["42", " addresses / second"]);
    assert!(line[1].line_end);
    assert!(rate_segments(42, true).is_empty());
}

#[test]
fn result_block_text() {
    let c = sample_candidate();
    let block = result_segments(&c, false);
    assert_eq!(block.len(), 8);
    assert_eq!(block[1].text, "Found address: ");
    assert_eq!(block[2].text, "0xdcc703c0e500b653ca82273b7bfad8045d85a470");
    assert_eq!(block[2].tint, Tint::Yellow);
    assert_eq!(block[4].text, "ab".repeat(32));
    assert!(result_segments(&c, true).is_empty());
}

#[test]
fn quiet_line_round_trips() {
    let c = generate();
    let line = quiet_line(&c);
    let fields: Vec<&str> = line.split_whitespace().collect();
    assert_eq!(fields, vec![format!("0x{}", c.address()), c.private_key().clone()]);
    let c = sample_candidate();
    assert_eq!(
        quiet_line(&c),
        format!("0xdcc703c0e500b653ca82273b7bfad8045d85a470 {}", "ab".repeat(32))
    );
}

#[test]
fn pool_has_a_worker() {
    assert!(worker_pool_size() >= 1);
}

#[test]
fn color_defaults_to_auto() {
    assert_eq!(ColorValue::default(), ColorValue::Auto);
}

#[test]
fn coordinator_poll_drains_then_completes() {
    let mut state = SearchState::new(1);
    state.apply(WorkerStep::Missed);
    assert!(state.reporter_tick(false));
    match state.poll() {
        CoordinatorPoll::Running(Some(line)) => assert_eq!(texts(&line)[0], "1"),
        other => panic!("unexpected poll: {:?}", other),
    }
    assert!(matches!(state.poll(), CoordinatorPoll::Running(None)));
    state.apply(WorkerStep::Matched(sample_candidate()));
    state.apply(WorkerStep::Stop);
    assert!(matches!(state.poll(), CoordinatorPoll::Complete));
    assert!(state.take_result().is_some());
}
