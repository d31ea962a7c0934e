use spr_reader::state::{
    ends_sentence, interval_nanos, word_bonus, AppState, NANOS_PER_MINUTE,
    PUNCTUATION_DWELL_NANOS,
};

const MS: u64 = 1_000_000;

fn twenty_words() -> String {
    (0..20).map(|i| format!("w{}", i)).collect::<Vec<_>>().join(" ")
}

#[test]
fn base_interval_at_300_wpm_is_200_ms() {
    assert_eq!(interval_nanos(300), 200 * MS);
}

#[test]
fn base_interval_rounds_down() {
    assert_eq!(interval_nanos(7), 8_571_428_571);
    assert_eq!(interval_nanos(1), NANOS_PER_MINUTE);
    assert_eq!(interval_nanos(u64::MAX), 0);
}

#[test]
fn sentence_ends() {
    for c in ['.', '!', '?', ';'] {
        assert!(ends_sentence(c));
    }
    for c in [',', ':', 'a', ' ', '-', ')', '"'] {
        assert!(!ends_sentence(c));
    }
}

#[test]
fn word_bonus_is_half_a_second_after_a_sentence() {
    assert_eq!(PUNCTUATION_DWELL_NANOS, 500 * MS);
    assert_eq!(word_bonus("world."), 500 * MS);
    assert_eq!(word_bonus("what?"), 500 * MS);
    assert_eq!(word_bonus("no!"), 500 * MS);
    assert_eq!(word_bonus("so;"), 500 * MS);
    assert_eq!(word_bonus("world"), 0);
    assert_eq!(word_bonus("well,"), 0);
    assert_eq!(word_bonus(".x"), 0);
    assert_eq!(word_bonus(""), 0);
}

#[test]
fn new_engine_starts_at_the_first_word() {
    let state = AppState::new_at("Hello world. Foo", 300, 0);
    assert_eq!(state.current_word(), Some("Hello"));
    assert_eq!(state.index(), 0);
    assert_eq!(state.total_words(), 3);
    assert_eq!(state.wpm(), 300);
    assert!(!state.is_paused());
    assert!(!state.is_finished());
    assert_eq!(state.deadline(), 200_000_000);
}

#[test]
fn new_engine_with_the_clock() {
    let state = AppState::new("one two", 600);
    assert_eq!(state.current_word(), Some("one"));
    assert_eq!(state.total_words(), 2);
    let interval = u128::from(interval_nanos(600));
    assert!(state.deadline() >= interval);
    assert!(state.deadline() <= interval + u128::from(state.now()));
    assert!(state.get_timeout() <= interval_nanos(600));
}

#[test]
fn from_words_keeps_the_words() {
    let words = vec!["a".to_string(), "b.".to_string()];
    let mut state = AppState::from_words_at(words, 60, 5);
    assert_eq!(state.current_word(), Some("a"));
    assert_eq!(state.deadline(), 1_000_000_005);
    assert!(state.advance_word_at(10));
    assert_eq!(state.current_word(), Some("b."));
    let timed = AppState::from_words(vec!["z".to_string()], 60);
    assert_eq!(timed.current_word(), Some("z"));
}

#[test]
fn seek_is_clamped_at_the_start() {
    let mut state = AppState::new_at(&twenty_words(), 300, 0);
    for delta in [-1, -5, -1000, i64::MIN] {
        state.seek_at(delta, 10);
        assert_eq!(state.index(), 0);
    }
}

#[test]
fn seek_is_clamped_at_the_end() {
    let mut state = AppState::new_at(&twenty_words(), 300, 0);
    state.seek_at(19, 0);
    assert_eq!(state.index(), 19);
    for delta in [1, 5, 1000, i64::MAX] {
        state.seek_at(delta, 10);
        assert_eq!(state.index(), 19);
        assert_eq!(state.current_word(), Some("w19"));
    }
}

#[test]
fn seek_moves_both_ways() {
    let mut state = AppState::new_at(&twenty_words(), 300, 0);
    state.seek_at(7, 0);
    assert_eq!(state.index(), 7);
    state.seek_at(-3, 0);
    assert_eq!(state.index(), 4);
    state.seek_at(0, 0);
    assert_eq!(state.index(), 4);
}

#[test]
fn seek_restarts_the_interval() {
    let mut state = AppState::new_at(&twenty_words(), 300, 0);
    state.seek_at(2, 1_000 * MS);
    assert_eq!(state.deadline(), u128::from(1_200 * MS));
    assert!(!state.should_advance_at(1_199 * MS));
    assert!(state.should_advance_at(1_200 * MS));
}

#[test]
fn seek_with_the_clock() {
    let mut state = AppState::new(&twenty_words(), 300);
    state.seek(5);
    assert_eq!(state.index(), 5);
    state.seek(-2);
    assert_eq!(state.index(), 3);
    state.seek(-100);
    assert_eq!(state.index(), 0);
    state.seek(100);
    assert_eq!(state.index(), 19);
}

#[test]
fn advance_returns_false_exactly_on_the_last_call() {
    for len in [1usize, 2, 3, 20] {
        let text = (0..len).map(|i| format!("w{}", i)).collect::<Vec<_>>().join(" ");
        let mut state = AppState::new_at(&text, 300, 0);
        for call in 1..=len {
            let more = state.advance_word_at(call as u64);
            assert_eq!(more, call < len, "call {} of {}", call, len);
        }
        assert!(state.is_finished());
        assert_eq!(state.current_word(), None);
        assert_eq!(state.index(), len);
    }
}

#[test]
fn advance_after_the_end_stays_ended() {
    let mut state = AppState::new_at("only", 300, 0);
    assert!(!state.advance_word_at(1));
    assert!(!state.advance_word_at(2));
    assert!(state.is_finished());
    assert_eq!(state.current_word(), None);
    assert_eq!(state.timeout_at(0), 200 * MS);
    assert_eq!(state.timeout_at(300 * MS), 0);
}

#[test]
fn advance_with_the_clock() {
    let mut state = AppState::new("a b", 300);
    assert!(state.advance_word());
    assert_eq!(state.current_word(), Some("b"));
    assert!(!state.advance_word());
    assert_eq!(state.current_word(), None);
}

#[test]
fn pausing_freezes_advancement() {
    let mut state = AppState::new_at("a b c", 300, 0);
    state.toggle_pause_at(50 * MS);
    assert!(state.is_paused());
    for now in [0, 200 * MS, 10_000 * MS, u64::MAX] {
        assert!(!state.should_advance_at(now));
    }
    assert_eq!(state.deadline(), u128::from(200 * MS));
}

#[test]
fn resuming_restarts_the_full_interval() {
    let mut state = AppState::new_at("a b c", 300, 0);
    state.toggle_pause_at(50 * MS);
    state.toggle_pause_at(60_000 * MS);
    assert!(!state.is_paused());
    assert_eq!(state.deadline(), u128::from(60_200 * MS));
    assert!(!state.should_advance_at(60_000 * MS));
    assert!(!state.should_advance_at(60_199 * MS));
    assert!(state.should_advance_at(60_200 * MS));
}

#[test]
fn toggle_pause_with_the_clock() {
    let mut state = AppState::new("a b c", 300);
    assert!(!state.is_paused());
    state.toggle_pause();
    assert!(state.is_paused());
    assert!(!state.should_advance());
    state.toggle_pause();
    assert!(!state.is_paused());
    assert!(!state.should_advance());
}

#[test]
fn should_advance_with_the_clock() {
    let state = AppState::new("a b c", 1);
    assert!(!state.should_advance());
    let fast = AppState::new("a b c", u64::MAX);
    assert!(fast.should_advance());
}

#[test]
fn timeout_of_a_plain_word_is_the_interval() {
    let state = AppState::new_at("Hello world. Foo", 300, 0);
    assert_eq!(state.timeout_at(0), 200 * MS);
    assert_eq!(state.timeout_at(50 * MS), 150 * MS);
    assert_eq!(state.timeout_at(200 * MS), 0);
    assert_eq!(state.timeout_at(900 * MS), 0);
}

#[test]
fn timeout_after_a_sentence_adds_half_a_second() {
    for text in ["a end. b", "a end! b", "a end? b", "a end; b"] {
        let mut state = AppState::new_at(text, 300, 0);
        assert!(state.advance_word_at(200 * MS));
        assert_eq!(state.timeout_at(200 * MS), 700 * MS);
        assert_eq!(state.timeout_at(400 * MS), 500 * MS);
        assert_eq!(state.timeout_at(5_000 * MS), 500 * MS);
    }
}

#[test]
fn timeout_after_other_punctuation_is_the_interval() {
    let mut state = AppState::new_at("a end, b", 300, 0);
    assert!(state.advance_word_at(200 * MS));
    assert_eq!(state.timeout_at(200 * MS), 200 * MS);
}

#[test]
fn timeout_saturates() {
    let state = AppState::new_at("end.", 1, u64::MAX);
    assert_eq!(state.timeout_at(0), u64::MAX);
}

#[test]
fn get_timeout_is_at_least_the_bonus() {
    let state = AppState::new("end. next", 300);
    let timeout = state.get_timeout();
    assert!(timeout >= 500 * MS);
    assert!(timeout <= 700 * MS);
}

#[test]
fn hello_world_scenario() {
    let mut state = AppState::new_at("Hello world. Foo", 300, 0);
    assert_eq!(state.current_word(), Some("Hello"));
    assert_eq!(state.timeout_at(0), 200 * MS);
    assert!(!state.should_advance_at(199 * MS));
    assert!(state.should_advance_at(200 * MS));

    assert!(state.advance_word_at(200 * MS));
    assert_eq!(state.current_word(), Some("world."));
    assert_eq!(state.timeout_at(200 * MS), 700 * MS);

    assert!(state.should_advance_at(900 * MS));
    assert!(state.advance_word_at(900 * MS));
    assert_eq!(state.current_word(), Some("Foo"));
    assert_eq!(state.timeout_at(900 * MS), 200 * MS);

    assert!(state.should_advance_at(1_100 * MS));
    assert!(!state.advance_word_at(1_100 * MS));
    assert!(state.is_finished());
    assert_eq!(state.current_word(), None);
}
