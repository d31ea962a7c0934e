use spr_reader::events::{handle_events, AppEvent, Key};
use spr_reader::session::{LoopControl, Session};
use spr_reader::words::EmptyInputError;

const MS: u64 = 1_000_000;

fn twenty_words() -> String {
    (0..20).map(|i| format!("w{}", i)).collect::<Vec<_>>().join(" ")
}

fn session(step: usize) -> Session {
    Session::start_at(&twenty_words(), 300, step, false, 0).unwrap()
}

#[test]
fn keys_map_to_commands() {
    assert_eq!(AppEvent::from_key(Key::Char('q')), AppEvent::Quit);
    assert_eq!(AppEvent::from_key(Key::Esc), AppEvent::Quit);
    assert_eq!(AppEvent::from_key(Key::Char(' ')), AppEvent::TogglePause);
    assert_eq!(AppEvent::from_key(Key::Char('?')), AppEvent::ToggleHelp);
    assert_eq!(AppEvent::from_key(Key::Char('j')), AppEvent::ScrollDown);
    assert_eq!(AppEvent::from_key(Key::Down), AppEvent::ScrollDown);
    assert_eq!(AppEvent::from_key(Key::Char('k')), AppEvent::ScrollUp);
    assert_eq!(AppEvent::from_key(Key::Up), AppEvent::ScrollUp);
    assert_eq!(AppEvent::from_key(Key::Char('l')), AppEvent::FastForward);
    assert_eq!(AppEvent::from_key(Key::Right), AppEvent::FastForward);
    assert_eq!(AppEvent::from_key(Key::Char('h')), AppEvent::Rewind);
    assert_eq!(AppEvent::from_key(Key::Left), AppEvent::Rewind);
}

#[test]
fn unrecognized_keys_map_to_continue() {
    assert_eq!(AppEvent::from_key(Key::Other), AppEvent::Continue);
    for c in ['Q', 'a', 'x', '1', '/', 'J', 'K', 'L', 'H', '\n', '\u{e9}'] {
        assert_eq!(AppEvent::from_key(Key::Char(c)), AppEvent::Continue);
    }
}

#[test]
fn no_input_maps_to_continue() {
    assert_eq!(handle_events(None), AppEvent::Continue);
    assert_eq!(handle_events(Some(Key::Esc)), AppEvent::Quit);
    assert_eq!(handle_events(Some(Key::Char(' '))), AppEvent::TogglePause);
}

#[test]
fn start_fails_on_empty_input() {
    assert!(matches!(Session::start_at("", 300, 5, true, 0), Err(EmptyInputError)));
    assert!(matches!(Session::start_at(" \n\t ", 300, 5, true, 0), Err(EmptyInputError)));
    assert!(matches!(Session::start("", 300, 5, true), Err(EmptyInputError)));
}

#[test]
fn start_begins_at_the_first_word() {
    let session = Session::start("Hello world. Foo", 300, 5, true).unwrap();
    assert_eq!(session.state.current_word(), Some("Hello"));
    assert_eq!(session.state.total_words(), 3);
    assert!(!session.overlay.is_visible());
    assert_eq!(session.seek_step, 5);
    assert!(session.animate_border);
}

#[test]
fn fast_forward_and_rewind_scenario() {
    let mut s = session(5);
    s.state.seek_at(2, 0);
    assert_eq!(s.state.index(), 2);
    assert_eq!(s.apply_event_at(AppEvent::FastForward, 0), LoopControl::Continue);
    assert_eq!(s.state.index(), 7);
    assert_eq!(s.apply_event_at(AppEvent::Rewind, 0), LoopControl::Continue);
    assert_eq!(s.state.index(), 2);
    assert_eq!(s.apply_event_at(AppEvent::Rewind, 0), LoopControl::Continue);
    assert_eq!(s.state.index(), 0);
}

#[test]
fn fast_forward_stops_at_the_last_word() {
    let mut s = session(usize::MAX);
    s.apply_event_at(AppEvent::FastForward, 0);
    assert_eq!(s.state.index(), 19);
    s.apply_event_at(AppEvent::FastForward, 0);
    assert_eq!(s.state.index(), 19);
    s.apply_event_at(AppEvent::Rewind, 0);
    assert_eq!(s.state.index(), 0);
}

#[test]
fn quit_ends_the_session() {
    let mut s = session(5);
    assert_eq!(s.apply_event_at(AppEvent::Quit, 0), LoopControl::Exit);
    assert_eq!(s.step_at(Some(Key::Char('q')), 0), LoopControl::Exit);
    assert_eq!(s.step_at(Some(Key::Esc), 0), LoopControl::Exit);
}

#[test]
fn quit_closes_the_help_first() {
    let mut s = session(5);
    assert_eq!(s.step_at(Some(Key::Char('?')), 0), LoopControl::Continue);
    assert!(s.overlay.is_visible());
    assert_eq!(s.step_at(Some(Key::Char('q')), 0), LoopControl::Continue);
    assert!(!s.overlay.is_visible());
    assert_eq!(s.step_at(Some(Key::Char('q')), 0), LoopControl::Exit);
}

#[test]
fn seek_is_ignored_while_the_help_is_open() {
    let mut s = session(5);
    s.apply_event_at(AppEvent::ToggleHelp, 0);
    s.apply_event_at(AppEvent::FastForward, 0);
    assert_eq!(s.state.index(), 0);
    s.apply_event_at(AppEvent::ToggleHelp, 0);
    s.apply_event_at(AppEvent::FastForward, 0);
    assert_eq!(s.state.index(), 5);
    s.apply_event_at(AppEvent::ToggleHelp, 0);
    s.apply_event_at(AppEvent::Rewind, 0);
    assert_eq!(s.state.index(), 5);
}

#[test]
fn scrolling_moves_the_help_only_while_it_is_open() {
    let mut s = session(5);
    s.apply_event_at(AppEvent::ScrollDown, 0);
    assert_eq!(s.overlay.scroll_offset(), 0);
    s.apply_event_at(AppEvent::ToggleHelp, 0);
    s.apply_event_at(AppEvent::ScrollDown, 0);
    s.apply_event_at(AppEvent::ScrollDown, 0);
    s.apply_event_at(AppEvent::ScrollUp, 0);
    assert_eq!(s.overlay.scroll_offset(), 1);
    assert_eq!(s.state.index(), 0);
}

#[test]
fn toggle_pause_event() {
    let mut s = session(5);
    s.apply_event_at(AppEvent::TogglePause, 0);
    assert!(s.state.is_paused());
    assert_eq!(s.tick_at(10_000 * MS), LoopControl::Continue);
    assert_eq!(s.state.index(), 0);
    s.apply_event_at(AppEvent::TogglePause, 10_000 * MS);
    assert!(!s.state.is_paused());
    assert_eq!(s.tick_at(10_100 * MS), LoopControl::Continue);
    assert_eq!(s.state.index(), 0);
    assert_eq!(s.tick_at(10_200 * MS), LoopControl::Continue);
    assert_eq!(s.state.index(), 1);
}

#[test]
fn continue_changes_nothing() {
    let mut s = session(5);
    assert_eq!(s.apply_event_at(AppEvent::Continue, 123), LoopControl::Continue);
    assert_eq!(s.state.index(), 0);
    assert_eq!(s.state.deadline(), u128::from(200 * MS));
    assert!(!s.state.is_paused());
    assert!(!s.overlay.is_visible());
}

#[test]
fn tick_advances_when_due() {
    let mut s = session(5);
    assert_eq!(s.tick_at(199 * MS), LoopControl::Continue);
    assert_eq!(s.state.index(), 0);
    assert_eq!(s.tick_at(200 * MS), LoopControl::Continue);
    assert_eq!(s.state.index(), 1);
    assert_eq!(s.state.deadline(), u128::from(400 * MS));
}

#[test]
fn help_suppresses_advancement() {
    let mut s = session(5);
    s.apply_event_at(AppEvent::ToggleHelp, 0);
    assert_eq!(s.tick_at(5_000 * MS), LoopControl::Continue);
    assert_eq!(s.state.index(), 0);
    s.apply_event_at(AppEvent::ToggleHelp, 5_000 * MS);
    assert_eq!(s.tick_at(5_000 * MS), LoopControl::Continue);
    assert_eq!(s.state.index(), 1);
}

#[test]
fn border_reveal_suppresses_advancement() {
    let mut s = Session::start_at(&twenty_words(), 300, 5, true, 0).unwrap();
    assert!(s.is_revealing_at(0));
    assert!(s.is_revealing_at(599 * MS + 999_999));
    assert!(!s.is_revealing_at(600 * MS));
    assert_eq!(s.tick_at(300 * MS), LoopControl::Continue);
    assert_eq!(s.state.index(), 0);
    assert_eq!(s.tick_at(599 * MS), LoopControl::Continue);
    assert_eq!(s.state.index(), 0);
    assert_eq!(s.tick_at(600 * MS), LoopControl::Continue);
    assert_eq!(s.state.index(), 1);
}

#[test]
fn no_reveal_without_animation() {
    let s = session(5);
    assert!(!s.is_revealing_at(0));
}

#[test]
fn the_session_ends_after_the_last_word() {
    let mut s = Session::start_at("Hello world. Foo", 300, 5, false, 0).unwrap();
    assert_eq!(s.step_at(None, 200 * MS), LoopControl::Continue);
    assert_eq!(s.state.current_word(), Some("world."));
    assert_eq!(s.state.timeout_at(200 * MS), 700 * MS);
    assert_eq!(s.step_at(None, 900 * MS), LoopControl::Continue);
    assert_eq!(s.state.current_word(), Some("Foo"));
    assert_eq!(s.step_at(None, 1_000 * MS), LoopControl::Continue);
    assert_eq!(s.step_at(None, 1_100 * MS), LoopControl::Exit);
    assert!(s.state.is_finished());
}

#[test]
fn a_step_carries_out_the_command_before_it_advances() {
    let mut s = session(5);
    // The skip restarts the interval, so nothing is due in the same round.
    assert_eq!(s.step_at(Some(Key::Char('l')), 500 * MS), LoopControl::Continue);
    assert_eq!(s.state.index(), 5);
    // The pause key stops the word that was due.
    assert_eq!(s.step_at(Some(Key::Char(' ')), 800 * MS), LoopControl::Continue);
    assert_eq!(s.state.index(), 5);
    assert!(s.state.is_paused());
}

#[test]
fn step_with_the_clock() {
    let mut s = Session::start("a b c", 1, 1, false).unwrap();
    assert_eq!(s.step(Some(Key::Right)), LoopControl::Continue);
    assert_eq!(s.state.index(), 1);
    assert_eq!(s.step(None), LoopControl::Continue);
    assert_eq!(s.state.index(), 1);
    assert_eq!(s.step(Some(Key::Char('?'))), LoopControl::Continue);
    assert_eq!(s.step(Some(Key::Esc)), LoopControl::Continue);
    assert_eq!(s.step(Some(Key::Esc)), LoopControl::Exit);
}
