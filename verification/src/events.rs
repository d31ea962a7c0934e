//! From keys to commands.

use vstd::prelude::*;

verus! {

/// A key as the reader tells keys apart.
#[derive(Clone, Copy, Debug, PartialEq, Eq, Structural)]
pub enum Key {
    /// A key that stands for a character.
    Char(char),
    /// The escape key.
    Esc,
    /// The arrow keys.
    Up,
    Down,
    Left,
    Right,
    /// Any other key.
    Other,
}

/// What the user asks of the reader.
#[derive(Clone, Copy, Debug, PartialEq, Eq, Structural)]
pub enum AppEvent {
    /// End the session, or close the help if it is open.
    Quit,
    /// Suspend or resume advancing.
    TogglePause,
    /// Open or close the help.
    ToggleHelp,
    /// Scroll the help towards its start.
    ScrollUp,
    /// Scroll the help towards its end.
    ScrollDown,
    /// Skip words ahead.
    FastForward,
    /// Skip words back.
    Rewind,
    /// Nothing.
    Continue,
}

/// The command that a key gives: `q` and escape quit, the space bar pauses,
/// `?` opens the help, `j` and `k` and the vertical arrows scroll, `l` and
/// `h` and the horizontal arrows skip. Every other key gives nothing.
pub open spec fn event_of(key: Key) -> AppEvent {
    match key {
        Key::Esc => AppEvent::Quit,
        Key::Char(c) => if c == 'q' {
            AppEvent::Quit
        } else if c == ' ' {
            AppEvent::TogglePause
        } else if c == '?' {
            AppEvent::ToggleHelp
        } else if c == 'j' {
            AppEvent::ScrollDown
        } else if c == 'k' {
            AppEvent::ScrollUp
        } else if c == 'l' {
            AppEvent::FastForward
        } else if c == 'h' {
            AppEvent::Rewind
        } else {
            AppEvent::Continue
        },
        Key::Down => AppEvent::ScrollDown,
        Key::Up => AppEvent::ScrollUp,
        Key::Right => AppEvent::FastForward,
        Key::Left => AppEvent::Rewind,
        Key::Other => AppEvent::Continue,
    }
}

/// The command for what the wait for input brought: a key, or nothing when
/// the wait ran out or something other than a key came.
pub open spec fn event_of_input(input: Option<Key>) -> AppEvent {
    match input {
        Some(key) => event_of(key),
        None => AppEvent::Continue,
    }
}

impl AppEvent {
    /// The command that `key` gives.
    pub fn from_key(key: Key) -> (event: AppEvent)
        ensures
            event == event_of(key),
    {
        match key {
            Key::Esc => AppEvent::Quit,
            Key::Char(c) => if c == 'q' {
                AppEvent::Quit
            } else if c == ' ' {
                AppEvent::TogglePause
            } else if c == '?' {
                AppEvent::ToggleHelp
            } else if c == 'j' {
                AppEvent::ScrollDown
            } else if c == 'k' {
                AppEvent::ScrollUp
            } else if c == 'l' {
                AppEvent::FastForward
            } else if c == 'h' {
                AppEvent::Rewind
            } else {
                AppEvent::Continue
            },
            Key::Down => AppEvent::ScrollDown,
            Key::Up => AppEvent::ScrollUp,
            Key::Right => AppEvent::FastForward,
            Key::Left => AppEvent::Rewind,
            Key::Other => AppEvent::Continue,
        }
    }
}

/// Turns what the wait for input brought into a command.
pub fn handle_events(input: Option<Key>) -> (event: AppEvent)
    ensures
        event == event_of_input(input),
{
    match input {
        Some(key) => AppEvent::from_key(key),
        None => AppEvent::Continue,
    }
}

} // verus!
