//! How the terminal is set up for a session, and what is undone at its end.

use vstd::prelude::*;

verus! {

/// The number of lines that the reader takes in inline mode.
pub const INLINE_HEIGHT: u16 = 5;

/// The part of the terminal that the reader draws on.
#[derive(Clone, Copy, Debug, PartialEq, Eq, Structural)]
pub enum Viewport {
    /// The whole screen.
    Fullscreen,
    /// So many lines below the cursor.
    Inline(u16),
}

/// What is done to the terminal before the first frame.
#[derive(Clone, Copy, Debug, PartialEq, Eq, Structural)]
pub struct TerminalSetup {
    /// Whether keys are read one by one, without echo.
    pub raw_mode: bool,
    /// Whether the session runs on the alternate screen.
    pub alternate_screen: bool,
    /// Where the reader draws.
    pub viewport: Viewport,
}

/// The setup of a session: inline it takes five lines and leaves the
/// terminal as it is; otherwise it takes the alternate screen in raw mode.
pub open spec fn setup_for(is_inline: bool) -> TerminalSetup {
    if is_inline {
        TerminalSetup {
            raw_mode: false,
            alternate_screen: false,
            viewport: Viewport::Inline(INLINE_HEIGHT),
        }
    } else {
        TerminalSetup { raw_mode: true, alternate_screen: true, viewport: Viewport::Fullscreen }
    }
}

/// Says what to do to the terminal before the first frame.
pub fn init(is_inline: bool) -> (setup: TerminalSetup)
    ensures
        setup == setup_for(is_inline),
{
    if is_inline {
        TerminalSetup {
            raw_mode: false,
            alternate_screen: false,
            viewport: Viewport::Inline(INLINE_HEIGHT),
        }
    } else {
        TerminalSetup { raw_mode: true, alternate_screen: true, viewport: Viewport::Fullscreen }
    }
}

/// Says what to undo at the end of the session: what `init` had done.
pub fn restore(is_inline: bool) -> (setup: TerminalSetup)
    ensures
        setup == setup_for(is_inline),
{
    init(is_inline)
}

} // verus!
