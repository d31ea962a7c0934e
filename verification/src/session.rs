//! The decisions of the event loop: what a command does to the session, and
//! whether the word on screen gives way to the next.
//!
//! The loop itself belongs to the front end. Once per round it draws the
//! frame, waits for input for as long as the pacing engine says, and hands
//! what came to `Session::step`, which says whether to go on.

use crate::effects::{border_settled, is_settled, NANOS_PER_MILLI};
use crate::events::{event_of_input, handle_events, AppEvent, Key};
use crate::overlay::{OverlayState, OverlayView};
use crate::state::{AppState, PacingState};
use crate::words::{is_blank, tokenize, tokens, EmptyInputError};
use vstd::prelude::*;

verus! {

/// The number of words that one skip passes over where nothing else is
/// set.
pub const DEFAULT_SEEK_STEP: usize = 5;

/// What the loop does after a round.
#[derive(Clone, Copy, Debug, PartialEq, Eq, Structural)]
pub enum LoopControl {
    /// Go on with the next round.
    Continue,
    /// End the session.
    Exit,
}

/// A reading session: the pacing engine, the help overlay, and the settings
/// that the loop's decisions depend on.
#[derive(Debug)]
pub struct Session {
    /// The pacing engine.
    pub state: AppState,
    /// The help overlay.
    pub overlay: OverlayState,
    /// The number of words that one skip passes over.
    pub seek_step: usize,
    /// Whether the border draws itself in when the session begins.
    pub animate_border: bool,
}

/// A session as a mathematical value.
pub struct SessionView {
    /// The pacing engine.
    pub pacing: PacingState,
    /// The help overlay.
    pub overlay: OverlayView,
    /// The number of words that one skip passes over.
    pub seek_step: nat,
    /// Whether the border draws itself in when the session begins.
    pub animate_border: bool,
}

impl View for Session {
    type V = SessionView;

    open spec fn view(&self) -> SessionView {
        SessionView {
            pacing: self.state@,
            overlay: self.overlay@,
            seek_step: self.seek_step as nat,
            animate_border: self.animate_border,
        }
    }
}

impl SessionView {
    /// The distance of one skip: the seek step, and never more than the
    /// largest distance that can be asked of the engine.
    pub open spec fn seek_delta(self) -> int {
        if self.seek_step > i64::MAX {
            i64::MAX as int
        } else {
            self.seek_step as int
        }
    }

    /// Whether the border is still drawing itself in at time `now`.
    pub open spec fn revealing(self, now: nat) -> bool {
        self.animate_border && !is_settled(now / (NANOS_PER_MILLI as nat))
    }

    /// Whether `event` ends the session: a quit does, unless the help is
    /// open.
    pub open spec fn exits_on(self, event: AppEvent) -> bool {
        event == AppEvent::Quit && !self.overlay.visible
    }

    /// The session after `event` at time `now`. A quit closes the help if
    /// it is open. The help key opens or closes it. Scrolling moves the
    /// help. A skip moves the engine by the seek step, unless the help is
    /// open. The pause key flips the pause flag.
    pub open spec fn after_event(self, event: AppEvent, now: nat) -> SessionView {
        match event {
            AppEvent::Quit => if self.overlay.visible {
                SessionView { overlay: OverlayView::hidden(), ..self }
            } else {
                self
            },
            AppEvent::TogglePause => SessionView { pacing: self.pacing.after_toggle(now), ..self },
            AppEvent::ToggleHelp => SessionView { overlay: self.overlay.toggled(), ..self },
            AppEvent::ScrollUp => SessionView { overlay: self.overlay.scrolled_up(), ..self },
            AppEvent::ScrollDown => SessionView { overlay: self.overlay.scrolled_down(), ..self },
            AppEvent::FastForward => if self.overlay.visible {
                self
            } else {
                SessionView { pacing: self.pacing.after_seek(self.seek_delta(), now), ..self }
            },
            AppEvent::Rewind => if self.overlay.visible {
                self
            } else {
                SessionView { pacing: self.pacing.after_seek(-self.seek_delta(), now), ..self }
            },
            AppEvent::Continue => self,
        }
    }

    /// Whether the word on screen gives way at time `now`: the engine must
    /// say that the next is due, the help must be closed, and the border
    /// must have finished drawing itself in.
    pub open spec fn advances(self, now: nat) -> bool {
        !self.revealing(now) && !self.overlay.visible && self.pacing.should_advance(now)
    }

    /// The session after the check at time `now` whether to advance.
    pub open spec fn after_tick(self, now: nat) -> SessionView {
        if self.advances(now) {
            SessionView { pacing: self.pacing.after_advance(now), ..self }
        } else {
            self
        }
    }

    /// Whether the check at time `now` ends the session: it does when the
    /// word on screen gives way and no word follows.
    pub open spec fn tick_exits(self, now: nat) -> bool {
        self.advances(now) && !self.pacing.has_next()
    }

    /// The session after one round of the loop in which `input` came, at
    /// time `now`.
    pub open spec fn after_step(self, input: Option<Key>, now: nat) -> SessionView {
        let event = event_of_input(input);
        if self.exits_on(event) {
            self
        } else {
            self.after_event(event, now).after_tick(now)
        }
    }

    /// Whether the round in which `input` came ends the session.
    pub open spec fn step_exits(self, input: Option<Key>, now: nat) -> bool {
        let event = event_of_input(input);
        self.exits_on(event) || self.after_event(event, now).tick_exits(now)
    }
}

/// The largest distance that can be asked of the engine in one move.
fn seek_distance(seek_step: usize) -> (delta: i64)
    ensures
        0 <= delta,
        delta == if seek_step > i64::MAX {
            i64::MAX as int
        } else {
            seek_step as int
        },
{
    if seek_step as u64 > 0x7fff_ffff_ffff_ffff {
        0x7fff_ffff_ffff_ffff
    } else {
        seek_step as i64
    }
}

impl Session {
    /// Begins a session on the words of `content` as of the reading `now`
    /// of the session clock. Fails exactly when `content` holds no word.
    pub fn start_at(
        content: &str,
        wpm: u64,
        seek_step: usize,
        animate_border: bool,
        now: u64,
    ) -> (result: Result<Session, EmptyInputError>)
        requires
            wpm > 0,
        ensures
            result is Err <==> is_blank(content@),
            result matches Ok(session) ==> session@ == (SessionView {
                pacing: PacingState::start(tokens(content@), wpm as nat, now as nat),
                overlay: OverlayView::hidden(),
                seek_step: seek_step as nat,
                animate_border,
            }),
    {
        match tokenize(content) {
            Err(error) => Err(error),
            Ok(words) => Ok(
                Session {
                    state: AppState::from_words_at(words, wpm, now),
                    overlay: OverlayState::new(),
                    seek_step,
                    animate_border,
                },
            ),
        }
    }

    /// Begins a session on the words of `content`, with the session clock
    /// started. Fails exactly when `content` holds no word.
    pub fn start(content: &str, wpm: u64, seek_step: usize, animate_border: bool) -> (result:
        Result<Session, EmptyInputError>)
        requires
            wpm > 0,
        ensures
            result is Err <==> is_blank(content@),
            result matches Ok(session) ==> exists|now: nat|
                #![trigger PacingState::start(tokens(content@), wpm as nat, now)]
                now <= u64::MAX && session@ == (SessionView {
                    pacing: PacingState::start(tokens(content@), wpm as nat, now),
                    overlay: OverlayView::hidden(),
                    seek_step: seek_step as nat,
                    animate_border,
                }),
    {
        match tokenize(content) {
            Err(error) => Err(error),
            Ok(words) => {
                let session = Session {
                    state: AppState::from_words(words, wpm),
                    overlay: OverlayState::new(),
                    seek_step,
                    animate_border,
                };
                proof {
                    let now = choose|now: nat|
                        #![trigger PacingState::start(tokens(content@), wpm as nat, now)]
                        now <= u64::MAX && session.state@ == PacingState::start(
                            tokens(content@),
                            wpm as nat,
                            now,
                        );
                    assert(session@ == (SessionView {
                        pacing: PacingState::start(tokens(content@), wpm as nat, now),
                        overlay: OverlayView::hidden(),
                        seek_step: seek_step as nat,
                        animate_border,
                    }));
                }
                Ok(session)
            },
        }
    }

    /// Carries out `event` as of the reading `now`, and says whether the
    /// session goes on.
    pub fn apply_event_at(&mut self, event: AppEvent, now: u64) -> (control: LoopControl)
        ensures
            final(self).state.clock() == old(self).state.clock(),
            control == LoopControl::Exit <==> old(self)@.exits_on(event),
            final(self)@ == old(self)@.after_event(event, now as nat),
    {
        match event {
            AppEvent::Quit => {
                if self.overlay.is_visible() {
                    self.overlay.close();
                    LoopControl::Continue
                } else {
                    LoopControl::Exit
                }
            },
            AppEvent::TogglePause => {
                self.state.toggle_pause_at(now);
                LoopControl::Continue
            },
            AppEvent::ToggleHelp => {
                self.overlay.toggle();
                LoopControl::Continue
            },
            AppEvent::ScrollUp => {
                self.overlay.scroll_up();
                LoopControl::Continue
            },
            AppEvent::ScrollDown => {
                self.overlay.scroll_down();
                LoopControl::Continue
            },
            AppEvent::FastForward => {
                if !self.overlay.is_visible() {
                    self.state.seek_at(seek_distance(self.seek_step), now);
                }
                LoopControl::Continue
            },
            AppEvent::Rewind => {
                if !self.overlay.is_visible() {
                    self.state.seek_at(-seek_distance(self.seek_step), now);
                }
                LoopControl::Continue
            },
            AppEvent::Continue => LoopControl::Continue,
        }
    }

    /// Whether the border is still drawing itself in at the reading `now`.
    pub fn is_revealing_at(&self, now: u64) -> (revealing: bool)
        ensures
            revealing == self@.revealing(now as nat),
    {
        self.animate_border && !border_settled(now / NANOS_PER_MILLI)
    }

    /// Lets the word on screen give way to the next if that is due as of
    /// the reading `now`, and says whether the session goes on.
    pub fn tick_at(&mut self, now: u64) -> (control: LoopControl)
        ensures
            final(self).state.clock() == old(self).state.clock(),
            control == LoopControl::Exit <==> old(self)@.tick_exits(now as nat),
            final(self)@ == old(self)@.after_tick(now as nat),
    {
        if !self.is_revealing_at(now) && !self.overlay.is_visible() && self.state.should_advance_at(
            now,
        ) {
            if self.state.advance_word_at(now) {
                LoopControl::Continue
            } else {
                LoopControl::Exit
            }
        } else {
            LoopControl::Continue
        }
    }

    /// One round of the loop as of the reading `now`: turns `input` into a
    /// command, carries it out, and lets the word on screen give way if
    /// that is due.
    pub fn step_at(&mut self, input: Option<Key>, now: u64) -> (control: LoopControl)
        ensures
            final(self).state.clock() == old(self).state.clock(),
            control == LoopControl::Exit <==> old(self)@.step_exits(input, now as nat),
            final(self)@ == old(self)@.after_step(input, now as nat),
    {
        let event = handle_events(input);
        match self.apply_event_at(event, now) {
            LoopControl::Exit => LoopControl::Exit,
            LoopControl::Continue => self.tick_at(now),
        }
    }

    /// One round of the loop at the clock's reading. A quit with the help
    /// closed ends the session whatever the reading is.
    pub fn step(&mut self, input: Option<Key>) -> (control: LoopControl)
        ensures
            final(self).state.clock() == old(self).state.clock(),
            old(self)@.exits_on(event_of_input(input)) ==> control == LoopControl::Exit,
            exists|now: nat|
                #![trigger old(self)@.after_step(input, now)]
                now <= u64::MAX && final(self)@ == old(self)@.after_step(input, now) && (control
                    == LoopControl::Exit <==> old(self)@.step_exits(input, now)),
    {
        let now: u64 = self.state.now();
        let control = self.step_at(input, now);
        assert(final(self)@ == old(self)@.after_step(input, now as nat));
        control
    }
}

/// While the help is open and stays open, no round ends the session and
/// none changes the word on screen: a skip does nothing, and no word gives
/// way.
pub proof fn lemma_help_holds_the_word(s: SessionView, input: Option<Key>, now: nat)
    requires
        s.overlay.visible,
        event_of_input(input) != AppEvent::Quit,
        event_of_input(input) != AppEvent::ToggleHelp,
    ensures
        !s.step_exits(input, now),
        s.after_step(input, now).overlay.visible,
        s.after_step(input, now).pacing.index == s.pacing.index,
{
}

/// A quit while the help is open closes the help and does not by itself
/// end the session.
pub proof fn lemma_help_consumes_quit(s: SessionView, now: nat)
    requires
        s.overlay.visible,
    ensures
        !s.exits_on(AppEvent::Quit),
        s.after_event(AppEvent::Quit, now).overlay == OverlayView::hidden(),
        s.after_event(AppEvent::Quit, now).pacing == s.pacing,
        s.after_event(AppEvent::Quit, now).exits_on(AppEvent::Quit),
{
}

/// While the border draws itself in no word gives way, however late it is.
pub proof fn lemma_reveal_holds_the_word(s: SessionView, now: nat)
    requires
        s.revealing(now),
    ensures
        s.after_tick(now) == s,
        !s.tick_exits(now),
{
}

/// With the help closed a quit ends the session and changes nothing.
pub proof fn lemma_quit_exits(s: SessionView, now: nat)
    requires
        !s.overlay.visible,
    ensures
        s.step_exits(Some(Key::Esc), now),
        s.step_exits(Some(Key::Char('q')), now),
        s.after_step(Some(Key::Esc), now) == s,
{
}

/// A round keeps the engine and the overlay well formed.
pub proof fn lemma_step_keeps_wf(s: SessionView, input: Option<Key>, now: nat)
    requires
        s.pacing.wf(),
        s.overlay.wf(),
    ensures
        s.after_step(input, now).pacing.wf(),
        s.after_step(input, now).overlay.wf(),
        s.after_step(input, now).seek_step == s.seek_step,
        s.after_step(input, now).pacing.words == s.pacing.words,
{
}

} // verus!
