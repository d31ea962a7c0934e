//! The pacing engine: which word is shown, and when the next one is due.
//!
//! Time is counted in nanoseconds on the session clock, which starts at zero
//! when the engine is made. Every operation that depends on the time exists
//! twice: once reading the clock, and once taking the reading as an argument.

use crate::words::{is_blank, lemma_no_tokens_iff_blank, split_words, tokens, word_views};
use std::time::Instant;
use vstd::prelude::*;

verus! {

/// A point on the machine's monotonic clock.
#[verifier::external_type_specification]
#[verifier::external_body]
pub struct ExInstant(std::time::Instant);

/// `Instant::now` reads the monotonic clock. Nothing is claimed of the
/// reading.
#[verifier::external_body]
fn clock_start() -> Instant {
    Instant::now()
}

/// `Instant::elapsed` gives the time that has passed since `start`, here in
/// whole nanoseconds. Nothing is claimed of the amount.
#[verifier::external_body]
fn clock_elapsed(start: &Instant) -> u128 {
    start.elapsed().as_nanos()
}

/// The nanoseconds in a minute.
pub const NANOS_PER_MINUTE: u64 = 60_000_000_000;

/// The extra time for which a word that ends a sentence stays on screen.
pub const PUNCTUATION_DWELL_NANOS: u64 = 500_000_000;

/// The time for which one word is shown at `wpm` words per minute, in whole
/// nanoseconds, rounded down.
pub open spec fn base_interval(wpm: nat) -> nat
    recommends
        wpm > 0,
{
    (NANOS_PER_MINUTE as nat) / wpm
}

/// Whether `c` ends a sentence: one of `.`, `!`, `?` and `;`.
pub open spec fn is_sentence_end(c: char) -> bool {
    c == '.' || c == '!' || c == '?' || c == ';'
}

/// The extra time that `word` is given: half a second if its last character
/// ends a sentence, nothing otherwise.
pub open spec fn dwell_bonus(word: Seq<char>) -> nat {
    if word.len() > 0 && is_sentence_end(word.last()) {
        PUNCTUATION_DWELL_NANOS as nat
    } else {
        0
    }
}

/// The pacing engine as a mathematical value.
pub struct PacingState {
    /// The words of the session, in order.
    pub words: Seq<Seq<char>>,
    /// The position of the word on screen; the number of words once the
    /// session has ended.
    pub index: nat,
    /// Whether advancing is suspended.
    pub paused: bool,
    /// The rate in words per minute.
    pub wpm: nat,
    /// The time from which the next word is due.
    pub deadline: nat,
}

impl PacingState {
    /// What holds of every engine: it has a word, its position is a word's
    /// or the end, and its rate is positive.
    pub open spec fn wf(self) -> bool {
        &&& self.words.len() > 0
        &&& self.index <= self.words.len()
        &&& self.wpm > 0
    }

    /// The engine as it is made at time `now`: at the first word, running,
    /// with a full interval ahead.
    pub open spec fn start(words: Seq<Seq<char>>, wpm: nat, now: nat) -> PacingState {
        PacingState { words, index: 0, paused: false, wpm, deadline: now + base_interval(wpm) }
    }

    /// Whether the session has ended.
    pub open spec fn finished(self) -> bool {
        self.index >= self.words.len()
    }

    /// The word on screen, if the session has not ended.
    pub open spec fn current(self) -> Option<Seq<char>> {
        if self.index < self.words.len() {
            Some(self.words[self.index as int])
        } else {
            None
        }
    }

    /// The time for which a word is shown at the engine's rate.
    pub open spec fn interval(self) -> nat {
        base_interval(self.wpm)
    }

    /// Whether the next word is due at time `now`.
    pub open spec fn should_advance(self, now: nat) -> bool {
        !self.paused && now >= self.deadline
    }

    /// Whether a word follows the one on screen.
    pub open spec fn has_next(self) -> bool {
        self.index + 1 < self.words.len()
    }

    /// The engine after a step to the next word at time `now`. Where a word
    /// follows, it is on screen and a full interval lies ahead; where none
    /// does, the session has ended.
    pub open spec fn after_advance(self, now: nat) -> PacingState {
        if self.has_next() {
            PacingState { index: self.index + 1, deadline: now + self.interval(), ..self }
        } else {
            PacingState { index: self.words.len(), ..self }
        }
    }

    /// The position that a move by `delta` words leads to: never before the
    /// first word and never after the last.
    pub open spec fn seek_target(self, delta: int) -> nat {
        let wanted = self.index + delta;
        if wanted < 0 {
            0
        } else if wanted > self.words.len() - 1 {
            (self.words.len() - 1) as nat
        } else {
            wanted as nat
        }
    }

    /// The engine after a move by `delta` words at time `now`, with a full
    /// interval ahead.
    pub open spec fn after_seek(self, delta: int, now: nat) -> PacingState {
        PacingState { index: self.seek_target(delta), deadline: now + self.interval(), ..self }
    }

    /// The engine after the pause flag is flipped at time `now`. Resuming
    /// starts a full interval; pausing leaves the deadline as it is.
    pub open spec fn after_toggle(self, now: nat) -> PacingState {
        if self.paused {
            PacingState { paused: false, deadline: now + self.interval(), ..self }
        } else {
            PacingState { paused: true, ..self }
        }
    }

    /// The extra time that the word on screen is given.
    pub open spec fn bonus(self) -> nat {
        match self.current() {
            Some(word) => dwell_bonus(word),
            None => 0,
        }
    }

    /// How long to wait at time `now` before asking again whether the next
    /// word is due: what is left until the deadline, and the bonus of the
    /// word on screen.
    pub open spec fn timeout(self, now: nat) -> nat {
        if self.deadline > now {
            (self.deadline - now + self.bonus()) as nat
        } else {
            self.bonus()
        }
    }
}

/// The pacing engine.
#[derive(Debug)]
pub struct AppState {
    words: Vec<String>,
    current_word: usize,
    paused: bool,
    wpm: u64,
    next_tick: u128,
    clock: Instant,
}

impl View for AppState {
    type V = PacingState;

    closed spec fn view(&self) -> PacingState {
        PacingState {
            words: word_views(self.words@),
            index: self.current_word as nat,
            paused: self.paused,
            wpm: self.wpm as nat,
            deadline: self.next_tick as nat,
        }
    }
}

/// Clamps a clock reading to the range of the session clock.
fn clamp_reading(nanos: u128) -> (now: u64)
    ensures
        now == if nanos > u64::MAX {
            u64::MAX as int
        } else {
            nanos as int
        },
{
    if nanos > u64::MAX as u128 {
        u64::MAX
    } else {
        nanos as u64
    }
}

/// Whether `c` ends a sentence.
pub fn ends_sentence(c: char) -> (b: bool)
    ensures
        b == is_sentence_end(c),
{
    c == '.' || c == '!' || c == '?' || c == ';'
}

/// The time for which one word is shown at `wpm` words per minute.
pub fn interval_nanos(wpm: u64) -> (nanos: u64)
    requires
        wpm > 0,
    ensures
        nanos == base_interval(wpm as nat),
{
    NANOS_PER_MINUTE / wpm
}

/// The extra time that `word` is given.
pub fn word_bonus(word: &str) -> (nanos: u64)
    ensures
        nanos == dwell_bonus(word@),
{
    let n: usize = word.unicode_len();
    if n > 0 && ends_sentence(word.get_char(n - 1)) {
        PUNCTUATION_DWELL_NANOS
    } else {
        0
    }
}

impl AppState {
    #[verifier::type_invariant]
    spec fn inv(self) -> bool {
        &&& self.words@.len() > 0
        &&& self.current_word <= self.words@.len()
        &&& self.wpm > 0
        &&& self.next_tick <= u64::MAX + NANOS_PER_MINUTE
    }

    /// Makes the engine for `words` as of the reading `now` of the session
    /// clock: at the first word and running, with a full interval ahead.
    pub fn from_words_at(words: Vec<String>, wpm: u64, now: u64) -> (state: AppState)
        requires
            words@.len() > 0,
            wpm > 0,
        ensures
            state@.wf(),
            state@ == PacingState::start(word_views(words@), wpm as nat, now as nat),
    {
        Self::with_clock(words, wpm, now, clock_start())
    }

    /// Makes the engine for `words`, with the session clock started.
    pub fn from_words(words: Vec<String>, wpm: u64) -> (state: AppState)
        requires
            words@.len() > 0,
            wpm > 0,
        ensures
            state@.wf(),
            exists|now: nat|
                #![trigger PacingState::start(word_views(words@), wpm as nat, now)]
                now <= u64::MAX && state@ == PacingState::start(
                    word_views(words@),
                    wpm as nat,
                    now,
                ),
    {
        let clock = clock_start();
        let now: u64 = clamp_reading(clock_elapsed(&clock));
        let ghost views = word_views(words@);
        let state = Self::with_clock(words, wpm, now, clock);
        assert(state@ == PacingState::start(views, wpm as nat, now as nat));
        state
    }

    /// Makes the engine for the words of `content`, with the session clock
    /// started.
    pub fn new(content: &str, wpm: u64) -> (state: AppState)
        requires
            !is_blank(content@),
            wpm > 0,
        ensures
            state@.wf(),
            exists|now: nat|
                #![trigger PacingState::start(tokens(content@), wpm as nat, now)]
                now <= u64::MAX && state@ == PacingState::start(tokens(content@), wpm as nat, now),
    {
        let words = split_words(content);
        proof {
            lemma_no_tokens_iff_blank(content@);
        }
        Self::from_words(words, wpm)
    }

    /// Makes the engine for the words of `content` as of the reading `now`
    /// of the session clock.
    pub fn new_at(content: &str, wpm: u64, now: u64) -> (state: AppState)
        requires
            !is_blank(content@),
            wpm > 0,
        ensures
            state@.wf(),
            state@ == PacingState::start(tokens(content@), wpm as nat, now as nat),
    {
        let words = split_words(content);
        proof {
            lemma_no_tokens_iff_blank(content@);
        }
        Self::from_words_at(words, wpm, now)
    }

    fn with_clock(words: Vec<String>, wpm: u64, now: u64, clock: Instant) -> (state: AppState)
        requires
            words@.len() > 0,
            wpm > 0,
        ensures
            state@.wf(),
            state@ == PacingState::start(word_views(words@), wpm as nat, now as nat),
    {
        let next_tick: u128 = now as u128 + interval_nanos(wpm) as u128;
        AppState { words, current_word: 0, paused: false, wpm, next_tick, clock }
    }

    /// The clock of the session. It is set when the engine is made and no
    /// operation changes it.
    pub closed spec fn clock(&self) -> Instant {
        self.clock
    }

    /// The reading of the session clock: the nanoseconds since the engine
    /// was made.
    pub fn now(&self) -> u64 {
        clamp_reading(clock_elapsed(&self.clock))
    }

    /// The word on screen, or nothing once the session has ended.
    pub fn current_word(&self) -> (word: Option<&str>)
        ensures
            self@.wf(),
            match word {
                Some(w) => self@.current() == Some(w@),
                None => self@.current() is None,
            },
    {
        proof {
            use_type_invariant(self);
        }
        if self.current_word < self.words.len() {
            Some(self.words[self.current_word].as_str())
        } else {
            None
        }
    }

    /// Flips the pause flag as of the reading `now`.
    pub fn toggle_pause_at(&mut self, now: u64)
        ensures
            final(self)@.wf(),
            final(self).clock() == old(self).clock(),
            final(self)@ == old(self)@.after_toggle(now as nat),
    {
        proof {
            use_type_invariant(&*self);
        }
        if self.paused {
            self.next_tick = now as u128 + interval_nanos(self.wpm) as u128;
            self.paused = false;
        } else {
            self.paused = true;
        }
    }

    /// Flips the pause flag. Resuming starts a full interval from the
    /// clock's reading.
    pub fn toggle_pause(&mut self)
        ensures
            final(self)@.wf(),
            final(self).clock() == old(self).clock(),
            final(self)@.paused == !old(self)@.paused,
            exists|now: nat|
                #![trigger old(self)@.after_toggle(now)]
                now <= u64::MAX && final(self)@ == old(self)@.after_toggle(now),
    {
        let now: u64 = self.now();
        self.toggle_pause_at(now);
    }

    /// Whether the next word is due at the reading `now`.
    pub fn should_advance_at(&self, now: u64) -> (due: bool)
        ensures
            due == self@.should_advance(now as nat),
    {
        !self.paused && now as u128 >= self.next_tick
    }

    /// Whether the next word is due. It never is while the engine is paused.
    pub fn should_advance(&self) -> (due: bool)
        ensures
            self@.paused ==> !due,
            exists|now: nat|
                #![trigger self@.should_advance(now)]
                now <= u64::MAX && due == self@.should_advance(now),
    {
        let now: u64 = self.now();
        self.should_advance_at(now)
    }

    /// Steps to the next word as of the reading `now`, and says whether
    /// there was one. Where there was none, the session has ended.
    pub fn advance_word_at(&mut self, now: u64) -> (more: bool)
        ensures
            final(self)@.wf(),
            final(self).clock() == old(self).clock(),
            more == old(self)@.has_next(),
            final(self)@ == old(self)@.after_advance(now as nat),
    {
        proof {
            use_type_invariant(&*self);
        }
        if self.current_word < self.words.len() && self.current_word + 1 < self.words.len() {
            self.next_tick = now as u128 + interval_nanos(self.wpm) as u128;
            self.current_word = self.current_word + 1;
            true
        } else {
            self.current_word = self.words.len();
            false
        }
    }

    /// Steps to the next word, and says whether there was one.
    pub fn advance_word(&mut self) -> (more: bool)
        ensures
            final(self)@.wf(),
            final(self).clock() == old(self).clock(),
            more == old(self)@.has_next(),
            exists|now: nat|
                #![trigger old(self)@.after_advance(now)]
                now <= u64::MAX && final(self)@ == old(self)@.after_advance(now),
    {
        let now: u64 = self.now();
        self.advance_word_at(now)
    }

    /// Moves by `delta` words as of the reading `now`, stopping at the first
    /// and at the last word.
    pub fn seek_at(&mut self, delta: i64, now: u64)
        ensures
            final(self)@.wf(),
            final(self).clock() == old(self).clock(),
            final(self)@ == old(self)@.after_seek(delta as int, now as nat),
    {
        proof {
            use_type_invariant(&*self);
        }
        let last: usize = self.words.len() - 1;
        let target: usize = if delta < 0 {
            let back: u64 = if delta == i64::MIN {
                0x8000_0000_0000_0000
            } else {
                (-delta) as u64
            };
            if back >= self.current_word as u64 {
                0
            } else {
                self.current_word - back as usize
            }
        } else {
            let ahead: u64 = delta as u64;
            if self.current_word >= last || ahead >= (last - self.current_word) as u64 {
                last
            } else {
                self.current_word + ahead as usize
            }
        };
        self.next_tick = now as u128 + interval_nanos(self.wpm) as u128;
        self.current_word = target;
    }

    /// Moves by `delta` words, stopping at the first and at the last word,
    /// and starts a full interval from the clock's reading.
    pub fn seek(&mut self, delta: i64)
        ensures
            final(self)@.wf(),
            final(self).clock() == old(self).clock(),
            final(self)@.index == old(self)@.seek_target(delta as int),
            exists|now: nat|
                #![trigger old(self)@.after_seek(delta as int, now)]
                now <= u64::MAX && final(self)@ == old(self)@.after_seek(delta as int, now),
    {
        let now: u64 = self.now();
        self.seek_at(delta, now);
    }

    /// How long to wait at the reading `now` before asking again whether
    /// the next word is due, in nanoseconds.
    pub fn timeout_at(&self, now: u64) -> (nanos: u64)
        ensures
            nanos == if self@.timeout(now as nat) > u64::MAX {
                u64::MAX as nat
            } else {
                self@.timeout(now as nat)
            },
    {
        proof {
            use_type_invariant(self);
        }
        let bonus: u64 = if self.current_word < self.words.len() {
            word_bonus(self.words[self.current_word].as_str())
        } else {
            0
        };
        let left: u128 = if self.next_tick > now as u128 {
            self.next_tick - now as u128
        } else {
            0
        };
        clamp_reading(left + bonus as u128)
    }

    /// How long to wait before asking again whether the next word is due, in
    /// nanoseconds: never less than the bonus of the word on screen.
    pub fn get_timeout(&self) -> (nanos: u64)
        ensures
            nanos >= self@.bonus(),
            exists|now: nat|
                #![trigger self@.timeout(now)]
                now <= u64::MAX && nanos == if self@.timeout(now) > u64::MAX {
                    u64::MAX as nat
                } else {
                    self@.timeout(now)
                },
    {
        let now: u64 = self.now();
        let nanos: u64 = self.timeout_at(now);
        assert(nanos == if self@.timeout(now as nat) > u64::MAX {
            u64::MAX as nat
        } else {
            self@.timeout(now as nat)
        });
        nanos
    }

    /// The position of the word on screen, counted from zero; the number of
    /// words once the session has ended.
    pub fn index(&self) -> (i: usize)
        ensures
            i == self@.index,
    {
        self.current_word
    }

    /// The number of words in the session.
    pub fn total_words(&self) -> (n: usize)
        ensures
            n == self@.words.len(),
            n > 0,
    {
        proof {
            use_type_invariant(self);
        }
        self.words.len()
    }

    /// Whether advancing is suspended.
    pub fn is_paused(&self) -> (p: bool)
        ensures
            p == self@.paused,
    {
        self.paused
    }

    /// Whether the session has ended.
    pub fn is_finished(&self) -> (done: bool)
        ensures
            done == self@.finished(),
    {
        self.current_word >= self.words.len()
    }

    /// The rate in words per minute.
    pub fn wpm(&self) -> (rate: u64)
        ensures
            rate == self@.wpm,
            rate > 0,
    {
        proof {
            use_type_invariant(self);
        }
        self.wpm
    }

    /// The reading of the session clock from which the next word is due.
    pub fn deadline(&self) -> (nanos: u128)
        ensures
            nanos == self@.deadline,
    {
        self.next_tick
    }
}

impl PacingState {
    /// The engine after one step to the next word at each of `times`, in
    /// their order.
    pub open spec fn after_advances(self, times: Seq<nat>) -> PacingState
        decreases times.len(),
    {
        if times.len() == 0 {
            self
        } else {
            self.after_advances(times.drop_last()).after_advance(times.last())
        }
    }
}

/// Every operation leaves the engine well formed.
pub proof fn lemma_operations_keep_wf(s: PacingState, delta: int, now: nat)
    requires
        s.wf(),
    ensures
        s.after_advance(now).wf(),
        s.after_seek(delta, now).wf(),
        s.after_toggle(now).wf(),
        !s.after_seek(delta, now).finished(),
{
}

/// A move backward from the first word stays at the first word, and a move
/// forward from the last word stays at the last: whatever the distance.
pub proof fn lemma_seek_stops_at_ends(s: PacingState, delta: int, now: nat)
    requires
        s.wf(),
    ensures
        s.index == 0 && delta < 0 ==> s.after_seek(delta, now).index == 0,
        s.index == s.words.len() - 1 && delta > 0 ==> s.after_seek(delta, now).index
            == s.words.len() - 1,
{
}

/// Between the ends a move arrives where it was sent: `delta` words on.
pub proof fn lemma_seek_within_range(s: PacingState, delta: int, now: nat)
    requires
        s.wf(),
        0 <= s.index + delta <= s.words.len() - 1,
    ensures
        s.after_seek(delta, now).index == s.index + delta,
{
}

/// From the first word, as many steps as there are words end the session:
/// the step with number `k + 1` starts at word `k`, and it finds a next word
/// unless it is the last of them.
pub proof fn lemma_advance_through(s: PacingState, times: Seq<nat>, k: int)
    requires
        s.wf(),
        s.index == 0,
        0 <= k < s.words.len(),
        times.len() == s.words.len(),
    ensures
        s.after_advances(times.take(k)).index == k,
        s.after_advances(times.take(k)).words == s.words,
        s.after_advances(times.take(k)).has_next() <==> k + 1 < s.words.len(),
        s.after_advances(times).finished(),
{
    lemma_advances_index(s, times.take(k));
    lemma_advances_index(s, times);
}

proof fn lemma_advances_index(s: PacingState, times: Seq<nat>)
    requires
        s.wf(),
        s.index == 0,
        times.len() <= s.words.len(),
    ensures
        s.after_advances(times).words == s.words,
        s.after_advances(times).index == times.len(),
    decreases times.len(),
{
    if times.len() > 0 {
        lemma_advances_index(s, times.drop_last());
    }
}

/// While the engine is paused no word is due, however late it is.
pub proof fn lemma_paused_never_due(s: PacingState, now: nat)
    requires
        s.paused,
    ensures
        !s.should_advance(now),
{
}

/// Resuming at `resumed` starts a full interval: the next word is due from
/// `resumed` plus the interval on, whatever the deadline was before.
pub proof fn lemma_resume_starts_interval(s: PacingState, resumed: nat, now: nat)
    requires
        s.paused,
    ensures
        !s.after_toggle(resumed).paused,
        s.after_toggle(resumed).should_advance(now) <==> now >= resumed + s.interval(),
{
}

/// Pausing changes nothing but the flag.
pub proof fn lemma_pause_keeps_deadline(s: PacingState, now: nat)
    requires
        !s.paused,
    ensures
        s.after_toggle(now) == (PacingState { paused: true, ..s }),
{
}

/// With a full interval ahead, the wait is the interval and the bonus of
/// the word on screen: half a second more than the interval where the word
/// ends a sentence, the interval alone where it does not.
pub proof fn lemma_timeout_of_fresh_deadline(s: PacingState, now: nat)
    requires
        s.deadline == now + s.interval(),
    ensures
        s.timeout(now) == s.interval() + s.bonus(),
        s.current() matches Some(w) && w.len() > 0 && is_sentence_end(w.last()) ==> s.timeout(now)
            == s.interval() + PUNCTUATION_DWELL_NANOS,
        s.current() matches Some(w) && w.len() > 0 && !is_sentence_end(w.last()) ==> s.timeout(
            now,
        ) == s.interval(),
{
}

/// A step to a next word, a move and a resumption each leave a full
/// interval ahead.
pub proof fn lemma_fresh_deadlines(s: PacingState, delta: int, now: nat)
    ensures
        s.has_next() ==> s.after_advance(now).deadline == now + s.after_advance(now).interval(),
        s.after_seek(delta, now).deadline == now + s.after_seek(delta, now).interval(),
        s.paused ==> s.after_toggle(now).deadline == now + s.after_toggle(now).interval(),
{
}

} // verus!
