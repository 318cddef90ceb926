//! The session state machine: modes and their transitions, card selection,
//! timed popups, the edit buffer and the two-step delete.

use vstd::prelude::*;

use crate::card::{card_text, CardError, FlashCard};
use crate::text::{
    chars_of, join_lines, join_lines_chars, pieces_view, split_chars, split_on, string_of,
};

verus! {

/// The display mode of a session; exactly one is active at any time.
#[derive(Debug, PartialEq, Eq, Clone, Copy, Structural)]
pub enum State {
    Idling,
    ShowFlashcard,
    AddFlashcard,
    DisplaySavedPopup,
    DisplayDeletePopup,
}

/// How to pick the next card to show.
#[derive(Debug, PartialEq, Eq, Clone, Copy, Structural)]
pub enum Select {
    Prev,
    Next,
    Random,
}

/// The modes after moving from `mode` (with `prior` before it) to `new`: a move to
/// the mode already active changes nothing.
pub open spec fn after_transition(mode: State, prior: State, new: State) -> (State, State) {
    if new == mode {
        (mode, prior)
    } else {
        (new, mode)
    }
}

/// The modes after going back: the prior mode becomes active, and the one left
/// becomes the prior.
pub open spec fn after_restore(mode: State, prior: State) -> (State, State) {
    (prior, mode)
}

/// The position after `index` among `total` cards, wrapping to the first.
pub open spec fn next_index(index: int, total: int) -> int
    recommends
        total > 0,
{
    (index + 1) % total
}

/// The position before `index` among `total` cards, wrapping to the last.
pub open spec fn prev_index(index: int, total: int) -> int {
    if index == 0 {
        total - 1
    } else {
        index - 1
    }
}

/// The position that a draw in `0..total - 1` stands for among the positions
/// other than `current`.
pub open spec fn other_index(current: int, draw: int) -> int {
    if draw >= current {
        draw + 1
    } else {
        draw
    }
}

/// Whether a popup shown at `shown` is due to close at `now`.
pub open spec fn popup_due(shown: u64, now: u64, dismiss_after_millis: u64) -> bool {
    now - shown > dismiss_after_millis
}

/// The text shown when there is no card to show.
pub open spec fn no_cards_text() -> Seq<char> {
    seq!['N', 'o', ' ', 'f', 'l', 'a', 's', 'h', 'c', 'a', 'r', 'd', 's']
}

/// Relies on rand's `Rng::gen_range` over the thread-local generator: a value in
/// `0..n` (it panics on an empty range).
#[verifier::external_body]
fn random_below(n: usize) -> (r: usize)
    requires
        n > 0,
    ensures
        r < n,
{
    rand::Rng::gen_range(&mut rand::thread_rng(), 0..n)
}

/// Maps a draw in `0..total - 1` onto the positions in `0..total` other than
/// `current`, one to one.
pub fn pick_other_index(current: usize, total: usize, draw: usize) -> (r: usize)
    requires
        draw < total - 1,
    ensures
        r == other_index(current as int, draw as int),
        r < total,
        r != current,
{
    if draw >= current {
        draw + 1
    } else {
        draw
    }
}

/// The position after `index` among `total` cards, wrapping to the first.
fn next_position(index: usize, total: usize) -> (r: usize)
    requires
        total > 0,
    ensures
        r == next_index(index as int, total as int),
{
    let r = index % total + 1;
    proof {
        let i = index as int;
        let n = total as int;
        let q = i % n;
        vstd::arithmetic::div_mod::lemma_add_mod_noop(i, 1, n);
        if n == 1 {
            vstd::arithmetic::div_mod::lemma_mod_self_0(1);
            assert((q + 1) % n == 0);
        } else {
            vstd::arithmetic::div_mod::lemma_small_mod(1, n as nat);
            if q + 1 < n {
                vstd::arithmetic::div_mod::lemma_small_mod((q + 1) as nat, n as nat);
            } else {
                vstd::arithmetic::div_mod::lemma_mod_self_0(n);
            }
        }
    }
    if r == total {
        0
    } else {
        r
    }
}

/// The position before `index` among `total` cards, wrapping to the last.
fn prev_position(index: usize, total: usize) -> (r: usize)
    requires
        total > 0,
    ensures
        r == prev_index(index as int, total as int),
{
    if index == 0 {
        total - 1
    } else {
        index - 1
    }
}

/// A position among `total` cards other than `current`, drawn at random; with
/// one card or none, `current` itself.
fn random_position(current: usize, total: usize) -> (r: usize)
    ensures
        total > 1 ==> r < total && r != current,
        total <= 1 ==> r == current,
{
    if total > 1 {
        let draw = random_below(total - 1);
        pick_other_index(current, total, draw)
    } else {
        current
    }
}

/// The session: what is on screen, the counters, and the lines being written.
pub struct App {
    pub running: bool,
    pub state: State,
    pub prior_state: State,
    pub verbosity: u8,
    /// The lines of the card being written, first line the title.
    pub input_area: Vec<String>,
    pub vertical_scroll: usize,
    /// When the popup on screen was opened, in milliseconds.
    pub popup_time: Option<u64>,
    pub current_flashcard_number: usize,
    pub current_flashcard_id: Option<i64>,
    pub current_flash_text: String,
    pub total_cards: usize,
    pub first_shown: bool,
    pub cards_displayed: usize,
    /// Set after a copy: the next render blanks the card for a moment.
    pub visual_flicker: bool,
}

impl App {
    /// This session with `modes` as its active and prior mode.
    pub open spec fn with_modes(self, modes: (State, State)) -> App {
        App { state: modes.0, prior_state: modes.1, ..self }
    }

    /// This session after a move to `new`.
    pub open spec fn moved_to(self, new: State) -> App {
        self.with_modes(after_transition(self.state, self.prior_state, new))
    }

    /// This session after going back to its prior mode.
    pub open spec fn restored(self) -> App {
        App { popup_time: None, ..self.with_modes(after_restore(self.state, self.prior_state)) }
    }

    /// Whether `next` is a position that selecting by `select` may move this
    /// session to.
    pub open spec fn selects(self, select: Select, next: int) -> bool {
        let i = self.current_flashcard_number as int;
        let total = self.total_cards as int;
        if !self.first_shown || total == 0 {
            next == i
        } else {
            match select {
                Select::Next => next == next_index(i, total),
                Select::Prev => next == prev_index(i, total),
                Select::Random => if total <= 1 {
                    next == i
                } else {
                    0 <= next < total && next != i
                },
            }
        }
    }

    /// A fresh session: idle, running, nothing shown, no cards counted.
    pub open spec fn is_fresh(self, verbosity: u8) -> bool {
        &&& self.running
        &&& self.state == State::Idling
        &&& self.prior_state == State::Idling
        &&& self.verbosity == verbosity
        &&& self.input_area@.len() == 0
        &&& self.vertical_scroll == 0
        &&& self.popup_time is None
        &&& self.current_flashcard_number == 0
        &&& self.current_flashcard_id is None
        &&& self.current_flash_text@.len() == 0
        &&& self.total_cards == 0
        &&& !self.first_shown
        &&& self.cards_displayed == 0
        &&& !self.visual_flicker
    }

    pub fn from_arguments(verbosity: u8) -> (r: App)
        ensures
            r.is_fresh(verbosity),
    {
        App {
            running: true,
            state: State::Idling,
            prior_state: State::Idling,
            verbosity,
            input_area: Vec::new(),
            vertical_scroll: 0,
            popup_time: None,
            current_flashcard_number: 0,
            current_flashcard_id: None,
            current_flash_text: String::new(),
            total_cards: 0,
            first_shown: false,
            cards_displayed: 0,
            visual_flicker: false,
        }
    }

    /// Moves to `state`; the prior mode changes only when `state` is not the
    /// active one.
    pub fn set_state(&mut self, state: State)
        ensures
            *final(self) == old(self).moved_to(state),
    {
        if self.state != state {
            self.prior_state = self.state;
            self.state = state;
        }
    }

    /// Goes back to the prior mode, which makes the mode left the prior one, and
    /// forgets the popup.
    pub fn restore_prior_state(&mut self)
        ensures
            *final(self) == old(self).restored(),
    {
        let state = self.state;
        self.state = self.prior_state;
        self.prior_state = state;
        self.popup_time = None;
    }

    /// Shows the "saved" notice, opened at `now` (milliseconds).
    pub fn display_saved_popup(&mut self, now: u64)
        ensures
            *final(self) == (App {
                popup_time: Some(now),
                ..old(self).moved_to(State::DisplaySavedPopup)
            }),
    {
        self.set_state(State::DisplaySavedPopup);
        self.popup_time = Some(now);
    }

    /// Goes back to the prior mode once more than `dismiss_after_millis` have
    /// passed since the popup opened.
    pub fn close_popup_if_it_is_time(&mut self, now: u64, dismiss_after_millis: u64)
        ensures
            match old(self).popup_time {
                Some(t) => if popup_due(t, now, dismiss_after_millis) {
                    *final(self) == old(self).restored()
                } else {
                    *final(self) == *old(self)
                },
                None => *final(self) == *old(self),
            },
    {
        if let Some(t) = self.popup_time {
            if now > t && now - t > dismiss_after_millis {
                self.restore_prior_state();
            }
        }
    }

    pub fn show_add_flashcard(&mut self)
        ensures
            *final(self) == old(self).moved_to(State::AddFlashcard),
    {
        self.set_state(State::AddFlashcard)
    }

    pub fn stop_running(&mut self)
        ensures
            *final(self) == (App { running: false, ..*old(self) }),
    {
        self.running = false;
    }

    /// Goes idle; the next card shown is then the one at the current position.
    pub fn idle(&mut self)
        ensures
            *final(self) == (App { first_shown: false, ..old(self).moved_to(State::Idling) }),
    {
        self.set_state(State::Idling);
        self.first_shown = false;
    }

    pub fn update_flash_text(&mut self, flash_text: &str)
        ensures
            final(self).current_flash_text@ == flash_text@,
            *final(self) == (App { current_flash_text: final(self).current_flash_text, ..*old(self) }),
    {
        self.current_flash_text = flash_text.to_owned();
    }

    /// Scrolls back to the top of the card.
    pub fn reset_scrollbar_state(&mut self)
        ensures
            *final(self) == (App { vertical_scroll: 0, ..*old(self) }),
    {
        self.vertical_scroll = 0;
    }

    /// Moves to the next card, after the last to the first.
    pub fn increment_flash_count(&mut self)
        requires
            old(self).total_cards > 0,
        ensures
            final(self).current_flashcard_number == next_index(
                old(self).current_flashcard_number as int,
                old(self).total_cards as int,
            ),
            *final(self) == (App {
                current_flashcard_number: final(self).current_flashcard_number,
                ..*old(self)
            }),
    {
        self.current_flashcard_number = next_position(self.current_flashcard_number, self.total_cards);
    }

    /// Moves to the card before, before the first to the last.
    pub fn decrement_flash_count(&mut self)
        requires
            old(self).total_cards > 0,
        ensures
            final(self).current_flashcard_number == prev_index(
                old(self).current_flashcard_number as int,
                old(self).total_cards as int,
            ),
            *final(self) == (App {
                current_flashcard_number: final(self).current_flashcard_number,
                ..*old(self)
            }),
    {
        self.current_flashcard_number = prev_position(self.current_flashcard_number, self.total_cards);
    }

    /// Moves to a card drawn at random among the others; with one card or none
    /// the position stays.
    pub fn randomize_flash_count(&mut self)
        ensures
            old(self).total_cards > 1 ==> final(self).current_flashcard_number
                < old(self).total_cards && final(self).current_flashcard_number
                != old(self).current_flashcard_number,
            old(self).total_cards <= 1 ==> final(self).current_flashcard_number
                == old(self).current_flashcard_number,
            *final(self) == (App {
                current_flashcard_number: final(self).current_flashcard_number,
                ..*old(self)
            }),
    {
        self.current_flashcard_number = random_position(self.current_flashcard_number, self.total_cards);
    }

    pub fn show_flash_card(&mut self)
        ensures
            *final(self) == old(self).moved_to(State::ShowFlashcard),
    {
        self.set_state(State::ShowFlashcard);
    }

    pub fn reset_count(&mut self)
        ensures
            *final(self) == (App { current_flashcard_number: 0, ..*old(self) }),
    {
        self.current_flashcard_number = 0;
    }

    /// Counts one more card shown on screen.
    pub fn increment_display_count(&mut self)
        requires
            old(self).cards_displayed < usize::MAX,
        ensures
            *final(self) == (App { cards_displayed: (old(self).cards_displayed + 1) as usize, ..*old(self) }),
    {
        self.cards_displayed = self.cards_displayed + 1;
    }

    pub fn flip_flashcard(&mut self)
        ensures
            *final(self) == old(self).moved_to(State::ShowFlashcard),
    {
        self.set_state(State::ShowFlashcard);
    }

    pub fn scroll_down(&mut self)
        requires
            old(self).vertical_scroll < usize::MAX,
        ensures
            *final(self) == (App { vertical_scroll: (old(self).vertical_scroll + 1) as usize, ..*old(self) }),
    {
        self.vertical_scroll = self.vertical_scroll + 1;
    }

    /// Scrolls up one line, never above the top.
    pub fn scroll_up(&mut self)
        ensures
            *final(self) == (App {
                vertical_scroll: if old(self).vertical_scroll > 0 {
                    (old(self).vertical_scroll - 1) as usize
                } else {
                    0
                },
                ..*old(self)
            }),
    {
        if self.vertical_scroll > 0 {
            self.vertical_scroll = self.vertical_scroll - 1;
        }
    }

    pub fn has_flashcards(&self) -> (r: bool)
        ensures
            r == (self.total_cards > 0),
    {
        self.total_cards > 0
    }

    /// The position of the card to show next, chosen by `select`; the session is
    /// left as it is until the card is shown. The first card shown after a fresh
    /// start or a return to idle is the one at the current position; with no
    /// cards the position stays.
    pub fn select_card(&self, select: Select) -> (r: usize)
        ensures
            self.selects(select, r as int),
    {
        let i = self.current_flashcard_number;
        if !self.first_shown || self.total_cards == 0 {
            i
        } else {
            match select {
                Select::Next => next_position(i, self.total_cards),
                Select::Prev => prev_position(i, self.total_cards),
                Select::Random => random_position(i, self.total_cards),
            }
        }
    }

    /// Shows what the store gave for position `index`: the card there, or the
    /// "no cards" text (and the first position) when it holds none there; either
    /// way from the top, counted as one more card displayed. When the store
    /// failed, the session stays as it was and the error is handed back.
    pub fn show_card(&mut self, index: usize, fetched: Result<Option<FlashCard>, CardError>) -> (r:
        Result<(), CardError>)
        requires
            fetched is Ok ==> old(self).cards_displayed < usize::MAX,
        ensures
            fetched is Err ==> r == Err::<(), CardError>(fetched->Err_0) && *final(self)
                == *old(self),
            fetched is Ok ==> {
                &&& r is Ok
                &&& final(self).current_flash_text@ == match fetched->Ok_0 {
                    Some(c) => card_text(c.title@, c.body@),
                    None => no_cards_text(),
                }
                &&& *final(self) == (App {
                    current_flash_text: final(self).current_flash_text,
                    current_flashcard_id: match fetched->Ok_0 {
                        Some(c) => Some(c.id),
                        None => old(self).current_flashcard_id,
                    },
                    current_flashcard_number: match fetched->Ok_0 {
                        Some(_) => index,
                        None => 0,
                    },
                    first_shown: true,
                    vertical_scroll: 0,
                    cards_displayed: (old(self).cards_displayed + 1) as usize,
                    ..old(self).moved_to(State::ShowFlashcard)
                })
            },
    {
        let card = match fetched {
            Ok(card) => card,
            Err(e) => {
                return Err(e);
            },
        };
        self.first_shown = true;
        let txt = match card {
            Some(flash) => {
                self.current_flashcard_number = index;
                self.current_flashcard_id = Some(flash.id);
                flash.display_text()
            },
            None => {
                self.reset_count();
                let placeholder: Vec<char> = vec![
                    'N',
                    'o',
                    ' ',
                    'f',
                    'l',
                    'a',
                    's',
                    'h',
                    'c',
                    'a',
                    'r',
                    'd',
                    's',
                ];
                assert(placeholder@ =~= no_cards_text());
                string_of(&placeholder)
            },
        };
        self.current_flash_text = txt;
        self.reset_scrollbar_state();
        self.increment_display_count();
        self.show_flash_card();
        Ok(())
    }

    /// The lines of the card on screen.
    pub fn text_lines(&self) -> (r: Vec<String>)
        ensures
            r@.len() == split_on(self.current_flash_text@, seq!['\n']).len(),
            forall|k: int|
                0 <= k < r@.len() ==> #[trigger] r@[k]@ == split_on(
                    self.current_flash_text@,
                    seq!['\n'],
                )[k],
    {
        let newline: Vec<char> = vec!['\n'];
        assert(newline@ =~= seq!['\n']);
        let parts = split_chars(&chars_of(self.current_flash_text.as_str()), &newline);
        let mut r: Vec<String> = Vec::new();
        let mut k: usize = 0;
        while k < parts.len()
            invariant
                k <= parts.len(),
                r@.len() == k,
                pieces_view(parts@) == split_on(self.current_flash_text@, seq!['\n']),
                forall|j: int| 0 <= j < k ==> #[trigger] r@[j]@ == parts@[j]@,
            decreases parts.len() - k,
        {
            r.push(string_of(&parts[k]));
            k = k + 1;
        }
        r
    }

    /// The title and body of the card being written: its first line, and the
    /// other lines joined; nothing when no line was written.
    pub fn card_to_save(&self) -> (r: Option<(String, String)>)
        ensures
            self.input_area@.len() == 0 ==> r is None,
            self.input_area@.len() > 0 ==> r is Some && r->Some_0.0@ == self.input_area@[0]@
                && r->Some_0.1@ == join_lines(
                pieces_view_strings(self.input_area@.drop_first()),
            ),
    {
        if self.input_area.len() == 0 {
            return None;
        }
        let title = self.input_area[0].clone();
        let mut rest: Vec<Vec<char>> = Vec::new();
        let mut k: usize = 1;
        while k < self.input_area.len()
            invariant
                1 <= k <= self.input_area.len(),
                pieces_view(rest@) == pieces_view_strings(self.input_area@.subrange(1, k as int)),
            decreases self.input_area.len() - k,
        {
            let ghost before = pieces_view(rest@);
            let line = chars_of(self.input_area[k].as_str());
            let ghost lv = line@;
            rest.push(line);
            k = k + 1;
            assert(pieces_view(rest@) =~= before.push(lv));
            assert(pieces_view_strings(self.input_area@.subrange(1, k as int)) =~= pieces_view_strings(
                self.input_area@.subrange(1, k - 1),
            ).push(lv));
        }
        assert(self.input_area@.subrange(1, k as int) =~= self.input_area@.drop_first());
        let body = string_of(&join_lines_chars(&rest));
        Some((title, body))
    }

    /// Records the outcome of storing the card written: on success one more card
    /// is counted and the "saved" notice opens at `now`; on failure the session
    /// stays as it was and the error is handed back.
    pub fn card_saved(&mut self, outcome: Result<(), CardError>, now: u64) -> (r: Result<(), CardError>)
        requires
            outcome is Ok ==> old(self).total_cards < usize::MAX,
        ensures
            r == outcome,
            outcome is Ok ==> *final(self) == (App {
                popup_time: Some(now),
                total_cards: (old(self).total_cards + 1) as usize,
                ..old(self).moved_to(State::DisplaySavedPopup)
            }),
            outcome is Err ==> *final(self) == *old(self),
    {
        if outcome.is_ok() {
            self.display_saved_popup(now);
            self.total_cards = self.total_cards + 1;
        }
        outcome
    }

    /// Drops the lines being written and goes idle.
    pub fn discard_input(&mut self)
        ensures
            final(self).input_area@.len() == 0,
            *final(self) == (App {
                input_area: final(self).input_area,
                first_shown: false,
                ..old(self).moved_to(State::Idling)
            }),
    {
        self.input_area = Vec::new();
        self.idle();
    }

    /// Asks for confirmation before deleting the card on screen; does nothing
    /// when there are no cards.
    pub fn start_delete(&mut self)
        ensures
            old(self).total_cards > 0 ==> *final(self) == old(self).moved_to(
                State::DisplayDeletePopup,
            ),
            old(self).total_cards == 0 ==> *final(self) == *old(self),
    {
        if self.has_flashcards() {
            self.set_state(State::DisplayDeletePopup);
        }
    }

    /// The identity of the card to delete: the one on screen, while there are
    /// cards.
    pub fn card_to_delete(&self) -> (r: Option<i64>)
        ensures
            r == if self.total_cards > 0 {
                self.current_flashcard_id
            } else {
                None
            },
    {
        if self.has_flashcards() {
            self.current_flashcard_id
        } else {
            None
        }
    }

    /// This session once the card on screen is gone from the store.
    pub open spec fn card_removed(self) -> App {
        App {
            total_cards: if self.total_cards > 0 {
                (self.total_cards - 1) as usize
            } else {
                0
            },
            ..self
        }
    }

    /// Records the outcome of deleting the card on screen: on success one card
    /// fewer is counted, and the position of the card before it is returned, to
    /// be shown next; on failure the session stays as it was and the error is
    /// handed back.
    pub fn card_deleted(&mut self, outcome: Result<(), CardError>) -> (r: Result<usize, CardError>)
        ensures
            outcome is Err ==> r == Err::<usize, CardError>(outcome->Err_0) && *final(self)
                == *old(self),
            outcome is Ok ==> {
                &&& r is Ok
                &&& *final(self) == old(self).card_removed()
                &&& final(self).selects(Select::Prev, r->Ok_0 as int)
            },
    {
        match outcome {
            Ok(()) => {
                if self.total_cards > 0 {
                    self.total_cards = self.total_cards - 1;
                }
                Ok(self.select_card(Select::Prev))
            },
            Err(e) => Err(e),
        }
    }
}

/// The character sequences held by a sequence of strings.
pub open spec fn pieces_view_strings(v: Seq<String>) -> Seq<Seq<char>> {
    v.map_values(|s: String| s@)
}

impl Default for App {
    fn default() -> (r: App)
        ensures
            r.is_fresh(0),
    {
        App::from_arguments(0)
    }
}

/// Advances through the cards on its own every so many seconds.
pub struct Timer {
    /// When it last fired (or was set up), in milliseconds.
    pub start: u64,
    /// Seconds between two cards.
    pub next_card_cycle: usize,
    pub draw_mode: Select,
}

/// Whether a timer set at `start` with a cycle of `cycle` seconds is due at `now`:
/// the whole seconds passed exceed the cycle.
pub open spec fn timer_due(start: u64, cycle: usize, now: u64) -> bool {
    now > start && (now - start) / 1000 > cycle
}

impl Timer {
    /// The selection due at `now`, if the cycle has passed; the timer then starts
    /// over at `now`.
    pub fn poll(&mut self, now: u64) -> (r: Option<Select>)
        ensures
            timer_due(old(self).start, old(self).next_card_cycle, now) ==> r == Some(
                old(self).draw_mode,
            ) && *final(self) == (Timer { start: now, ..*old(self) }),
            !timer_due(old(self).start, old(self).next_card_cycle, now) ==> r is None
                && *final(self) == *old(self),
    {
        if now > self.start && (now - self.start) / 1000 > self.next_card_cycle as u64 {
            self.start = now;
            Some(self.draw_mode)
        } else {
            None
        }
    }
}

/// A timer when a cycle is given, drawing at random unless a mode is given.
pub fn maybe_construct_timer(timer: Option<usize>, mode: Option<Select>, now: u64) -> (r: Option<
    Timer,
>)
    ensures
        timer is None ==> r is None,
        timer is Some ==> r == Some(
            Timer {
                start: now,
                next_card_cycle: timer->Some_0,
                draw_mode: match mode {
                    Some(m) => m,
                    None => Select::Random,
                },
            },
        ),
{
    match timer {
        Some(t) => {
            let draw_mode = match mode {
                Some(m) => m,
                None => Select::Random,
            };
            Some(Timer { start: now, next_card_cycle: t, draw_mode })
        },
        None => None,
    }
}

/// Moving forward from the last of several cards comes back to the first.
pub proof fn lemma_forward_wraps(a: App, next: int)
    requires
        a.total_cards > 1,
        a.first_shown,
        a.current_flashcard_number == a.total_cards - 1,
        a.selects(Select::Next, next),
    ensures
        next == 0,
{
    vstd::arithmetic::div_mod::lemma_mod_self_0(a.total_cards as int);
}

/// Moving back from the first of several cards goes to the last.
pub proof fn lemma_backward_wraps(a: App, next: int)
    requires
        a.total_cards > 1,
        a.first_shown,
        a.current_flashcard_number == 0,
        a.selects(Select::Prev, next),
    ensures
        next == a.total_cards - 1,
{
}

/// A random pick among several cards never stays on the card shown, and with one
/// card or none it stays where it is.
pub proof fn lemma_random_moves_away(a: App, next: int)
    requires
        a.first_shown,
        a.selects(Select::Random, next),
    ensures
        a.total_cards > 1 ==> 0 <= next < a.total_cards && next != a.current_flashcard_number,
        a.total_cards <= 1 ==> next == a.current_flashcard_number,
{
}

/// A move to the active mode keeps the prior mode; a move to another mode makes
/// the one left the prior.
pub proof fn lemma_transition_prior(a: App, new: State)
    ensures
        new == a.state ==> a.moved_to(new) == a,
        new != a.state ==> a.moved_to(new).state == new && a.moved_to(new).prior_state == a.state,
{
}

/// Going back twice in a row returns to the modes one started from.
pub proof fn lemma_restore_twice(a: App)
    ensures
        a.restored().restored().state == a.state,
        a.restored().restored().prior_state == a.prior_state,
{
}

/// Deleting the only card leaves none, and selecting then never moves nor draws,
/// whatever the selection.
pub proof fn lemma_last_card_deleted(a: App, select: Select, next: int)
    requires
        a.total_cards == 1,
        a.card_removed().selects(select, next),
    ensures
        a.card_removed().total_cards == 0,
        next == a.current_flashcard_number,
{
}

} // verus!
