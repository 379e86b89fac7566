//! The session: which screen is shown, how each key press changes the state,
//! and what the surrounding program has to do next.
use vstd::prelude::*;
use crate::decimal::{decimal, push_decimal};
use crate::editor::UserInputInfo;
use crate::guess::guess_applied;
use crate::history::{
    insert_by_time, law_latest_move_first, lemma_insert_by_time_sorted, record_move,
    sorted_by_time_desc, strictly_by_time_desc,
};
use crate::models::{CurrentScreen, GameInfo, GameMove, Score, UserInputMode, valid_moment};
use crate::outside::{char_is_numeric, now_millis, numeric_char, parse_i32, parsed_i32, random_in_range};
use crate::string_ops::string_push;

verus! {

/// Entries of the main menu: five game presets, the leaderboard, quitting.
pub const MENU_ITEM_COUNT: usize = 7;

/// The menu entries below this index start a game.
pub const PRESET_COUNT: usize = 5;

/// The menu entry that opens the leaderboard.
pub const LEADERBOARD_ITEM: usize = 5;

/// Lower bound, upper bound and hard mode of the game that menu entry `i`
/// starts.
pub open spec fn preset(i: int) -> (i32, i32, bool) {
    if i == 0 {
        (1, 100, false)
    } else if i == 1 {
        (1, 100, true)
    } else if i == 2 {
        (1, 1000, false)
    } else if i == 3 {
        (1, 1000, true)
    } else {
        (1, 1000000, true)
    }
}

fn preset_at(i: usize) -> (r: (i32, i32, bool))
    requires
        i < PRESET_COUNT,
    ensures
        r == preset(i as int),
{
    match i {
        0 => (1, 100, false),
        1 => (1, 100, true),
        2 => (1, 1000, false),
        3 => (1, 1000, true),
        _ => (1, 1000000, true),
    }
}

/// A key press, as far as the session tells keys apart.
#[derive(Clone, Copy, Debug, PartialEq, Eq, Structural)]
pub enum Key {
    Up,
    Down,
    Enter,
    Backspace,
    Char(char),
    Other,
}

/// Why a submitted guess was refused.
#[derive(Clone, Copy, Debug, PartialEq, Eq, Structural)]
pub enum InputError {
    /// The text is not a decimal `i32`.
    NotANumber,
}

/// What the surrounding program has to do after a key press.
#[derive(Clone, Debug, PartialEq, Eq)]
pub enum KeyOutcome {
    /// Draw the new state and wait for the next key.
    Continue,
    /// End the program.
    Quit,
    /// The typed guess was not a number; nothing changed.
    Rejected,
    /// Store this record on the leaderboard.
    SaveScore(Score),
}

/// The whole session state, as contracts speak of it.
pub struct AppView {
    pub screen: CurrentScreen,
    pub mode: UserInputMode,
    pub menu_index: nat,
    pub game: GameInfo,
    pub history: Seq<GameMove>,
    pub editor: UserInputInfo,
    pub popup: bool,
    pub user_name: Seq<char>,
}

/// The state of a running session.
pub struct App {
    current_screen: CurrentScreen,
    main_menu_selected: usize,
    game_info: GameInfo,
    user_input_history: Vec<GameMove>,
    quit_confirm_popup: bool,
    user_input_info: UserInputInfo,
    user_name: String,
    mode: UserInputMode,
}

impl View for App {
    type V = AppView;

    closed spec fn view(&self) -> AppView {
        AppView {
            screen: self.current_screen,
            mode: self.mode,
            menu_index: self.main_menu_selected as nat,
            game: self.game_info,
            history: self.user_input_history@,
            editor: self.user_input_info,
            popup: self.quit_confirm_popup,
            user_name: self.user_name@,
        }
    }
}

/// The invariant of a session: the menu selection is an entry, the editor
/// is consistent, the history runs from the most recent move, the round's
/// moments are calendar moments, the quit prompt only shows while a guess
/// is being typed, and a round is over exactly when the name is asked for.
pub open spec fn app_wf(v: AppView) -> bool {
    &&& v.menu_index < MENU_ITEM_COUNT
    &&& v.editor.wf()
    &&& sorted_by_time_desc(v.history)
    &&& valid_moment(v.game.game_started_at)
    &&& valid_moment(v.game.game_completed_at)
    &&& v.popup ==> v.screen == CurrentScreen::Game && v.mode == UserInputMode::InputNumber
    &&& v.game.is_game_over <==> v.mode == UserInputMode::InputName
}

/// `f` is `o` with `c` typed at the cursor.
pub open spec fn char_entered(o: AppView, f: AppView, c: char) -> bool {
    &&& f.editor.wf()
    &&& f.editor.text() == o.editor.text().insert(o.editor.cursor() as int, c)
    &&& f.editor.cursor() == o.editor.cursor() + 1
    &&& f == AppView { editor: f.editor, ..o }
}

/// `f` is `o` with the character left of the cursor deleted.
pub open spec fn char_deleted(o: AppView, f: AppView) -> bool {
    &&& f.editor.wf()
    &&& if o.editor.cursor() == 0 {
        f.editor.text() == o.editor.text() && f.editor.cursor() == 0
    } else {
        &&& f.editor.text() == o.editor.text().remove(o.editor.cursor() - 1)
        &&& f.editor.cursor() == o.editor.cursor() - 1
    }
    &&& f == AppView { editor: f.editor, ..o }
}

/// `f` is `o` with a fresh round over `[min, max]` with secret `secret`,
/// started at `now`.
pub open spec fn game_started(
    o: AppView,
    f: AppView,
    min: i32,
    max: i32,
    hard: bool,
    secret: i32,
    now: i64,
) -> bool {
    &&& f.game.min_number == min
    &&& f.game.max_number == max
    &&& f.game.range_min == min
    &&& f.game.range_max == max
    &&& f.game.generated_number == secret
    &&& f.game.current_guess_response@ == Seq::<char>::empty()
    &&& !f.game.is_game_over
    &&& f.game.game_started_at == now
    &&& f.game.game_completed_at == o.game.game_completed_at
    &&& f.game.is_hard_mode == hard
    &&& f.editor.wf()
    &&& f.editor.text() == Seq::<char>::empty()
    &&& f.editor.cursor() == 0
    &&& f == AppView {
        game: f.game,
        editor: f.editor,
        history: Seq::<GameMove>::empty(),
        mode: UserInputMode::InputNumber,
        ..o
    }
}

/// `f` and `r` are what submitting the typed guess at `now` makes of `o`.
/// Nothing happens with an empty text, after the round is won, or while the
/// quit prompt shows; a text that is no `i32` is refused. Otherwise the move
/// joins the history, the editor is emptied, and the most recent move of the
/// history is judged.
pub open spec fn number_submitted(o: AppView, f: AppView, now: i64, r: Result<(), InputError>) -> bool {
    if o.editor.text().len() == 0 || o.game.is_game_over || o.popup {
        r == Ok::<(), InputError>(()) && f == o
    } else {
        match parsed_i32(o.editor.text()) {
            None => r == Err::<(), InputError>(InputError::NotANumber) && f == o,
            Some(v) => {
                let h = insert_by_time(o.history, GameMove { move_done_at: now, user_value: v });
                let value = h[0].user_value;
                &&& r == Ok::<(), InputError>(())
                &&& f.history == h
                &&& f.editor.wf()
                &&& f.editor.text() == Seq::<char>::empty()
                &&& f.editor.cursor() == 0
                &&& guess_applied(o.game, f.game, value, now)
                &&& f.mode == (if value == o.game.generated_number {
                    UserInputMode::InputName
                } else {
                    o.mode
                })
                &&& f == AppView { history: f.history, editor: f.editor, game: f.game, mode: f.mode, ..o }
            },
        }
    }
}

/// `s` records the round of `o` under the name typed in its editor.
pub open spec fn score_for(o: AppView, s: Score) -> bool {
    &&& s.name@ == o.editor.text()
    &&& s.tries == o.history.len()
    &&& s.number_range@ == decimal(o.game.range_min as int) + seq!['-'] + decimal(
        o.game.range_max as int,
    )
    &&& s.started_at == o.game.game_started_at
    &&& s.completed_at == o.game.game_completed_at
    &&& s.completed_for_ms == o.game.game_completed_at - o.game.game_started_at
    &&& s.is_hard_mode == o.game.is_hard_mode
}

/// `f` and `out` are what submitting the typed name makes of `o`: nothing
/// with an empty text, while the quit prompt shows or before the round is
/// won; otherwise the name is
/// kept, the editor emptied, the leaderboard shown, and the round's record
/// handed out.
pub open spec fn name_submitted(o: AppView, f: AppView, out: Option<Score>) -> bool {
    if o.editor.text().len() == 0 || o.popup || !o.game.is_game_over {
        out == None::<Score> && f == o
    } else {
        &&& out is Some
        &&& score_for(o, out->0)
        &&& f.user_name == o.editor.text()
        &&& f.editor.wf()
        &&& f.editor.text() == Seq::<char>::empty()
        &&& f.editor.cursor() == 0
        &&& f == AppView {
            user_name: f.user_name,
            editor: f.editor,
            screen: CurrentScreen::Leaderboard,
            ..o
        }
    }
}

/// `f` and `out` are what `key` makes of `o`, given whether the key's
/// character is numeric, the secret drawn for a new round and the time.
pub open spec fn key_effect(
    o: AppView,
    key: Key,
    numeric: bool,
    secret: i32,
    now: i64,
    f: AppView,
    out: KeyOutcome,
) -> bool {
    match o.screen {
        CurrentScreen::Menu => match key {
            Key::Up => out == KeyOutcome::Continue && f == AppView {
                menu_index: if o.menu_index == 0 { 0 } else { (o.menu_index - 1) as nat },
                ..o
            },
            Key::Down => out == KeyOutcome::Continue && f == AppView {
                menu_index: if o.menu_index + 1 >= MENU_ITEM_COUNT {
                    o.menu_index
                } else {
                    o.menu_index + 1
                },
                ..o
            },
            Key::Enter => if o.menu_index < PRESET_COUNT {
                let p = preset(o.menu_index as int);
                &&& out == KeyOutcome::Continue
                &&& game_started(
                    AppView { screen: CurrentScreen::Game, ..o },
                    f,
                    p.0,
                    p.1,
                    p.2,
                    secret,
                    now,
                )
            } else if o.menu_index == LEADERBOARD_ITEM {
                out == KeyOutcome::Continue && f == AppView { screen: CurrentScreen::Leaderboard, ..o }
            } else {
                out == KeyOutcome::Quit && f == o
            },
            _ => out == KeyOutcome::Continue && f == o,
        },
        CurrentScreen::Leaderboard => out == KeyOutcome::Continue && f == (if key == Key::Char('q') {
            AppView { screen: CurrentScreen::Menu, ..o }
        } else {
            o
        }),
        CurrentScreen::Game => match key {
            Key::Char(c) => out == KeyOutcome::Continue && if c == 'q' {
                f == (if o.mode == UserInputMode::InputName || o.popup {
                    o
                } else {
                    AppView { popup: true, ..o }
                })
            } else if c == 'y' && o.popup {
                f == AppView { screen: CurrentScreen::Menu, popup: false, ..o }
            } else if c == 'n' && o.popup {
                f == AppView { popup: false, ..o }
            } else if !o.popup && (o.mode == UserInputMode::InputName || numeric) {
                char_entered(o, f, c)
            } else {
                f == o
            },
            Key::Backspace => out == KeyOutcome::Continue && if o.popup {
                f == o
            } else {
                char_deleted(o, f)
            },
            Key::Enter => if o.popup {
                out == KeyOutcome::Continue && f == o
            } else if o.mode == UserInputMode::InputNumber {
                ||| out == KeyOutcome::Continue && number_submitted(o, f, now, Ok(()))
                ||| out == KeyOutcome::Rejected && number_submitted(
                    o,
                    f,
                    now,
                    Err(InputError::NotANumber),
                )
            } else {
                match out {
                    KeyOutcome::SaveScore(s) => name_submitted(o, f, Some(s)),
                    KeyOutcome::Continue => name_submitted(o, f, None),
                    _ => false,
                }
            },
            _ => out == KeyOutcome::Continue && f == o,
        },
    }
}

/// Whether a key carries a character that Unicode counts as numeric.
pub open spec fn key_is_numeric(key: Key) -> bool {
    match key {
        Key::Char(c) => numeric_char(c),
        _ => false,
    }
}

/// A secret that suits the round that `key` would start from `o`.
pub open spec fn secret_fits(o: AppView, key: Key, secret: i32) -> bool {
    o.screen == CurrentScreen::Menu && key == Key::Enter && o.menu_index < PRESET_COUNT ==> {
        let p = preset(o.menu_index as int);
        p.0 <= secret <= p.1
    }
}

/// A guess submitted later than every earlier move of an open round is
/// judged itself: a guess equal to the secret ends the round at that moment
/// and asks for the name, any other guess leaves the round open. Once a
/// round is over, submitting a guess changes nothing.
pub proof fn law_winning_guess_ends_round(
    o: AppView,
    f: AppView,
    now: i64,
    r: Result<(), InputError>,
)
    requires
        app_wf(o),
        number_submitted(o, f, now, r),
    ensures
        o.game.is_game_over ==> f == o,
        f.game.is_game_over && !o.game.is_game_over ==> f.mode == UserInputMode::InputName,
        !o.game.is_game_over && !o.popup && (forall|i: int|
            0 <= i < o.history.len() ==> #[trigger] o.history[i].move_done_at < now) ==> match parsed_i32(
            o.editor.text(),
        ) {
            Some(g) => if g == o.game.generated_number {
                &&& f.game.is_game_over
                &&& f.mode == UserInputMode::InputName
                &&& f.game.current_guess_response@ == "YOU WON !!!"@
                &&& f.game.game_completed_at == now
                &&& f.history.len() == o.history.len() + 1
            } else {
                &&& !f.game.is_game_over
                &&& f.mode == o.mode
                &&& f.game.game_completed_at == o.game.game_completed_at
            },
            None => f == o,
        },
{
    if !o.game.is_game_over && !o.popup && o.editor.text().len() > 0 {
        if let Some(v) = parsed_i32(o.editor.text()) {
            let m = GameMove { move_done_at: now, user_value: v };
            lemma_insert_by_time_sorted(o.history, m);
            if o.history.len() > 0 {
                if o.history[0].move_done_at < now {
                    assert(insert_by_time(o.history, m)[0] == m);
                }
            }
        }
    }
}

/// Submissions made later than every recorded move keep the history in
/// strictly descending time, with the new move first and the older moves
/// after it in their order; equal guesses are all kept.
pub proof fn law_submission_goes_first(
    o: AppView,
    f: AppView,
    now: i64,
    r: Result<(), InputError>,
)
    requires
        app_wf(o),
        strictly_by_time_desc(o.history),
        forall|i: int| 0 <= i < o.history.len() ==> #[trigger] o.history[i].move_done_at < now,
        number_submitted(o, f, now, r),
    ensures
        strictly_by_time_desc(f.history),
        !o.game.is_game_over && !o.popup && parsed_i32(o.editor.text()) is Some ==> f.history
            == seq![GameMove { move_done_at: now, user_value: parsed_i32(o.editor.text())->0 }]
            + o.history,
{
    if !o.game.is_game_over && !o.popup && o.editor.text().len() > 0 {
        if let Some(v) = parsed_i32(o.editor.text()) {
            law_latest_move_first(o.history, GameMove { move_done_at: now, user_value: v });
        }
    }
}

/// While a finished round is on screen, no key adds a guess or changes the
/// round.
pub proof fn law_no_guess_after_win(
    o: AppView,
    key: Key,
    numeric: bool,
    secret: i32,
    now: i64,
    f: AppView,
    out: KeyOutcome,
)
    requires
        app_wf(o),
        o.screen == CurrentScreen::Game,
        o.game.is_game_over,
        key_effect(o, key, numeric, secret, now, f, out),
    ensures
        f.history == o.history,
        f.game == o.game,
{
}

impl App {
    pub open spec fn wf(&self) -> bool {
        app_wf(self@)
    }

    /// A session on the main menu, with the first entry selected and no
    /// round played yet.
    pub fn new() -> (r: App)
        ensures
            r.wf(),
            r@.screen == CurrentScreen::Menu,
            r@.mode == UserInputMode::InputNumber,
            r@.menu_index == 0,
            r@.history == Seq::<GameMove>::empty(),
            r@.editor.text() == Seq::<char>::empty(),
            r@.editor.cursor() == 0,
            !r@.popup,
            r@.user_name == Seq::<char>::empty(),
            !r@.game.is_game_over,
    {
        let now = now_millis();
        App {
            current_screen: CurrentScreen::Menu,
            main_menu_selected: 0,
            game_info: GameInfo {
                min_number: 0,
                max_number: 0,
                range_min: 0,
                range_max: 0,
                generated_number: 0,
                current_guess_response: String::new(),
                is_game_over: false,
                game_started_at: now,
                game_completed_at: now,
                is_hard_mode: false,
            },
            user_input_history: Vec::new(),
            quit_confirm_popup: false,
            user_input_info: UserInputInfo::new(),
            user_name: String::new(),
            mode: UserInputMode::InputNumber,
        }
    }

    /// The labels of the main menu, in order.
    pub fn main_menu_items() -> (r: Vec<String>)
        ensures
            r.len() == MENU_ITEM_COUNT,
            r[0]@ == "Start game (1-100)"@,
            r[1]@ == "Start game (1-100) Hard Mode"@,
            r[2]@ == "Start game (1-1000)"@,
            r[3]@ == "Start game (1-1000) Hard Mode"@,
            r[4]@ == "Start game (1-1000000) Hard Mode"@,
            r[5]@ == "Leaderboard"@,
            r[6]@ == "Quit"@,
    {
        let mut r: Vec<String> = Vec::new();
        r.push("Start game (1-100)".to_owned());
        r.push("Start game (1-100) Hard Mode".to_owned());
        r.push("Start game (1-1000)".to_owned());
        r.push("Start game (1-1000) Hard Mode".to_owned());
        r.push("Start game (1-1000000) Hard Mode".to_owned());
        r.push("Leaderboard".to_owned());
        r.push("Quit".to_owned());
        r
    }

    /// The selected menu entry.
    pub fn get_selected_menu_idx(&self) -> (r: usize)
        ensures
            r == self@.menu_index,
    {
        self.main_menu_selected
    }

    /// The active screen.
    pub fn current_screen(&self) -> (r: CurrentScreen)
        ensures
            r == self@.screen,
    {
        self.current_screen
    }

    /// How keys on the game screen are read.
    pub fn mode(&self) -> (r: UserInputMode)
        ensures
            r == self@.mode,
    {
        self.mode
    }

    /// Whether the quit prompt shows.
    pub fn quit_confirm_popup(&self) -> (r: bool)
        ensures
            r == self@.popup,
    {
        self.quit_confirm_popup
    }

    /// The current round.
    pub fn game_info(&self) -> (r: &GameInfo)
        ensures
            *r == self@.game,
    {
        &self.game_info
    }

    /// The guesses of the current round, most recent first.
    pub fn user_input_history(&self) -> (r: &Vec<GameMove>)
        ensures
            r@ == self@.history,
    {
        &self.user_input_history
    }

    /// The line editor.
    pub fn user_input_info(&self) -> (r: &UserInputInfo)
        ensures
            *r == self@.editor,
    {
        &self.user_input_info
    }

    /// The name submitted last.
    pub fn user_name(&self) -> (r: &str)
        ensures
            r@ == self@.user_name,
    {
        self.user_name.as_str()
    }

    /// Starts a round over `[min_number, max_number]` whose secret is
    /// `secret`, at time `now`.
    pub fn start_game_with(
        &mut self,
        min_number: i32,
        max_number: i32,
        is_hard_mode: bool,
        secret: i32,
        now: i64,
    )
        requires
            old(self).wf(),
            valid_moment(now),
        ensures
            final(self).wf(),
            game_started(old(self)@, final(self)@, min_number, max_number, is_hard_mode, secret, now),
    {
        self.game_info.generated_number = secret;
        self.user_input_info.clear();
        self.user_input_history.clear();
        self.game_info.game_started_at = now;
        self.game_info.is_game_over = false;
        self.game_info.current_guess_response = String::new();
        self.game_info.min_number = min_number;
        self.game_info.max_number = max_number;
        self.game_info.range_min = min_number;
        self.game_info.range_max = max_number;
        self.game_info.is_hard_mode = is_hard_mode;
        self.mode = UserInputMode::InputNumber;
    }

    /// Starts a round over `[min_number, max_number]` with a secret drawn
    /// uniformly from it, now.
    pub fn start_game(&mut self, min_number: i32, max_number: i32, is_hard_mode: bool)
        requires
            old(self).wf(),
            min_number <= max_number,
        ensures
            final(self).wf(),
            exists|secret: i32, now: i64|
                min_number <= secret <= max_number && valid_moment(now) && game_started(
                    old(self)@,
                    final(self)@,
                    min_number,
                    max_number,
                    is_hard_mode,
                    secret,
                    now,
                ),
    {
        let secret = random_in_range(min_number, max_number);
        let now = now_millis();
        let ghost o = self@;
        self.start_game_with(min_number, max_number, is_hard_mode, secret, now);
        assert(game_started(o, self@, min_number, max_number, is_hard_mode, secret, now));
    }

    /// Types `c` at the cursor.
    pub fn input_enter_char(&mut self, c: char)
        requires
            old(self).wf(),
        ensures
            final(self).wf(),
            char_entered(old(self)@, final(self)@, c),
    {
        self.user_input_info.enter_char(c);
    }

    /// Deletes the character left of the cursor, if any.
    pub fn input_delete_char(&mut self)
        requires
            old(self).wf(),
        ensures
            final(self).wf(),
            char_deleted(old(self)@, final(self)@),
    {
        self.user_input_info.delete_char();
    }

    /// Submits the typed guess at time `now`.
    pub fn input_submit_number_at(&mut self, now: i64) -> (r: Result<(), InputError>)
        requires
            old(self).wf(),
            valid_moment(now),
        ensures
            final(self).wf(),
            number_submitted(old(self)@, final(self)@, now, r),
    {
        if self.user_input_info.is_empty() || self.game_info.is_game_over
            || self.quit_confirm_popup {
            return Ok(());
        }
        let value = match parse_i32(self.user_input_info.input()) {
            Some(v) => v,
            None => return Err(InputError::NotANumber),
        };
        let ghost o = self@;
        let m = GameMove { move_done_at: now, user_value: value };
        proof {
            lemma_insert_by_time_sorted(o.history, m);
        }
        record_move(&mut self.user_input_history, m);
        self.user_input_info.clear();
        self.check_entered_guess(now);
        Ok(())
    }

    /// Submits the typed guess now.
    pub fn input_submit_number(&mut self) -> (r: Result<(), InputError>)
        requires
            old(self).wf(),
        ensures
            final(self).wf(),
            exists|now: i64| valid_moment(now) && number_submitted(old(self)@, final(self)@, now, r),
    {
        let now = now_millis();
        let ghost o = self@;
        let r = self.input_submit_number_at(now);
        assert(number_submitted(o, self@, now, r));
        r
    }

    /// Judges the most recent move of the history.
    fn check_entered_guess(&mut self, now: i64)
        requires
            old(self)@.history.len() > 0,
            !old(self)@.game.is_game_over,
        ensures
            guess_applied(
                old(self)@.game,
                final(self)@.game,
                old(self)@.history[0].user_value,
                now,
            ),
            final(self)@.mode == (if old(self)@.history[0].user_value
                == old(self)@.game.generated_number {
                UserInputMode::InputName
            } else {
                old(self)@.mode
            }),
            final(self)@ == (AppView { game: final(self)@.game, mode: final(self)@.mode, ..old(self)@ }),
    {
        let value = self.user_input_history[0].user_value;
        let won = self.game_info.check_entered_guess(value, now);
        if won {
            self.mode = UserInputMode::InputName;
        }
    }

    /// The leaderboard record of the current round under `name`.
    fn score_record(&self, name: String) -> (s: Score)
        requires
            self.wf(),
        ensures
            s.name == name,
            s.tries == self@.history.len(),
            s.number_range@ == decimal(self@.game.range_min as int) + seq!['-'] + decimal(
                self@.game.range_max as int,
            ),
            s.started_at == self@.game.game_started_at,
            s.completed_at == self@.game.game_completed_at,
            s.completed_for_ms == self@.game.game_completed_at - self@.game.game_started_at,
            s.is_hard_mode == self@.game.is_hard_mode,
    {
        let mut number_range = String::new();
        push_decimal(&mut number_range, self.game_info.range_min);
        string_push(&mut number_range, '-');
        push_decimal(&mut number_range, self.game_info.range_max);
        Score {
            name,
            tries: self.user_input_history.len(),
            started_at: self.game_info.game_started_at,
            completed_at: self.game_info.game_completed_at,
            completed_for_ms: self.game_info.game_completed_at - self.game_info.game_started_at,
            number_range,
            is_hard_mode: self.game_info.is_hard_mode,
        }
    }

    /// Submits the typed name: keeps it, opens the leaderboard and returns
    /// the round's record for storing.
    pub fn input_submit_name(&mut self) -> (r: Option<Score>)
        requires
            old(self).wf(),
        ensures
            final(self).wf(),
            name_submitted(old(self)@, final(self)@, r),
    {
        if self.quit_confirm_popup || self.user_input_info.is_empty()
            || !self.game_info.is_game_over {
            return None;
        }
        let name = self.user_input_info.input().to_owned();
        let score = self.score_record(name.clone());
        self.user_name = name;
        self.user_input_info.clear();
        self.current_screen = CurrentScreen::Leaderboard;
        Some(score)
    }

    /// Handles one key press, given whether its character is numeric, the
    /// secret for a round that it starts and the time.
    pub fn handle_key_with(&mut self, key: Key, numeric: bool, secret: i32, now: i64) -> (out:
        KeyOutcome)
        requires
            old(self).wf(),
            valid_moment(now),
        ensures
            final(self).wf(),
            key_effect(old(self)@, key, numeric, secret, now, final(self)@, out),
    {
        match self.current_screen {
            CurrentScreen::Menu => match key {
                Key::Up => {
                    if self.main_menu_selected > 0 {
                        self.main_menu_selected = self.main_menu_selected - 1;
                    }
                    KeyOutcome::Continue
                },
                Key::Down => {
                    if self.main_menu_selected + 1 < MENU_ITEM_COUNT {
                        self.main_menu_selected = self.main_menu_selected + 1;
                    }
                    KeyOutcome::Continue
                },
                Key::Enter => {
                    let i = self.main_menu_selected;
                    if i < PRESET_COUNT {
                        let (lo, hi, hard) = preset_at(i);
                        self.current_screen = CurrentScreen::Game;
                        self.start_game_with(lo, hi, hard, secret, now);
                        KeyOutcome::Continue
                    } else if i == LEADERBOARD_ITEM {
                        self.current_screen = CurrentScreen::Leaderboard;
                        KeyOutcome::Continue
                    } else {
                        KeyOutcome::Quit
                    }
                },
                _ => KeyOutcome::Continue,
            },
            CurrentScreen::Leaderboard => {
                if key == Key::Char('q') {
                    self.current_screen = CurrentScreen::Menu;
                }
                KeyOutcome::Continue
            },
            CurrentScreen::Game => match key {
                Key::Char(c) => {
                    if c == 'q' {
                        if self.mode == UserInputMode::InputNumber && !self.quit_confirm_popup {
                            self.quit_confirm_popup = true;
                        }
                    } else if c == 'y' && self.quit_confirm_popup {
                        self.current_screen = CurrentScreen::Menu;
                        self.quit_confirm_popup = false;
                    } else if c == 'n' && self.quit_confirm_popup {
                        self.quit_confirm_popup = false;
                    } else if !self.quit_confirm_popup && (self.mode == UserInputMode::InputName
                        || numeric) {
                        self.input_enter_char(c);
                    }
                    KeyOutcome::Continue
                },
                Key::Backspace => {
                    if !self.quit_confirm_popup {
                        self.input_delete_char();
                    }
                    KeyOutcome::Continue
                },
                Key::Enter => {
                    if self.quit_confirm_popup {
                        KeyOutcome::Continue
                    } else if self.mode == UserInputMode::InputNumber {
                        match self.input_submit_number_at(now) {
                            Ok(()) => KeyOutcome::Continue,
                            Err(_) => KeyOutcome::Rejected,
                        }
                    } else {
                        match self.input_submit_name() {
                            Some(s) => KeyOutcome::SaveScore(s),
                            None => KeyOutcome::Continue,
                        }
                    }
                },
                _ => KeyOutcome::Continue,
            },
        }
    }

    /// Handles one key press: asks the standard library whether its
    /// character is numeric, and draws the secret and reads the clock where
    /// the key needs them.
    pub fn handle_key(&mut self, key: Key) -> (out: KeyOutcome)
        requires
            old(self).wf(),
        ensures
            final(self).wf(),
            exists|secret: i32, now: i64|
                valid_moment(now) && secret_fits(old(self)@, key, secret) && key_effect(
                    old(self)@,
                    key,
                    key_is_numeric(key),
                    secret,
                    now,
                    final(self)@,
                    out,
                ),
    {
        let numeric = match key {
            Key::Char(c) => char_is_numeric(c),
            _ => false,
        };
        let is_enter = key == Key::Enter;
        let mut secret: i32 = 0;
        if is_enter && self.current_screen == CurrentScreen::Menu && self.main_menu_selected
            < PRESET_COUNT {
            let (lo, hi, _) = preset_at(self.main_menu_selected);
            secret = random_in_range(lo, hi);
        }
        let now = if is_enter { now_millis() } else { 0 };
        let ghost o = self@;
        let out = self.handle_key_with(key, numeric, secret, now);
        assert(secret_fits(o, key, secret));
        assert(key_effect(o, key, key_is_numeric(key), secret, now, self@, out));
        out
    }
}

} // verus!
