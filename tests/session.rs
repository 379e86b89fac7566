use guessing_game::app::{App, InputError, Key, KeyOutcome};
use guessing_game::models::{CurrentScreen, Score, UserInputMode};

fn type_text(app: &mut App, text: &str) {
    for c in text.chars() {
        app.input_enter_char(c);
    }
}

fn guess(app: &mut App, text: &str, at: i64) -> Result<(), InputError> {
    type_text(app, text);
    app.input_submit_number_at(at)
}

fn press(app: &mut App, key: Key) -> KeyOutcome {
    let numeric = match key {
        Key::Char(c) => c.is_ascii_digit(),
        _ => false,
    };
    app.handle_key_with(key, numeric, 42, 5_000)
}

#[test]
fn new_session_shows_the_menu() {
    let app = App::new();
    assert_eq!(app.current_screen(), CurrentScreen::Menu);
    assert_eq!(app.get_selected_menu_idx(), 0);
    assert_eq!(app.mode(), UserInputMode::InputNumber);
    assert!(!app.quit_confirm_popup());
    assert!(app.user_input_history().is_empty());
    assert_eq!(App::main_menu_items().len(), 7);
    assert_eq!(App::main_menu_items()[6], "Quit");
}

#[test]
fn scenario_easy_round_narrows_and_records_score() {
    let mut app = App::new();
    app.start_game_with(1, 100, false, 42, 1_000);
    assert_eq!(guess(&mut app, "50", 2_000), Ok(()));
    assert_eq!(app.game_info().current_guess_response, "Number is < than 50");
    assert_eq!(app.game_info().max_number, 50);
    assert_eq!(app.game_info().min_number, 1);
    assert_eq!(guess(&mut app, "10", 3_000), Ok(()));
    assert_eq!(app.game_info().current_guess_response, "Number is > than 10");
    assert_eq!(app.game_info().min_number, 10);
    assert_eq!(app.game_info().max_number, 50);
    assert_eq!(guess(&mut app, "42", 4_500), Ok(()));
    assert_eq!(app.game_info().current_guess_response, "YOU WON !!!");
    assert!(app.game_info().is_game_over);
    assert_eq!(app.mode(), UserInputMode::InputName);
    assert_eq!(app.user_input_history().len(), 3);
    assert_eq!(app.user_input_info().input(), "");

    type_text(&mut app, "Ann");
    let score = app.input_submit_name().expect("a record");
    assert_eq!(score.name, "Ann");
    assert_eq!(score.tries, 3);
    assert_eq!(score.number_range, "1-100");
    assert!(!score.is_hard_mode);
    assert_eq!(score.started_at, 1_000);
    assert_eq!(score.completed_at, 4_500);
    assert_eq!(score.completed_for_ms, 3_500);
    assert_eq!(app.user_name(), "Ann");
    assert_eq!(app.current_screen(), CurrentScreen::Leaderboard);
}

#[test]
fn scenario_hard_round_keeps_bounds() {
    let mut app = App::new();
    app.start_game_with(1, 100, true, 42, 1_000);
    for (text, at) in [("50", 2_000), ("10", 3_000), ("42", 4_000)] {
        assert_eq!(guess(&mut app, text, at), Ok(()));
        assert_eq!(app.game_info().min_number, 1);
        assert_eq!(app.game_info().max_number, 100);
    }
    assert!(app.game_info().is_game_over);
    assert_eq!(app.user_input_history().len(), 3);
    type_text(&mut app, "Bo");
    let score = app.input_submit_name().expect("a record");
    assert_eq!(score.tries, 3);
    assert_eq!(score.number_range, "1-100");
    assert!(score.is_hard_mode);
}

#[test]
fn hints_after_each_guess() {
    let mut app = App::new();
    app.start_game_with(1, 1000, false, 700, 0);
    guess(&mut app, "999", 1).unwrap();
    assert_eq!(app.game_info().current_guess_response, "Number is < than 999");
    guess(&mut app, "7", 2).unwrap();
    assert_eq!(app.game_info().current_guess_response, "Number is > than 7");
    guess(&mut app, "-5", 3).unwrap();
    assert_eq!(app.game_info().current_guess_response, "Number is > than -5");
    assert_eq!(app.game_info().min_number, 7);
}

#[test]
fn narrowing_follows_each_wrong_guess() {
    let mut app = App::new();
    app.start_game_with(1, 100, false, 60, 0);
    let mut last = (1, 100);
    for (i, text) in ["20", "90", "40", "70", "55", "65"].iter().enumerate() {
        guess(&mut app, text, i as i64 + 1).unwrap();
        let now = (app.game_info().min_number, app.game_info().max_number);
        assert!(now.0 >= last.0 && now.1 <= last.1);
        last = now;
    }
    assert_eq!(last, (55, 65));
}

#[test]
fn repeated_guesses_are_all_recorded() {
    let mut app = App::new();
    app.start_game_with(1, 100, false, 42, 0);
    guess(&mut app, "7", 1).unwrap();
    guess(&mut app, "7", 2).unwrap();
    assert_eq!(app.user_input_history().len(), 2);
}

#[test]
fn history_lists_the_latest_move_first() {
    let mut app = App::new();
    app.start_game_with(1, 100, false, 42, 0);
    guess(&mut app, "1", 10).unwrap();
    guess(&mut app, "2", 20).unwrap();
    guess(&mut app, "3", 30).unwrap();
    let times: Vec<i64> = app.user_input_history().iter().map(|m| m.move_done_at).collect();
    assert_eq!(times, vec![30, 20, 10]);
    assert_eq!(app.user_input_history()[0].user_value, 3);
}

#[test]
fn history_stays_ordered_when_the_clock_goes_back() {
    let mut app = App::new();
    app.start_game_with(1, 100, false, 42, 0);
    guess(&mut app, "1", 10).unwrap();
    guess(&mut app, "2", 30).unwrap();
    guess(&mut app, "3", 20).unwrap();
    let times: Vec<i64> = app.user_input_history().iter().map(|m| m.move_done_at).collect();
    assert_eq!(times, vec![30, 20, 10]);
    assert_eq!(app.game_info().current_guess_response, "Number is > than 2");
}

#[test]
fn empty_submission_is_ignored() {
    let mut app = App::new();
    app.start_game_with(1, 100, false, 42, 0);
    assert_eq!(app.input_submit_number_at(1), Ok(()));
    assert!(app.user_input_history().is_empty());
    assert_eq!(app.game_info().current_guess_response, "");
    assert_eq!(app.input_submit_name(), None);
}

#[test]
fn text_that_is_no_number_is_rejected() {
    let mut app = App::new();
    app.start_game_with(1, 100, false, 42, 0);
    assert_eq!(guess(&mut app, "99999999999", 1), Err(InputError::NotANumber));
    assert!(app.user_input_history().is_empty());
    assert_eq!(app.user_input_info().input(), "99999999999");
    let mut other = App::new();
    other.start_game_with(1, 100, false, 42, 0);
    assert_eq!(guess(&mut other, "\u{663}", 1), Err(InputError::NotANumber));
}

#[test]
fn no_guess_is_accepted_after_a_win() {
    let mut app = App::new();
    press(&mut app, Key::Enter);
    guess(&mut app, "42", 6_000).unwrap();
    assert!(app.game_info().is_game_over);
    assert_eq!(app.game_info().game_completed_at, 6_000);
    assert_eq!(guess(&mut app, "42", 7_000), Ok(()));
    assert_eq!(app.user_input_history().len(), 1);
    assert!(app.game_info().is_game_over);
    assert_eq!(app.game_info().game_completed_at, 6_000);
    assert_eq!(press(&mut app, Key::Char('7')), KeyOutcome::Continue);
    assert_eq!(app.user_input_history().len(), 1);
    let expected = Score {
        name: "427".to_string(),
        tries: 1,
        started_at: 5_000,
        completed_at: 6_000,
        completed_for_ms: 1_000,
        number_range: "1-100".to_string(),
        is_hard_mode: false,
    };
    assert_eq!(press(&mut app, Key::Enter), KeyOutcome::SaveScore(expected));
}

#[test]
fn menu_selection_is_clamped() {
    let mut app = App::new();
    press(&mut app, Key::Up);
    assert_eq!(app.get_selected_menu_idx(), 0);
    for _ in 0..10 {
        press(&mut app, Key::Down);
    }
    assert_eq!(app.get_selected_menu_idx(), 6);
    press(&mut app, Key::Up);
    assert_eq!(app.get_selected_menu_idx(), 5);
}

#[test]
fn menu_quit_and_leaderboard_entries() {
    let mut app = App::new();
    for _ in 0..6 {
        press(&mut app, Key::Down);
    }
    assert_eq!(press(&mut app, Key::Enter), KeyOutcome::Quit);
    assert_eq!(app.current_screen(), CurrentScreen::Menu);
    press(&mut app, Key::Up);
    assert_eq!(press(&mut app, Key::Enter), KeyOutcome::Continue);
    assert_eq!(app.current_screen(), CurrentScreen::Leaderboard);
    press(&mut app, Key::Char('x'));
    assert_eq!(app.current_screen(), CurrentScreen::Leaderboard);
    press(&mut app, Key::Char('q'));
    assert_eq!(app.current_screen(), CurrentScreen::Menu);
}

#[test]
fn menu_presets_start_the_listed_rounds() {
    let expected = [(1, 100, false), (1, 100, true), (1, 1000, false), (1, 1000, true), (1, 1000000, true)];
    for (i, (lo, hi, hard)) in expected.iter().enumerate() {
        let mut app = App::new();
        for _ in 0..i {
            press(&mut app, Key::Down);
        }
        assert_eq!(press(&mut app, Key::Enter), KeyOutcome::Continue);
        assert_eq!(app.current_screen(), CurrentScreen::Game);
        assert_eq!(app.mode(), UserInputMode::InputNumber);
        let g = app.game_info();
        assert_eq!((g.min_number, g.max_number, g.is_hard_mode), (*lo, *hi, *hard));
        assert_eq!((g.range_min, g.range_max), (*lo, *hi));
        assert_eq!(g.generated_number, 42);
        assert_eq!(g.game_started_at, 5_000);
    }
}

#[test]
fn game_keys_type_submit_and_win() {
    let mut app = App::new();
    press(&mut app, Key::Enter);
    press(&mut app, Key::Char('4'));
    press(&mut app, Key::Char('x'));
    press(&mut app, Key::Char('3'));
    assert_eq!(app.user_input_info().input(), "43");
    press(&mut app, Key::Backspace);
    press(&mut app, Key::Char('2'));
    assert_eq!(press(&mut app, Key::Enter), KeyOutcome::Continue);
    assert!(app.game_info().is_game_over);
    assert_eq!(app.mode(), UserInputMode::InputName);
    press(&mut app, Key::Char('q'));
    assert!(!app.quit_confirm_popup());
    for c in "Zed".chars() {
        press(&mut app, Key::Char(c));
    }
    match press(&mut app, Key::Enter) {
        KeyOutcome::SaveScore(s) => {
            assert_eq!(s.name, "Zed");
            assert_eq!(s.tries, 1);
            assert_eq!(s.number_range, "1-100");
            assert_eq!(s.completed_for_ms, 0);
        }
        other => panic!("unexpected outcome {:?}", other),
    }
    assert_eq!(app.current_screen(), CurrentScreen::Leaderboard);
}

#[test]
fn quit_prompt_blocks_input_until_answered() {
    let mut app = App::new();
    press(&mut app, Key::Enter);
    press(&mut app, Key::Char('5'));
    press(&mut app, Key::Char('q'));
    assert!(app.quit_confirm_popup());
    press(&mut app, Key::Char('q'));
    assert!(app.quit_confirm_popup());
    press(&mut app, Key::Char('7'));
    press(&mut app, Key::Backspace);
    press(&mut app, Key::Enter);
    assert_eq!(app.user_input_info().input(), "5");
    assert!(app.user_input_history().is_empty());
    press(&mut app, Key::Char('n'));
    assert!(!app.quit_confirm_popup());
    assert_eq!(app.current_screen(), CurrentScreen::Game);
    press(&mut app, Key::Char('q'));
    press(&mut app, Key::Char('y'));
    assert!(!app.quit_confirm_popup());
    assert_eq!(app.current_screen(), CurrentScreen::Menu);
}

#[test]
fn rejected_guess_through_keys() {
    let mut app = App::new();
    press(&mut app, Key::Enter);
    for _ in 0..11 {
        press(&mut app, Key::Char('9'));
    }
    assert_eq!(press(&mut app, Key::Enter), KeyOutcome::Rejected);
    assert!(app.user_input_history().is_empty());
}

#[test]
fn handle_key_uses_the_clock_and_the_generator() {
    let mut app = App::new();
    assert!(app.game_info().game_started_at > 1_500_000_000_000);
    app.handle_key(Key::Enter);
    assert_eq!(app.current_screen(), CurrentScreen::Game);
    let g = app.game_info();
    assert!(1 <= g.generated_number && g.generated_number <= 100);
    assert!(g.game_started_at > 1_500_000_000_000);
    app.handle_key(Key::Char('a'));
    assert_eq!(app.user_input_info().input(), "");
    app.handle_key(Key::Char('7'));
    app.handle_key(Key::Char('\u{663}'));
    assert_eq!(app.user_input_info().input(), "7\u{663}");
    assert_eq!(app.handle_key(Key::Enter), KeyOutcome::Rejected);
}

#[test]
fn start_game_draws_the_secret_from_the_range() {
    for _ in 0..50 {
        let mut app = App::new();
        app.start_game(3, 5, false);
        let g = app.game_info();
        assert!(3 <= g.generated_number && g.generated_number <= 5);
        assert_eq!((g.min_number, g.max_number), (3, 5));
    }
    let mut app = App::new();
    app.start_game(9, 9, true);
    assert_eq!(app.game_info().generated_number, 9);
    let later = app.game_info().game_started_at + 1;
    guess(&mut app, "9", later).unwrap();
    assert!(app.game_info().is_game_over);
    let submitted = app.input_submit_number();
    assert_eq!(submitted, Ok(()));
}

#[test]
fn new_round_resets_the_previous_one() {
    let mut app = App::new();
    app.start_game_with(1, 100, false, 42, 0);
    guess(&mut app, "42", 1).unwrap();
    type_text(&mut app, "Al");
    app.start_game_with(1, 1000, true, 7, 10);
    let g = app.game_info();
    assert!(!g.is_game_over);
    assert_eq!(g.current_guess_response, "");
    assert_eq!(g.generated_number, 7);
    assert!(app.user_input_history().is_empty());
    assert_eq!(app.user_input_info().input(), "");
    assert_eq!(app.mode(), UserInputMode::InputNumber);
}

#[test]
fn guesses_outside_the_bounds_never_widen_them() {
    let mut app = App::new();
    app.start_game_with(10, 100, false, 42, 0);
    guess(&mut app, "5", 1).unwrap();
    assert_eq!(app.game_info().current_guess_response, "Number is > than 5");
    assert_eq!((app.game_info().min_number, app.game_info().max_number), (10, 100));
    guess(&mut app, "150", 2).unwrap();
    assert_eq!((app.game_info().min_number, app.game_info().max_number), (10, 100));
    guess(&mut app, "60", 3).unwrap();
    guess(&mut app, "80", 4).unwrap();
    assert_eq!((app.game_info().min_number, app.game_info().max_number), (10, 60));
    guess(&mut app, "20", 5).unwrap();
    guess(&mut app, "15", 6).unwrap();
    assert_eq!((app.game_info().min_number, app.game_info().max_number), (20, 60));
}

#[test]
fn name_keys_include_y_and_n() {
    let mut app = App::new();
    press(&mut app, Key::Enter);
    press(&mut app, Key::Char('y'));
    press(&mut app, Key::Char('n'));
    assert_eq!(app.user_input_info().input(), "");
    assert_eq!(app.current_screen(), CurrentScreen::Game);
    press(&mut app, Key::Char('4'));
    press(&mut app, Key::Char('2'));
    press(&mut app, Key::Enter);
    assert_eq!(app.mode(), UserInputMode::InputName);
    for c in "Ann Yvy".chars() {
        press(&mut app, Key::Char(c));
    }
    press(&mut app, Key::Char('y'));
    press(&mut app, Key::Char('q'));
    assert_eq!(app.user_input_info().input(), "Ann Yvyy");
    assert!(!app.quit_confirm_popup());
    match press(&mut app, Key::Enter) {
        KeyOutcome::SaveScore(s) => assert_eq!(s.name, "Ann Yvyy"),
        other => panic!("unexpected outcome {:?}", other),
    }
}

#[test]
fn no_record_before_the_round_is_won() {
    let mut app = App::new();
    app.start_game_with(1, 100, false, 42, 0);
    type_text(&mut app, "Ann");
    assert_eq!(app.input_submit_name(), None);
    assert_eq!(app.user_input_info().input(), "Ann");
    assert_eq!(app.current_screen(), CurrentScreen::Menu);
    assert_eq!(app.user_name(), "");
}
