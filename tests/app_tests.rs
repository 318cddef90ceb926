use rashcard::app::{maybe_construct_timer, pick_other_index, App, Select, State, Timer};
use rashcard::card::{CardError, FlashCard};

fn card(id: i64, title: &str, body: &str) -> FlashCard {
    FlashCard { id, title: title.to_string(), body: body.to_string() }
}

/// Selects by `select`, then shows what the store gave for that position.
fn show_next(app: &mut App, select: Select, card: Option<FlashCard>) -> usize {
    let index = app.select_card(select);
    app.show_card(index, Ok(card)).unwrap();
    index
}

fn browsing(total: usize, index: usize) -> App {
    let mut app = App::default();
    app.total_cards = total;
    app.current_flashcard_number = index;
    app.first_shown = true;
    app
}

#[test]
pub fn test_text() {
    let mut app = App::default();
    app.update_flash_text("this is the first line\nthis is the second line\nthis is the third line");
    let lines = app.text_lines();
    assert_eq!(
        lines,
        vec!["this is the first line", "this is the second line", "this is the third line"]
    );
}

#[test]
fn text_lines_keeps_empty_last_line() {
    let mut app = App::default();
    app.update_flash_text("title\n");
    assert_eq!(app.text_lines(), vec!["title", ""]);
}

#[test]
fn fresh_session() {
    let app = App::from_arguments(2);
    assert!(app.running);
    assert_eq!(app.state, State::Idling);
    assert_eq!(app.prior_state, State::Idling);
    assert_eq!(app.verbosity, 2);
    assert_eq!(app.current_flashcard_number, 0);
    assert!(!app.first_shown);
    assert_eq!(app.popup_time, None);
}

#[test]
fn forward_wraps_to_first() {
    for total in 2..6usize {
        let app = browsing(total, total - 1);
        assert_eq!(app.select_card(Select::Next), 0);
    }
}

#[test]
fn backward_wraps_to_last() {
    for total in 2..6usize {
        let app = browsing(total, 0);
        assert_eq!(app.select_card(Select::Prev), total - 1);
    }
}

#[test]
fn forward_and_backward_step_by_one() {
    let mut app = browsing(5, 2);
    assert_eq!(show_next(&mut app, Select::Next, Some(card(1, "a", "b"))), 3);
    assert_eq!(app.current_flashcard_number, 3);
    assert_eq!(show_next(&mut app, Select::Prev, Some(card(2, "a", "b"))), 2);
    assert_eq!(show_next(&mut app, Select::Prev, Some(card(3, "a", "b"))), 1);
    assert_eq!(app.current_flashcard_number, 1);
}

#[test]
fn random_never_repeats_the_current_card() {
    for _ in 0..200 {
        let app = browsing(3, 1);
        let next = app.select_card(Select::Random);
        assert!(next < 3);
        assert_ne!(next, 1);
    }
}

#[test]
fn random_with_one_card_stays() {
    let app = browsing(1, 0);
    assert_eq!(app.select_card(Select::Random), 0);
    let empty = browsing(0, 0);
    assert_eq!(empty.select_card(Select::Random), 0);
}

#[test]
fn pick_other_index_skips_current() {
    assert_eq!(pick_other_index(2, 4, 0), 0);
    assert_eq!(pick_other_index(2, 4, 1), 1);
    assert_eq!(pick_other_index(2, 4, 2), 3);
    assert_eq!(pick_other_index(0, 2, 0), 1);
}

#[test]
fn transition_to_same_mode_keeps_prior() {
    let mut app = App::default();
    app.show_add_flashcard();
    assert_eq!(app.state, State::AddFlashcard);
    assert_eq!(app.prior_state, State::Idling);
    app.show_add_flashcard();
    assert_eq!(app.state, State::AddFlashcard);
    assert_eq!(app.prior_state, State::Idling);
    app.flip_flashcard();
    assert_eq!(app.state, State::ShowFlashcard);
    assert_eq!(app.prior_state, State::AddFlashcard);
}

#[test]
fn restore_twice_returns_to_start() {
    let mut app = App::default();
    app.show_add_flashcard();
    app.restore_prior_state();
    assert_eq!(app.state, State::Idling);
    assert_eq!(app.prior_state, State::AddFlashcard);
    app.restore_prior_state();
    assert_eq!(app.state, State::AddFlashcard);
    assert_eq!(app.prior_state, State::Idling);
}

#[test]
fn deleting_only_card_leaves_placeholder() {
    let mut app = App::default();
    app.total_cards = 1;
    show_next(&mut app, Select::Next, Some(card(9, "t", "b")));
    app.start_delete();
    assert_eq!(app.state, State::DisplayDeletePopup);
    assert_eq!(app.card_to_delete(), Some(9));
    let offset = app.card_deleted(Ok(())).unwrap();
    assert_eq!(app.total_cards, 0);
    assert_eq!(offset, 0);
    app.show_card(offset, Ok(None)).unwrap();
    assert_eq!(app.current_flash_text, "No flashcards");
    assert_eq!(app.state, State::ShowFlashcard);
    for select in [Select::Next, Select::Prev, Select::Random] {
        assert_eq!(show_next(&mut app, select, None), 0);
        assert_eq!(app.current_flash_text, "No flashcards");
    }
    app.start_delete();
    assert_eq!(app.state, State::ShowFlashcard);
    assert_eq!(app.card_to_delete(), None);
}

#[test]
fn failed_delete_changes_nothing() {
    let mut app = browsing(3, 1);
    app.current_flashcard_id = Some(4);
    app.start_delete();
    assert_eq!(app.card_deleted(Err(CardError::Store)), Err(CardError::Store));
    assert_eq!(app.total_cards, 3);
    assert_eq!(app.current_flashcard_number, 1);
    assert_eq!(app.state, State::DisplayDeletePopup);
    app.restore_prior_state();
    assert_eq!(app.state, State::Idling);
}

#[test]
fn delete_moves_back_one() {
    let mut app = browsing(3, 2);
    assert_eq!(app.card_deleted(Ok(())), Ok(1));
    assert_eq!(app.total_cards, 2);
    assert_eq!(app.current_flashcard_number, 2);
}

#[test]
fn fresh_selection_then_step() {
    let mut app = App::default();
    app.total_cards = 3;
    assert_eq!(app.select_card(Select::Next), 0);
    app.show_card(0, Ok(Some(card(1, "Title", "Body")))).unwrap();
    assert_eq!(app.current_flashcard_number, 0);
    assert_eq!(app.state, State::ShowFlashcard);
    assert_eq!(app.cards_displayed, 1);
    assert_eq!(app.current_flash_text, "Title\nBody");
    assert_eq!(app.current_flashcard_id, Some(1));
    assert_eq!(show_next(&mut app, Select::Next, Some(card(2, "Second", ""))), 1);
    assert_eq!(app.current_flashcard_number, 1);
}

#[test]
fn idle_restarts_at_current_card() {
    let mut app = browsing(4, 2);
    app.idle();
    assert!(!app.first_shown);
    assert_eq!(show_next(&mut app, Select::Next, Some(card(3, "c", "d"))), 2);
    assert!(app.first_shown);
    assert_eq!(app.select_card(Select::Next), 3);
}

#[test]
fn missing_card_resets_position() {
    let mut app = browsing(4, 3);
    app.vertical_scroll = 7;
    app.show_card(3, Ok(None)).unwrap();
    assert_eq!(app.current_flashcard_number, 0);
    assert_eq!(app.vertical_scroll, 0);
    assert_eq!(app.current_flash_text, "No flashcards");
}

#[test]
fn empty_buffer_saves_nothing() {
    let app = App::default();
    assert!(app.card_to_save().is_none());
    assert_eq!(app.total_cards, 0);
}

#[test]
fn buffer_splits_into_title_and_body() {
    let mut app = App::default();
    app.input_area = vec!["Title".to_string(), "line one".to_string(), "line two".to_string()];
    assert_eq!(
        app.card_to_save(),
        Some(("Title".to_string(), "line one\nline two".to_string()))
    );
    app.input_area = vec!["Alone".to_string()];
    assert_eq!(app.card_to_save(), Some(("Alone".to_string(), String::new())));
}

#[test]
fn saved_card_counts_and_shows_notice() {
    let mut app = App::default();
    app.show_add_flashcard();
    assert_eq!(app.card_saved(Ok(()), 42), Ok(()));
    assert_eq!(app.total_cards, 1);
    assert_eq!(app.state, State::DisplaySavedPopup);
    assert_eq!(app.prior_state, State::AddFlashcard);
    assert_eq!(app.popup_time, Some(42));
}

#[test]
fn failed_save_changes_nothing() {
    let mut app = App::default();
    app.show_add_flashcard();
    assert_eq!(app.card_saved(Err(CardError::Consistency), 42), Err(CardError::Consistency));
    assert_eq!(app.total_cards, 0);
    assert_eq!(app.state, State::AddFlashcard);
    assert_eq!(app.popup_time, None);
}

#[test]
fn discard_clears_buffer_and_idles() {
    let mut app = App::default();
    app.show_add_flashcard();
    app.input_area = vec!["x".to_string()];
    app.discard_input();
    assert!(app.input_area.is_empty());
    assert_eq!(app.state, State::Idling);
}

#[test]
fn popup_closes_after_threshold() {
    let mut app = App::default();
    app.show_add_flashcard();
    app.display_saved_popup(0);
    app.close_popup_if_it_is_time(100, 500);
    assert_eq!(app.state, State::DisplaySavedPopup);
    assert_eq!(app.popup_time, Some(0));
    app.close_popup_if_it_is_time(500, 500);
    assert_eq!(app.state, State::DisplaySavedPopup);
    app.close_popup_if_it_is_time(600, 500);
    assert_eq!(app.state, State::AddFlashcard);
    assert_eq!(app.prior_state, State::DisplaySavedPopup);
    assert_eq!(app.popup_time, None);
    app.close_popup_if_it_is_time(2000, 500);
    assert_eq!(app.state, State::AddFlashcard);
}

#[test]
fn scrolling_stops_at_top() {
    let mut app = App::default();
    app.scroll_up();
    assert_eq!(app.vertical_scroll, 0);
    app.scroll_down();
    app.scroll_down();
    app.scroll_up();
    assert_eq!(app.vertical_scroll, 1);
    app.reset_scrollbar_state();
    assert_eq!(app.vertical_scroll, 0);
}

#[test]
fn stop_running_ends_session() {
    let mut app = App::default();
    app.stop_running();
    assert!(!app.running);
}

#[test]
fn timer_fires_after_cycle() {
    let mut timer = maybe_construct_timer(Some(2), None, 1000).unwrap();
    assert_eq!(timer.draw_mode, Select::Random);
    assert_eq!(timer.poll(3000), None);
    assert_eq!(timer.poll(3999), None);
    assert_eq!(timer.poll(4000), Some(Select::Random));
    assert_eq!(timer.start, 4000);
    assert_eq!(timer.poll(4500), None);
}

#[test]
fn timer_needs_a_cycle() {
    assert!(maybe_construct_timer(None, Some(Select::Next), 0).is_none());
    let timer: Timer = maybe_construct_timer(Some(5), Some(Select::Prev), 7).unwrap();
    assert_eq!(timer.next_card_cycle, 5);
    assert_eq!(timer.draw_mode, Select::Prev);
    assert_eq!(timer.start, 7);
}

#[test]
fn failed_fetch_changes_nothing() {
    let mut app = App::default();
    app.total_cards = 3;
    let index = app.select_card(Select::Next);
    assert_eq!(index, 0);
    assert!(!app.first_shown);
    assert_eq!(app.show_card(index, Err(CardError::Consistency)), Err(CardError::Consistency));
    assert!(!app.first_shown);
    assert_eq!(app.cards_displayed, 0);
    assert_eq!(app.state, State::Idling);
    assert_eq!(app.current_flash_text, "");
    let mut shown = browsing(3, 1);
    let index = shown.select_card(Select::Next);
    assert_eq!(shown.show_card(index, Err(CardError::Store)), Err(CardError::Store));
    assert_eq!(shown.current_flashcard_number, 1);
}

#[test]
fn backward_with_no_cards_shows_placeholder() {
    for select in [Select::Next, Select::Prev, Select::Random] {
        let mut app = browsing(0, 0);
        assert_eq!(show_next(&mut app, select, None), 0);
        assert_eq!(app.current_flash_text, "No flashcards");
        assert_eq!(app.current_flashcard_number, 0);
        assert_eq!(app.state, State::ShowFlashcard);
    }
}
