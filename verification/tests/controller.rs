use notes_tui::controller::{
    Action, App, ExitAction, FocusedInput, FormAction, Key, KeyInput, ListAction, Screen,
};
use notes_tui::db::Database;

fn fresh_app() -> App {
    let db = match Database::new(":memory:") {
        Ok(d) => d,
        Err(_) => panic!("cannot open in-memory store"),
    };
    match App::new(db) {
        Ok(a) => a,
        Err(_) => panic!("startup failed"),
    }
}

fn do_action(app: &mut App, action: Action) {
    match app.handle_action(action) {
        Ok(next) => assert!(next.is_none()),
        Err(_) => panic!("action failed"),
    }
}

fn press(app: &mut App, code: Key, ctrl: bool) {
    let classified = app.handle_key(KeyInput { code, ctrl });
    if let Some(a) = classified {
        do_action(app, a);
    }
}

fn type_text(app: &mut App, s: &str) {
    for c in s.chars() {
        do_action(
            app,
            Action::Form(FormAction::UpdateInput(KeyInput { code: Key::Char(c), ctrl: false })),
        );
    }
}

fn add_notes_then_list(app: &mut App, n: usize) {
    for _ in 0..n {
        do_action(app, Action::List(ListAction::AddNote));
        do_action(app, Action::Form(FormAction::Exit));
    }
}

#[test]
fn empty_store_startup_then_add() {
    let mut app = fresh_app();
    assert!(matches!(app.current_screen, Screen::List));
    assert!(app.notes.selected.is_none());
    assert_eq!(app.notes.items.len(), 0);
    press(&mut app, Key::Char('a'), false);
    assert!(matches!(app.current_screen, Screen::Form));
    assert_eq!(app.notes.items.len(), 1);
    assert_eq!(app.notes.items[0].id, 1);
    assert_eq!(app.notes.items[0].title, "New note");
    assert_eq!(app.notes.items[0].content, "");
    assert_eq!(app.notes.selected, Some(0));
    assert_eq!(app.title_input.value(), "");
    assert_eq!(app.content_input.value(), "");
}

#[test]
fn move_down_wraps_to_first() {
    let mut app = fresh_app();
    add_notes_then_list(&mut app, 3);
    assert_eq!(app.notes.selected, Some(2));
    press(&mut app, Key::Char('j'), false);
    assert_eq!(app.notes.selected, Some(0));
    press(&mut app, Key::Down, false);
    assert_eq!(app.notes.selected, Some(1));
}

#[test]
fn move_up_wraps_to_last() {
    let mut app = fresh_app();
    add_notes_then_list(&mut app, 3);
    press(&mut app, Key::Char('j'), false);
    assert_eq!(app.notes.selected, Some(0));
    press(&mut app, Key::Char('k'), false);
    assert_eq!(app.notes.selected, Some(2));
    press(&mut app, Key::Up, false);
    assert_eq!(app.notes.selected, Some(1));
}

#[test]
fn delete_first_keeps_cursor_at_zero() {
    let mut app = fresh_app();
    add_notes_then_list(&mut app, 3);
    press(&mut app, Key::Char('j'), false);
    assert_eq!(app.notes.selected, Some(0));
    press(&mut app, Key::Char('d'), false);
    assert_eq!(app.notes.items.len(), 2);
    assert_eq!(app.notes.selected, Some(0));
    assert_eq!(app.notes.items[0].id, 2);
}

#[test]
fn delete_last_steps_cursor_back() {
    let mut app = fresh_app();
    add_notes_then_list(&mut app, 3);
    assert_eq!(app.notes.selected, Some(2));
    press(&mut app, Key::Char('d'), false);
    assert_eq!(app.notes.items.len(), 2);
    assert_eq!(app.notes.selected, Some(1));
}

#[test]
fn add_selects_new_last_with_empty_buffers() {
    let mut app = fresh_app();
    add_notes_then_list(&mut app, 2);
    press(&mut app, Key::Char('i'), false);
    assert_eq!(app.notes.items.len(), 3);
    assert_eq!(app.notes.selected, Some(2));
    assert_eq!(app.title_input.value(), "");
    assert_eq!(app.content_input.value(), "");
    assert!(matches!(app.current_screen, Screen::Form));
}

#[test]
fn edit_round_trip_on_fifth_note() {
    let mut app = fresh_app();
    add_notes_then_list(&mut app, 5);
    assert_eq!(app.notes.selected, Some(4));
    assert_eq!(app.notes.items[4].id, 5);
    // give note 5 the title "A" and content "B"
    press(&mut app, Key::Enter, false);
    for _ in 0.."New note".len() {
        press(&mut app, Key::Backspace, false);
    }
    type_text(&mut app, "A");
    press(&mut app, Key::Tab, false);
    type_text(&mut app, "B");
    press(&mut app, Key::Char('s'), true);
    press(&mut app, Key::Esc, false);
    assert_eq!(app.notes.items[4].title, "A");
    assert_eq!(app.notes.items[4].content, "B");
    // edit them to "A2" and "B2" and save
    press(&mut app, Key::Char('e'), false);
    assert_eq!(app.title_input.value(), "A");
    assert_eq!(app.content_input.value(), "B");
    press(&mut app, Key::Tab, false);
    type_text(&mut app, "2");
    press(&mut app, Key::Tab, false);
    type_text(&mut app, "2");
    press(&mut app, Key::Char('s'), true);
    assert_eq!(app.notes.items[4].id, 5);
    assert_eq!(app.notes.items[4].title, "A2");
    assert_eq!(app.notes.items[4].content, "B2");
    let stored = match app.db.get_all_notes() {
        Ok(v) => v,
        Err(_) => panic!("store read failed"),
    };
    assert_eq!(stored.len(), 5);
    assert_eq!(stored[4].id, 5);
    assert_eq!(stored[4].title, "A2");
    assert_eq!(stored[4].content, "B2");
}

#[test]
fn escape_discards_edits() {
    let mut app = fresh_app();
    add_notes_then_list(&mut app, 1);
    press(&mut app, Key::Enter, false);
    type_text(&mut app, "zzz");
    press(&mut app, Key::Esc, false);
    assert!(matches!(app.current_screen, Screen::List));
    assert_eq!(app.notes.items[0].title, "New note");
    assert_eq!(app.notes.items[0].content, "");
    let stored = match app.db.get_all_notes() {
        Ok(v) => v,
        Err(_) => panic!("store read failed"),
    };
    assert_eq!(stored.len(), 1);
    assert_eq!(stored[0].title, "New note");
    assert_eq!(stored[0].content, "");
}

#[test]
fn delete_to_empty_then_moves_are_noops() {
    let mut app = fresh_app();
    add_notes_then_list(&mut app, 1);
    press(&mut app, Key::Char('d'), false);
    assert_eq!(app.notes.items.len(), 0);
    assert!(app.notes.selected.is_none());
    press(&mut app, Key::Char('j'), false);
    press(&mut app, Key::Char('k'), false);
    assert!(app.notes.selected.is_none());
    assert!(matches!(app.current_screen, Screen::List));
}

#[test]
fn quit_confirm_and_cancel() {
    let mut app = fresh_app();
    add_notes_then_list(&mut app, 1);
    press(&mut app, Key::Char('q'), false);
    assert!(matches!(app.current_screen, Screen::ExitConfirm));
    assert!(!app.should_quit);
    press(&mut app, Key::Esc, false);
    assert!(matches!(app.current_screen, Screen::List));
    assert!(!app.should_quit);
    assert_eq!(app.notes.items.len(), 1);
    assert_eq!(app.notes.selected, Some(0));
    press(&mut app, Key::Char('q'), false);
    press(&mut app, Key::Char('q'), false);
    assert!(app.should_quit);
}

#[test]
fn tab_toggles_focus() {
    let mut app = fresh_app();
    do_action(&mut app, Action::List(ListAction::AddNote));
    assert!(matches!(app.focused_input, FocusedInput::Title));
    press(&mut app, Key::Tab, false);
    assert!(matches!(app.focused_input, FocusedInput::Content));
    press(&mut app, Key::Tab, false);
    assert!(matches!(app.focused_input, FocusedInput::Title));
}

#[test]
fn classify_list_keys() {
    let app = fresh_app();
    let k = |code, ctrl| KeyInput { code, ctrl };
    assert!(matches!(
        app.handle_key(k(Key::Char('q'), false)),
        Some(Action::List(ListAction::Quit))
    ));
    assert!(matches!(
        app.handle_key(k(Key::Esc, false)),
        Some(Action::List(ListAction::Quit))
    ));
    assert!(matches!(
        app.handle_key(k(Key::Char('j'), false)),
        Some(Action::List(ListAction::MoveDown))
    ));
    assert!(matches!(
        app.handle_key(k(Key::Up, false)),
        Some(Action::List(ListAction::MoveUp))
    ));
    assert!(matches!(
        app.handle_key(k(Key::Enter, false)),
        Some(Action::List(ListAction::SelectNote))
    ));
    assert!(matches!(
        app.handle_key(k(Key::Char('e'), false)),
        Some(Action::List(ListAction::SelectNote))
    ));
    assert!(matches!(
        app.handle_key(k(Key::Char('a'), false)),
        Some(Action::List(ListAction::AddNote))
    ));
    assert!(matches!(
        app.handle_key(k(Key::Char('d'), false)),
        Some(Action::List(ListAction::DeleteNote))
    ));
    assert!(app.handle_key(k(Key::Char('x'), false)).is_none());
    assert!(app.handle_key(k(Key::Tab, false)).is_none());
}

#[test]
fn classify_form_keys() {
    let mut app = fresh_app();
    do_action(&mut app, Action::List(ListAction::AddNote));
    let k = |code, ctrl| KeyInput { code, ctrl };
    assert!(matches!(
        app.handle_key(k(Key::Char('s'), true)),
        Some(Action::Form(FormAction::Save))
    ));
    assert!(matches!(
        app.handle_key(k(Key::Char('s'), false)),
        Some(Action::Form(FormAction::UpdateInput(_)))
    ));
    assert!(matches!(
        app.handle_key(k(Key::Tab, false)),
        Some(Action::Form(FormAction::ToggleInput))
    ));
    assert!(matches!(
        app.handle_key(k(Key::Esc, false)),
        Some(Action::Form(FormAction::Exit))
    ));
    assert!(matches!(
        app.handle_key(k(Key::Backspace, false)),
        Some(Action::Form(FormAction::UpdateInput(_)))
    ));
}

#[test]
fn classify_exit_keys() {
    let mut app = fresh_app();
    press(&mut app, Key::Char('q'), false);
    let k = |code, ctrl| KeyInput { code, ctrl };
    assert!(matches!(
        app.handle_key(k(Key::Esc, false)),
        Some(Action::Exit(ExitAction::Cancel))
    ));
    assert!(matches!(
        app.handle_key(k(Key::Char('q'), false)),
        Some(Action::Exit(ExitAction::Confirm))
    ));
    assert!(app.handle_key(k(Key::Char('y'), false)).is_none());
    assert!(app.handle_key(k(Key::Enter, false)).is_none());
}

#[test]
fn cache_matches_store_after_actions() {
    let mut app = fresh_app();
    add_notes_then_list(&mut app, 4);
    press(&mut app, Key::Enter, false);
    type_text(&mut app, "!");
    press(&mut app, Key::Char('s'), true);
    press(&mut app, Key::Esc, false);
    press(&mut app, Key::Char('j'), false);
    press(&mut app, Key::Char('d'), false);
    press(&mut app, Key::Char('a'), false);
    press(&mut app, Key::Esc, false);
    let stored = match app.db.get_all_notes() {
        Ok(v) => v,
        Err(_) => panic!("store read failed"),
    };
    assert_eq!(stored.len(), app.notes.items.len());
    for (cached, row) in app.notes.items.iter().zip(stored.iter()) {
        assert_eq!(cached.id, row.id);
        assert_eq!(cached.title, row.title);
        assert_eq!(cached.content, row.content);
    }
}

#[test]
fn select_on_empty_collection_is_noop() {
    let mut app = fresh_app();
    press(&mut app, Key::Enter, false);
    assert!(matches!(app.current_screen, Screen::List));
    assert!(app.notes.selected.is_none());
}
