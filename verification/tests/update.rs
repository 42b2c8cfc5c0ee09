use aleph_tui::app::{App, Config, Profile, ProfileSwitcher};
use aleph_tui::models::{Metadata, Status, StatusResult};
use aleph_tui::throttle::Timestamp;
use aleph_tui::update::{action, update, Action, KeyCode, KeyEvent, CONTROL};

fn update_key(code: KeyCode) -> KeyEvent {
    KeyEvent { code, modifiers: 0 }
}

fn update_result(name: &str) -> StatusResult {
    StatusResult {
        todo: 0,
        doing: 0,
        succeeded: 0,
        failed: 0,
        aborted: 0,
        aborting: 0,
        cancelled: 0,
        min_ts: None,
        max_ts: None,
        name: name.to_string(),
        batches: vec![],
        collection: None,
        remaining_time: None,
        took: None,
        total: 0,
        active: 0,
        finished: 0,
    }
}

fn update_app() -> App {
    let profiles = vec![
        Profile { name: "one".to_string(), index: 0, url: String::new(), api_key: String::new() },
        Profile { name: "two".to_string(), index: 1, url: String::new(), api_key: String::new() },
    ];
    let mut app = App::new(Config { profiles, fetch_interval: 10 }, 0, "1".to_string()).unwrap();
    let status = Status {
        results: vec![update_result("a"), update_result("b"), update_result("c")],
        total: 3,
    };
    app.finish_fetch(Ok(status), Ok(Metadata::default()), Timestamp::from_millis(0).unwrap());
    app
}

#[test]
fn keys_ask_for_their_actions() {
    assert_eq!(action(&update_key(KeyCode::Esc)), Action::Quit);
    assert_eq!(action(&update_key(KeyCode::Char('q'))), Action::Quit);
    assert_eq!(action(&update_key(KeyCode::Char('p'))), Action::ToggleProfileSelector);
    assert_eq!(action(&update_key(KeyCode::Up)), Action::MoveUp);
    assert_eq!(action(&update_key(KeyCode::Char('k'))), Action::MoveUp);
    assert_eq!(action(&update_key(KeyCode::Down)), Action::MoveDown);
    assert_eq!(action(&update_key(KeyCode::Char('j'))), Action::MoveDown);
    assert_eq!(action(&update_key(KeyCode::Enter)), Action::Confirm);
    assert_eq!(action(&update_key(KeyCode::Other)), Action::Nothing);
    assert_eq!(action(&update_key(KeyCode::Char('x'))), Action::Nothing);
    assert_eq!(action(&update_key(KeyCode::Char('Q'))), Action::Nothing);
}

#[test]
fn control_c_quits_only_with_control_alone() {
    assert_eq!(CONTROL, 2);
    assert_eq!(action(&KeyEvent { code: KeyCode::Char('c'), modifiers: CONTROL }), Action::Quit);
    assert_eq!(action(&KeyEvent { code: KeyCode::Char('C'), modifiers: CONTROL }), Action::Quit);
    assert_eq!(action(&KeyEvent { code: KeyCode::Char('c'), modifiers: 0 }), Action::Nothing);
    assert_eq!(action(&KeyEvent { code: KeyCode::Char('c'), modifiers: 3 }), Action::Nothing);
    assert_eq!(action(&KeyEvent { code: KeyCode::Char('c'), modifiers: 6 }), Action::Nothing);
    assert_eq!(action(&KeyEvent { code: KeyCode::Char('q'), modifiers: 1 }), Action::Quit);
}

#[test]
fn quit_keys_end_the_loop() {
    let mut app = update_app();
    update(&mut app, update_key(KeyCode::Char('x')));
    assert!(!app.should_quit);
    update(&mut app, update_key(KeyCode::Esc));
    assert!(app.should_quit);
}

#[test]
fn arrows_move_the_table_cursor_while_the_switcher_is_hidden() {
    let mut app = update_app();
    assert_eq!(app.selection.selected(), Some(0));
    update(&mut app, update_key(KeyCode::Down));
    update(&mut app, update_key(KeyCode::Char('j')));
    assert_eq!(app.selection.selected(), Some(2));
    update(&mut app, update_key(KeyCode::Down));
    assert_eq!(app.selection.selected(), Some(2));
    update(&mut app, update_key(KeyCode::Char('k')));
    update(&mut app, update_key(KeyCode::Up));
    update(&mut app, update_key(KeyCode::Up));
    assert_eq!(app.selection.selected(), Some(0));
    assert!(matches!(app.switcher, ProfileSwitcher::Hidden));
}

#[test]
fn arrows_move_the_switcher_cursor_while_it_is_shown() {
    let mut app = update_app();
    update(&mut app, update_key(KeyCode::Down));
    update(&mut app, update_key(KeyCode::Char('p')));
    assert!(matches!(app.switcher, ProfileSwitcher::Visible { cursor: 0 }));
    update(&mut app, update_key(KeyCode::Down));
    assert!(matches!(app.switcher, ProfileSwitcher::Visible { cursor: 1 }));
    update(&mut app, update_key(KeyCode::Down));
    assert!(matches!(app.switcher, ProfileSwitcher::Visible { cursor: 1 }));
    update(&mut app, update_key(KeyCode::Up));
    assert!(matches!(app.switcher, ProfileSwitcher::Visible { cursor: 0 }));
    assert_eq!(app.selection.selected(), Some(1));
}

#[test]
fn enter_picks_a_profile_only_while_the_switcher_is_shown() {
    let mut app = update_app();
    update(&mut app, update_key(KeyCode::Enter));
    assert_eq!(app.current_profile, 0);
    assert_eq!(app.row_count(), 3);

    update(&mut app, update_key(KeyCode::Char('p')));
    update(&mut app, update_key(KeyCode::Down));
    update(&mut app, update_key(KeyCode::Enter));
    assert_eq!(app.current_profile, 1);
    assert!(matches!(app.switcher, ProfileSwitcher::Hidden));
    assert_eq!(app.row_count(), 0);
    assert_eq!(app.selection.selected(), None);
    assert!(app.last_fetch.is_none());
    assert!(app.is_valid());
}

#[test]
fn p_hides_the_switcher_without_picking() {
    let mut app = update_app();
    update(&mut app, update_key(KeyCode::Char('p')));
    update(&mut app, update_key(KeyCode::Down));
    update(&mut app, update_key(KeyCode::Char('p')));
    assert!(matches!(app.switcher, ProfileSwitcher::Hidden));
    assert_eq!(app.current_profile, 0);
    assert_eq!(app.row_count(), 3);
    assert!(app.last_fetch.is_some());
}
