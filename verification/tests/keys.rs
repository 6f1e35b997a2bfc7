use crossterm::event::{KeyCode, KeyEvent, KeyEventKind, KeyModifiers};
use quicktick_tty::api::board::Board;
use quicktick_tty::api::request::{Body, Method};
use quicktick_tty::api::task::Task;
use quicktick_tty::api::user::User;
use quicktick_tty::app::App;
use quicktick_tty::handler::{handle_key, handle_key_events, CursorChange, Effect, Job};
use quicktick_tty::helper::input::FormKind;
use quicktick_tty::helper::stateful_list::StatefulList;
use quicktick_tty::helper::terminal::Key;

fn key(c: char) -> KeyEvent {
    KeyEvent::new(KeyCode::Char(c), KeyModifiers::NONE)
}

fn code(code: KeyCode) -> KeyEvent {
    KeyEvent::new(code, KeyModifiers::NONE)
}

fn is_quiet(effect: &Effect) -> bool {
    effect.cursor == CursorChange::Keep && matches!(effect.job, Job::Idle)
}

fn type_in(app: &mut App, text: &str) {
    for c in text.chars() {
        assert!(is_quiet(&handle_key_events(key(c), app)));
    }
}

fn field_texts(app: &App) -> Vec<String> {
    let form = app.input_content.variant();
    (0..form.fields()).map(|i| form.input_at(i).to_string()).collect()
}

fn signed_in() -> App {
    let mut app = App::new();
    app.user = Some(User {
        uuid: "u-1".to_string(),
        name: "Ada".to_string(),
        email: String::new(),
        password: String::new(),
        salt: String::new(),
    });
    app.boards = StatefulList::with_items(vec![
        Board {
            uuid: "b-archive".to_string(),
            name: "Archive".to_string(),
            user_uuid: "u-1".to_string(),
            special: Some(2),
        },
        Board {
            uuid: "b-inbox".to_string(),
            name: "Inbox".to_string(),
            user_uuid: "u-1".to_string(),
            special: None,
        },
    ]);
    app.boards.next();
    app.boards.next();
    let t = Task {
        uuid: "T".to_string(),
        name: "task".to_string(),
        description: String::new(),
        completed: false,
        user_uuid: "u-1".to_string(),
        board_uuid: "b-inbox".to_string(),
    };
    app.task_data = vec![t.clone()];
    app.tasks = StatefulList::with_items(vec![t]);
    app.tasks.next();
    app
}

#[test]
fn q_quits() {
    let mut app = App::new();
    assert!(is_quiet(&handle_key_events(key('q'), &mut app)));
    assert!(!app.running);
}

#[test]
fn control_c_quits_and_plain_c_does_not() {
    let mut app = App::new();
    assert!(is_quiet(&handle_key_events(key('c'), &mut app)));
    assert!(app.running);
    handle_key_events(KeyEvent::new(KeyCode::Char('c'), KeyModifiers::SHIFT), &mut app);
    assert!(app.running);
    handle_key_events(
        KeyEvent::new(KeyCode::Char('c'), KeyModifiers::CONTROL | KeyModifiers::ALT),
        &mut app,
    );
    assert!(app.running);
    handle_key_events(KeyEvent::new(KeyCode::Char('c'), KeyModifiers::CONTROL), &mut app);
    assert!(!app.running);
}

#[test]
fn a_shows_the_form_to_sign_in() {
    let mut app = App::new();
    assert!(is_quiet(&handle_key_events(key('a'), &mut app)));
    assert!(app.input_content.visible());
    assert_eq!(app.input_content.variant().form_kind(), FormKind::LogIn);
    assert_eq!(app.input_content.selected_input(), 0);
}

#[test]
fn capital_a_shows_the_form_for_a_new_account() {
    let mut app = App::new();
    handle_key_events(KeyEvent::new(KeyCode::Char('A'), KeyModifiers::SHIFT), &mut app);
    assert!(app.input_content.visible());
    assert_eq!(app.input_content.variant().form_kind(), FormKind::SignUp);
}

#[test]
fn l_and_h_switch_the_list() {
    let mut app = App::new();
    assert!(is_quiet(&handle_key_events(key('l'), &mut app)));
    assert!(app.selected_widget);
    assert!(is_quiet(&handle_key_events(key('h'), &mut app)));
    assert!(!app.selected_widget);
}

#[test]
fn j_and_k_move_the_cursor_of_the_focused_list() {
    let mut app = signed_in();
    assert!(is_quiet(&handle_key_events(key('j'), &mut app)));
    assert_eq!(app.tasks.selected_index(), Some(0));
    assert_eq!(app.boards.selected_index(), Some(1));
    handle_key_events(key('l'), &mut app);
    assert!(is_quiet(&handle_key_events(key('j'), &mut app)));
    assert_eq!(app.boards.selected_index(), Some(0));
    assert!(is_quiet(&handle_key_events(key('k'), &mut app)));
    assert_eq!(app.boards.selected_index(), Some(1));
    handle_key_events(key('k'), &mut app);
    assert_eq!(app.boards.selected_index(), Some(0));
    assert_eq!(app.tasks.selected_index(), Some(0));
}

#[test]
fn space_toggles_the_selected_task() {
    let mut app = signed_in();
    let effect = handle_key_events(key(' '), &mut app);
    assert_eq!(effect.cursor, CursorChange::Keep);
    match effect.job {
        Job::Send(request) => {
            assert_eq!(request.method, Method::Patch);
            match request.body {
                Body::Text(text) => {
                    assert_eq!(text, "{\"task_uuid\": \"T\", \"action\": \"ToggleTask\"}")
                }
                other => panic!("unexpected body: {:?}", other),
            }
        }
        other => panic!("unexpected job: {:?}", other),
    }
    assert!(app.task_data[0].completed);
}

#[test]
fn space_on_the_boards_does_nothing() {
    let mut app = signed_in();
    app.selected_widget = true;
    assert!(is_quiet(&handle_key_events(key(' '), &mut app)));
    assert!(!app.task_data[0].completed);
}

#[test]
fn space_without_a_task_asks_nothing() {
    let mut app = App::new();
    assert!(is_quiet(&handle_key_events(key(' '), &mut app)));
}

#[test]
fn r_asks_for_a_refresh() {
    let mut app = signed_in();
    let effect = handle_key_events(key('r'), &mut app);
    assert_eq!(effect.cursor, CursorChange::Keep);
    assert!(matches!(effect.job, Job::Refetch));
    assert_eq!(app.task_data.len(), 1);
}

#[test]
fn i_shows_the_form_of_the_focused_list() {
    let mut app = App::new();
    let effect = handle_key_events(key('i'), &mut app);
    assert_eq!(effect.cursor, CursorChange::Show);
    assert!(matches!(effect.job, Job::Idle));
    assert!(app.input_content.visible());
    assert_eq!(app.input_content.variant().form_kind(), FormKind::CreateTask);

    let mut app = App::new();
    app.selected_widget = true;
    let effect = handle_key_events(key('i'), &mut app);
    assert_eq!(effect.cursor, CursorChange::Show);
    assert!(app.input_content.visible());
    assert_eq!(app.input_content.variant().form_kind(), FormKind::CreateBoard);
}

#[test]
fn d_on_the_inbox_moves_the_task_to_the_archive() {
    let mut app = signed_in();
    let effect = handle_key_events(key('d'), &mut app);
    assert_eq!(effect.cursor, CursorChange::Keep);
    match effect.job {
        Job::Send(request) => match request.body {
            Body::Text(text) => assert_eq!(
                text,
                "{\"task_uuid\": \"T\", \"action\": \"MoveBoard\", \"board_uuid\": \"b-archive\"}"
            ),
            other => panic!("unexpected body: {:?}", other),
        },
        other => panic!("unexpected job: {:?}", other),
    }
    assert_eq!(app.task_data.len(), 1);
    assert_eq!(app.task_data[0].board_uuid, "b-archive");
}

#[test]
fn d_on_the_boards_deletes_the_board() {
    let mut app = signed_in();
    app.selected_widget = true;
    let effect = handle_key_events(key('d'), &mut app);
    match effect.job {
        Job::Send(request) => {
            assert_eq!(request.method, Method::Delete);
            assert_eq!(request.url, "https://quicktick-api.fly.dev/delete/board/b-inbox");
        }
        other => panic!("unexpected job: {:?}", other),
    }
    assert_eq!(app.boards.len(), 1);
    assert_eq!(app.task_data.len(), 1);
}

#[test]
fn other_keys_do_nothing_while_the_form_is_hidden() {
    let mut app = signed_in();
    for event in [key('x'), key('Q'), code(KeyCode::Esc), code(KeyCode::Tab), code(KeyCode::Enter), code(KeyCode::Backspace), code(KeyCode::Left), code(KeyCode::F(1))] {
        assert!(is_quiet(&handle_key_events(event, &mut app)));
    }
    assert!(app.running);
    assert!(!app.selected_widget);
    assert!(!app.input_content.visible());
    assert_eq!(app.task_data.len(), 1);
    assert_eq!(app.boards.selected_index(), Some(1));
}

#[test]
fn typing_goes_to_the_form_and_not_to_the_commands() {
    let mut app = signed_in();
    handle_key_events(key('i'), &mut app);
    type_in(&mut app, "quit ijkl d");
    assert!(app.running);
    assert_eq!(field_texts(&app), vec!["quit ijkl d".to_string(), String::new()]);
    assert!(is_quiet(&handle_key_events(code(KeyCode::Backspace), &mut app)));
    assert_eq!(field_texts(&app), vec!["quit ijkl ".to_string(), String::new()]);
    assert_eq!(app.task_data.len(), 1);
}

#[test]
fn tab_selects_the_next_field() {
    let mut app = App::new();
    handle_key_events(key('a'), &mut app);
    assert!(is_quiet(&handle_key_events(code(KeyCode::Tab), &mut app)));
    assert_eq!(app.input_content.selected_input(), 1);
    type_in(&mut app, "pw");
    assert!(is_quiet(&handle_key_events(code(KeyCode::Tab), &mut app)));
    assert_eq!(app.input_content.selected_input(), 0);
    assert_eq!(field_texts(&app), vec![String::new(), "pw".to_string()]);
}

#[test]
fn escape_cancels_the_form() {
    let mut app = App::new();
    handle_key_events(key('a'), &mut app);
    type_in(&mut app, "me");
    handle_key_events(code(KeyCode::Tab), &mut app);
    let effect = handle_key_events(code(KeyCode::Esc), &mut app);
    assert_eq!(effect.cursor, CursorChange::Hide);
    assert!(matches!(effect.job, Job::Idle));
    assert!(!app.input_content.visible());
    assert_eq!(app.input_content.selected_input(), 0);
    assert_eq!(field_texts(&app), vec!["me".to_string(), String::new()]);
    handle_key_events(key('a'), &mut app);
    assert!(app.input_content.visible());
    assert_eq!(field_texts(&app), vec!["me".to_string(), String::new()]);
}

#[test]
fn enter_in_the_form_to_sign_in_asks_for_a_sign_in() {
    let mut app = App::new();
    handle_key_events(key('a'), &mut app);
    type_in(&mut app, "ada@example.org");
    handle_key_events(code(KeyCode::Tab), &mut app);
    type_in(&mut app, "secret");
    let effect = handle_key_events(code(KeyCode::Enter), &mut app);
    assert_eq!(effect.cursor, CursorChange::Hide);
    match effect.job {
        Job::SignIn(credentials) => {
            assert_eq!(credentials.email, "ada@example.org");
            assert_eq!(credentials.password, "secret");
        }
        other => panic!("unexpected job: {:?}", other),
    }
    assert!(!app.input_content.visible());
    assert_eq!(app.input_content.selected_input(), 0);
    assert!(app.user.is_none());
}

#[test]
fn enter_in_the_form_for_a_new_account_asks_for_it() {
    let mut app = App::new();
    handle_key_events(KeyEvent::new(KeyCode::Char('A'), KeyModifiers::SHIFT), &mut app);
    type_in(&mut app, "e");
    handle_key_events(code(KeyCode::Tab), &mut app);
    type_in(&mut app, "p");
    handle_key_events(code(KeyCode::Tab), &mut app);
    type_in(&mut app, "n");
    let effect = handle_key_events(code(KeyCode::Enter), &mut app);
    assert_eq!(effect.cursor, CursorChange::Hide);
    match effect.job {
        Job::SignUp(request) => match request.body {
            Body::Text(text) => {
                assert_eq!(text, "{\"email\":\"e\",\"password\":\"p\",\"name\":\"n\"}")
            }
            other => panic!("unexpected body: {:?}", other),
        },
        other => panic!("unexpected job: {:?}", other),
    }
    assert!(!app.input_content.visible());
    assert_eq!(app.credentials.as_ref().unwrap().email, "cookie");
}

#[test]
fn enter_in_the_form_for_a_new_task_creates_it() {
    let mut app = signed_in();
    handle_key_events(key('i'), &mut app);
    type_in(&mut app, "Buy milk");
    let effect = handle_key_events(code(KeyCode::Enter), &mut app);
    assert_eq!(effect.cursor, CursorChange::Hide);
    match effect.job {
        Job::Send(request) => {
            assert_eq!(request.method, Method::Post);
            assert!(matches!(request.body, Body::Task(_)));
        }
        other => panic!("unexpected job: {:?}", other),
    }
    assert_eq!(app.task_data.len(), 2);
    assert_eq!(app.task_data[1].name, "Buy milk");
    assert_eq!(app.task_data[1].board_uuid, "b-inbox");
    assert!(!app.input_content.visible());
}

#[test]
fn enter_in_the_form_for_a_new_board_creates_it() {
    let mut app = signed_in();
    handle_key_events(key('l'), &mut app);
    handle_key_events(key('i'), &mut app);
    type_in(&mut app, "Work");
    let effect = handle_key_events(code(KeyCode::Enter), &mut app);
    assert_eq!(effect.cursor, CursorChange::Hide);
    assert!(matches!(effect.job, Job::Send(_)));
    assert_eq!(app.boards.len(), 3);
    assert_eq!(app.boards.items()[2].name, "Work");
    assert_eq!(app.task_data.len(), 1);
}

#[test]
fn enter_without_a_name_creates_nothing_and_hides_the_form() {
    let mut app = signed_in();
    handle_key_events(key('i'), &mut app);
    let effect = handle_key_events(code(KeyCode::Enter), &mut app);
    assert_eq!(effect.cursor, CursorChange::Hide);
    assert!(matches!(effect.job, Job::Idle));
    assert_eq!(app.task_data.len(), 1);
    assert!(!app.input_content.visible());
}

#[test]
fn enter_in_the_form_of_the_other_list_creates_nothing() {
    let mut app = signed_in();
    handle_key_events(key('i'), &mut app);
    type_in(&mut app, "Buy milk");
    app.selected_widget = true;
    let effect = handle_key_events(code(KeyCode::Enter), &mut app);
    assert!(matches!(effect.job, Job::Idle));
    assert_eq!(app.task_data.len(), 1);
    assert_eq!(app.boards.len(), 2);
    assert!(!app.input_content.visible());
}

#[test]
fn a_release_of_a_key_is_no_text() {
    let mut app = App::new();
    handle_key_events(key('a'), &mut app);
    handle_key_events(
        KeyEvent::new_with_kind(KeyCode::Char('x'), KeyModifiers::NONE, KeyEventKind::Release),
        &mut app,
    );
    assert_eq!(field_texts(&app), vec![String::new(), String::new()]);
}

#[test]
fn handle_key_takes_the_decoded_key() {
    let mut app = App::new();
    let raw = key('z');
    assert!(is_quiet(&handle_key(Key::Char('q'), false, raw, &mut app)));
    assert!(!app.running);
    let mut app = App::new();
    assert!(is_quiet(&handle_key(Key::Char('c'), true, raw, &mut app)));
    assert!(!app.running);
    let mut app = App::new();
    assert!(is_quiet(&handle_key(Key::Other, true, raw, &mut app)));
    assert!(is_quiet(&handle_key(Key::Esc, false, raw, &mut app)));
    assert!(app.running);
    handle_key(Key::Char('a'), false, raw, &mut app);
    assert!(app.input_content.visible());
    handle_key(Key::Other, false, raw, &mut app);
    assert_eq!(field_texts(&app), vec!["z".to_string(), String::new()]);
    let effect = handle_key(Key::Esc, false, raw, &mut app);
    assert_eq!(effect.cursor, CursorChange::Hide);
    assert!(!app.input_content.visible());
}
