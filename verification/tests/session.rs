use crossterm::event::{KeyCode, KeyEvent, KeyModifiers};
use quicktick_tty::api::board::{get_all_user_boards, Board};
use quicktick_tty::api::request::{Body, Method};
use quicktick_tty::api::task::{get_all_tasks, Task};
use quicktick_tty::api::user::{
    cookie_credentials, finish_sign_up, log_out,
    login_accepted, reconcile, restore_request, sign_in, sign_up, Credentials, SignIn, SignUpError,
    User,
};
use quicktick_tty::app::App;
use quicktick_tty::helper::functions::refetch_data;
use quicktick_tty::helper::input::{FormKind, InputContentVariants};
use quicktick_tty::helper::stateful_list::StatefulList;

const ROOT: &str = "https://quicktick-api.fly.dev";

fn someone() -> User {
    User {
        uuid: "u-1".to_string(),
        name: "Ada".to_string(),
        email: "ada@example.org".to_string(),
        password: "hash".to_string(),
        salt: "salt".to_string(),
    }
}

fn a_board(uuid: &str, special: Option<i32>) -> Board {
    Board { uuid: uuid.to_string(), name: uuid.to_uppercase(), user_uuid: "u-1".to_string(), special }
}

fn a_task(uuid: &str, board_uuid: &str) -> Task {
    Task {
        uuid: uuid.to_string(),
        name: uuid.to_uppercase(),
        description: String::new(),
        completed: false,
        user_uuid: "u-1".to_string(),
        board_uuid: board_uuid.to_string(),
    }
}

fn enter_text(app: &mut App, text: &str) {
    for c in text.chars() {
        app.input_content.handle_keypress(KeyEvent::new(KeyCode::Char(c), KeyModifiers::NONE));
    }
}

#[test]
fn sign_in_rejects_missing_credentials() {
    let no_email = Credentials { email: String::new(), password: "p".to_string() };
    assert!(matches!(sign_in(&no_email, None), SignIn::Rejected));
    let no_password = Credentials { email: "e".to_string(), password: String::new() };
    assert!(matches!(sign_in(&no_password, Some("token".to_string())), SignIn::Rejected));
    let nothing = Credentials { email: String::new(), password: String::new() };
    assert!(matches!(sign_in(&nothing, None), SignIn::Rejected));
}

#[test]
fn sign_in_with_the_stored_session_names_the_token() {
    match sign_in(&cookie_credentials(), Some("abc-123".to_string())) {
        SignIn::Restore(request) => {
            assert_eq!(request.method, Method::Get);
            assert_eq!(request.url, format!("{}/login/cookie/cookie?device_identifier=tty", ROOT));
            assert_eq!(request.cookie, Some("user_uuid=abc-123".to_string()));
            assert!(matches!(request.body, Body::Empty));
        }
        other => panic!("unexpected step: {:?}", other),
    }
}

#[test]
fn sign_in_with_the_kept_session_sends_no_header() {
    match sign_in(&cookie_credentials(), None) {
        SignIn::Restore(request) => {
            assert_eq!(request.url, format!("{}/login/cookie/cookie?device_identifier=tty", ROOT));
            assert_eq!(request.cookie, None);
        }
        other => panic!("unexpected step: {:?}", other),
    }
}

#[test]
fn sign_in_with_an_empty_token_still_names_it() {
    match sign_in(&cookie_credentials(), Some(String::new())) {
        SignIn::Restore(request) => assert_eq!(request.cookie, Some("user_uuid=".to_string())),
        other => panic!("unexpected step: {:?}", other),
    }
}

#[test]
fn sign_in_with_a_password_asks_the_service() {
    let credentials =
        Credentials { email: "ada@example.org".to_string(), password: "secret".to_string() };
    match sign_in(&credentials, Some("ignored".to_string())) {
        SignIn::Password(request) => {
            assert_eq!(request.method, Method::Get);
            assert_eq!(
                request.url,
                format!("{}/login/ada@example.org/secret?device_identifier=tty", ROOT)
            );
            assert_eq!(request.cookie, None);
            assert!(matches!(request.body, Body::Empty));
        }
        other => panic!("unexpected step: {:?}", other),
    }
    let half = Credentials { email: "cookie".to_string(), password: "secret".to_string() };
    assert!(matches!(sign_in(&half, None), SignIn::Password(_)));
}

#[test]
fn cookie_credentials_are_the_word_cookie() {
    let credentials = cookie_credentials();
    assert_eq!(credentials.email, "cookie");
    assert_eq!(credentials.password, "cookie");
    let copy = credentials.clone();
    assert_eq!((copy.email, copy.password), (credentials.email, credentials.password));
}

#[test]
fn restore_request_with_and_without_token() {
    let named = restore_request(Some("t".to_string()));
    assert_eq!(named.cookie, Some("user_uuid=t".to_string()));
    let kept = restore_request(None);
    assert_eq!(kept.cookie, None);
    assert_eq!(kept.url, named.url);
}

#[test]
fn login_is_accepted_by_one_answer_only() {
    assert!(login_accepted("\"Logged in\""));
    assert!(!login_accepted("Logged in"));
    assert!(!login_accepted("\"Wrong password\""));
    assert!(!login_accepted(""));
}

#[test]
fn snapshot_requests() {
    let tasks = get_all_tasks();
    assert_eq!(tasks.method, Method::Get);
    assert_eq!(tasks.url, format!("{}/get/all_user_tasks?device_identifier=tty", ROOT));
    assert_eq!(tasks.cookie, None);
    let boards = get_all_user_boards();
    assert_eq!(boards.method, Method::Get);
    assert_eq!(boards.url, format!("{}/get/all_user_board", ROOT));
}

#[test]
fn reconcile_replaces_everything_and_selects_the_first() {
    let mut app = App::new();
    app.task_data = vec![a_task("old", "gone")];
    app.boards = StatefulList::with_items(vec![a_board("gone", None)]);
    app.selected_widget = true;
    let done = reconcile(
        &mut app,
        Some(someone()),
        Some(vec![a_task("t-1", "b-2"), a_task("t-2", "b-1"), a_task("t-3", "b-1")]),
        Some(vec![a_board("b-1", None), a_board("b-2", Some(2))]),
    );
    assert!(done);
    assert_eq!(app.user.as_ref().unwrap().uuid, "u-1");
    let stored: Vec<&str> = app.task_data.iter().map(|t| t.uuid.as_str()).collect();
    assert_eq!(stored, vec!["t-1", "t-2", "t-3"]);
    let boards: Vec<&str> = app.boards.items().iter().map(|b| b.uuid.as_str()).collect();
    assert_eq!(boards, vec!["b-1", "b-2"]);
    assert_eq!(app.boards.selected_index(), Some(0));
    let listed: Vec<&str> = app.tasks.items().iter().map(|t| t.uuid.as_str()).collect();
    assert_eq!(listed, vec!["t-2", "t-3"]);
    assert_eq!(app.tasks.selected_index(), Some(0));
    assert!(app.selected_widget);
    assert!(app.running);
}

#[test]
fn reconcile_with_nothing_fetched_selects_nothing() {
    let mut app = App::new();
    app.task_data = vec![a_task("old", "gone")];
    app.boards = StatefulList::with_items(vec![a_board("gone", None)]);
    app.boards.next();
    app.tasks = StatefulList::with_items(vec![a_task("old", "gone")]);
    app.tasks.next();
    assert!(reconcile(&mut app, Some(someone()), Some(Vec::new()), Some(Vec::new())));
    assert_eq!(app.boards.len(), 0);
    assert_eq!(app.tasks.len(), 0);
    assert_eq!(app.task_data.len(), 0);
    assert_eq!(app.boards.selected_index(), None);
    assert_eq!(app.tasks.selected_index(), None);
    assert!(app.user.is_some());
}

#[test]
fn reconcile_with_boards_but_no_tasks_selects_a_board_only() {
    let mut app = App::new();
    assert!(reconcile(&mut app, Some(someone()), Some(Vec::new()), Some(vec![a_board("b-1", None)])));
    assert_eq!(app.boards.selected_index(), Some(0));
    assert_eq!(app.tasks.selected_index(), None);
}

#[test]
fn reconcile_after_a_failed_fetch_keeps_the_state() {
    let mut app = App::new();
    app.task_data = vec![a_task("old", "kept")];
    app.boards = StatefulList::with_items(vec![a_board("kept", None)]);
    app.boards.next();
    assert!(!reconcile(&mut app, Some(someone()), None, Some(vec![a_board("b-1", None)])));
    assert!(!reconcile(&mut app, Some(someone()), Some(vec![a_task("t-1", "b-1")]), None));
    assert!(!reconcile(&mut app, None, Some(Vec::new()), Some(Vec::new())));
    assert!(app.user.is_none());
    assert_eq!(app.task_data.len(), 1);
    assert_eq!(app.task_data[0].uuid, "old");
    assert_eq!(app.boards.items()[0].uuid, "kept");
    assert_eq!(app.boards.selected_index(), Some(0));
}

#[test]
fn sign_up_builds_the_account_request() {
    let mut app = App::new();
    app.input_content.show(InputContentVariants::empty(FormKind::SignUp));
    enter_text(&mut app, "ada@example.org");
    app.input_content.cycle_selected_input();
    enter_text(&mut app, "secret");
    app.input_content.cycle_selected_input();
    enter_text(&mut app, "Ada");
    let request = sign_up(&mut app).unwrap();
    assert_eq!(request.method, Method::Post);
    assert_eq!(request.url, format!("{}/post/create_user?device_identifier=tty", ROOT));
    match &request.body {
        Body::Text(text) => assert_eq!(
            text,
            "{\"email\":\"ada@example.org\",\"password\":\"secret\",\"name\":\"Ada\"}"
        ),
        other => panic!("unexpected body: {:?}", other),
    }
    let next = app.credentials.as_ref().unwrap();
    assert_eq!(next.email, "cookie");
    assert_eq!(next.password, "cookie");
    assert!(app.input_content.visible());
}

#[test]
fn sign_up_needs_its_form() {
    let mut app = App::new();
    app.input_content.show(InputContentVariants::empty(FormKind::LogIn));
    assert_eq!(sign_up(&mut app).unwrap_err(), SignUpError::InvalidVariant);
    assert_eq!(app.credentials.as_ref().unwrap().email, "");
}

#[test]
fn sign_up_ends_as_the_sign_in_does() {
    assert_eq!(finish_sign_up(true), Ok(()));
    assert_eq!(finish_sign_up(false), Err(SignUpError::SignInFailed));
    assert_eq!(SignUpError::InvalidVariant.message(), "Invalid input content variant");
    assert_eq!(SignUpError::SignInFailed.message(), "Failed to sign in");
}

#[test]
fn log_out_clears_the_state() {
    let mut app = App::new();
    assert!(reconcile(
        &mut app,
        Some(someone()),
        Some(vec![a_task("t-1", "b-1")]),
        Some(vec![a_board("b-1", None)]),
    ));
    app.credentials = Some(cookie_credentials());
    app.input_content.show(InputContentVariants::empty(FormKind::LogIn));
    app.input_content.cycle_selected_input();
    let request = log_out(&mut app);
    assert_eq!(request.method, Method::Get);
    assert_eq!(request.url, format!("{}/logout?device_identifier=tty", ROOT));
    assert!(app.user.is_none());
    assert_eq!(app.credentials.as_ref().unwrap().email, "");
    assert_eq!(app.credentials.as_ref().unwrap().password, "");
    assert_eq!(app.boards.len(), 0);
    assert_eq!(app.boards.selected_index(), None);
    assert_eq!(app.tasks.len(), 0);
    assert_eq!(app.tasks.selected_index(), None);
    assert_eq!(app.task_data.len(), 0);
    assert!(!app.input_content.visible());
    assert_eq!(app.input_content.selected_input(), 0);
    assert!(app.selected_widget);
    assert!(app.running);
}

#[test]
fn refetch_needs_a_stored_token() {
    assert!(refetch_data(None).is_none());
    let request = refetch_data(Some("abc".to_string())).unwrap();
    assert_eq!(request.url, format!("{}/login/cookie/cookie?device_identifier=tty", ROOT));
    assert_eq!(request.cookie, Some("user_uuid=abc".to_string()));
}

#[test]
fn new_app_is_signed_out_and_running() {
    let app = App::new();
    assert!(app.running);
    assert!(app.user.is_none());
    assert_eq!(app.credentials.as_ref().unwrap().email, "");
    assert_eq!(app.credentials.as_ref().unwrap().password, "");
    assert_eq!(app.boards.len(), 0);
    assert_eq!(app.tasks.len(), 0);
    assert_eq!(app.task_data.len(), 0);
    assert!(!app.selected_widget);
    assert!(!app.input_content.visible());
    let other = App::default();
    assert!(other.running);
    assert!(!other.selected_widget);
}

#[test]
fn quit_stops_the_loop_and_tick_changes_nothing() {
    let mut app = App::new();
    app.tick();
    assert!(app.running);
    app.quit();
    assert!(!app.running);
    assert!(!app.selected_widget);
}
