//! What a key press does to the state, and what it asks the caller to do.

use crate::api::board::{board_deleted, create_board, delete_board, fresh_board_created};
use crate::api::request::Request;
use crate::api::task::{create_task, delete_task, fresh_task_created, task_deleted, task_toggled};
use crate::api::task::toggle_task;
use crate::api::user::{sign_up, signed_up, Credentials, CredentialsView, SignUpError};
use crate::app::App;
use crate::helper::input::{DataForSubmit, FormKind, InputContentVariants, InputContentView};
use crate::helper::stateful_list::{cursor_after_next, cursor_after_previous};
use crate::helper::terminal::{has_control, input_text, key_has_control, key_pressed, pressed_key};
use crate::helper::terminal::Key;
use crossterm::event::KeyEvent;
use vstd::prelude::*;

verus! {

/// What is to happen to the cursor of the terminal.
#[derive(Debug, Clone, Copy, PartialEq, Eq, Structural)]
pub enum CursorChange {
    Keep,
    Show,
    Hide,
}

/// Work that a key press leaves to the caller.
#[derive(Debug)]
pub enum Job {
    /// Nothing.
    Idle,
    /// Send the request and do not wait for the answer.
    Send(Request),
    /// Sign in with the credentials and, on success, take over what the
    /// service holds.
    SignIn(Credentials),
    /// Send the request, wait, then restore the session that it opened.
    SignUp(Request),
    /// Refresh the local state from the stored session.
    Refetch,
}

/// What a key press asks of the caller.
#[derive(Debug)]
pub struct Effect {
    pub cursor: CursorChange,
    pub job: Job,
}

impl Effect {
    /// Whether nothing is asked.
    pub open spec fn quiet(&self) -> bool {
        self.cursor == CursorChange::Keep && self.job is Idle
    }

    /// The request that is to be sent without waiting, if any. No other work
    /// is asked for.
    pub open spec fn sent(&self) -> Option<Request> {
        match self.job {
            Job::Send(request) => Some(request),
            _ => None,
        }
    }

    /// Whether the work is a request to send, or nothing.
    pub open spec fn sends_only(&self) -> bool {
        self.job is Send || self.job is Idle
    }
}

/// Whether the input form alone may differ between `pre` and `post`.
pub open spec fn only_form_changed(pre: App, post: App) -> bool {
    post == (App { input_content: post.input_content, ..pre })
}

/// `post` with the input form of `pre`.
pub open spec fn with_form_of(pre: App, post: App) -> App {
    App { input_content: pre.input_content, ..post }
}

/// What the enter key does while the form is on screen. The form leaves the
/// screen and the cursor of the terminal is hidden. The form to sign in
/// asks for a sign-in with its texts; the form for a new account asks for
/// that account; any other form creates a board while the boards take the
/// key presses and a task otherwise.
pub open spec fn entered(pre: App, post: App, effect: Effect) -> bool {
    &&& post.input_content@ == pre.input_content@.hidden()
    &&& effect.cursor == CursorChange::Hide
    &&& match pre.input_content@.variant {
        InputContentVariants::LogIn { email, password } => {
            &&& with_form_of(pre, post) == pre
            &&& effect.job is SignIn
            &&& effect.job->SignIn_0@ == (CredentialsView {
                email: input_text(email),
                password: input_text(password),
            })
        },
        InputContentVariants::SignUp { .. } => {
            &&& effect.job is SignUp
            &&& signed_up(
                pre,
                with_form_of(pre, post),
                Ok::<Request, SignUpError>(effect.job->SignUp_0),
            )
        },
        _ => {
            &&& effect.sends_only()
            &&& if pre.selected_widget {
                fresh_board_created(pre, with_form_of(pre, post), effect.sent())
            } else {
                fresh_task_created(pre, with_form_of(pre, post), effect.sent())
            }
        },
    }
}

/// What `key` does while the form is on screen: escape cancels the form, tab
/// selects the next field, enter commits, and every other key goes to the
/// selected field.
pub open spec fn form_key_handled(
    pre: App,
    key: Key,
    key_event: KeyEvent,
    post: App,
    effect: Effect,
) -> bool {
    match key {
        Key::Esc => {
            &&& only_form_changed(pre, post)
            &&& post.input_content@ == pre.input_content@.hidden()
            &&& effect.cursor == CursorChange::Hide
            &&& effect.job is Idle
        },
        Key::Tab => {
            &&& only_form_changed(pre, post)
            &&& post.input_content@ == (InputContentView {
                selected_input: (pre.input_content@.selected_input + 1)
                    % pre.input_content@.variant.field_count(),
                ..pre.input_content@
            })
            &&& effect.quiet()
        },
        Key::Enter => entered(pre, post, effect),
        _ => {
            &&& only_form_changed(pre, post)
            &&& post.input_content@ == (InputContentView {
                variant: pre.input_content@.variant.keypress(
                    pre.input_content@.selected_input,
                    key_event,
                ),
                ..pre.input_content@
            })
            &&& effect.quiet()
        },
    }
}

/// What the character `c` does while the form is off screen.
pub open spec fn command_handled(pre: App, c: char, control: bool, post: App, effect: Effect) -> bool {
    if c == 'q' {
        post == (App { running: false, ..pre }) && effect.quiet()
    } else if c == 'c' {
        &&& effect.quiet()
        &&& if control {
            post == (App { running: false, ..pre })
        } else {
            post == pre
        }
    } else if c == 'a' {
        &&& only_form_changed(pre, post)
        &&& pre.input_content@.shows(FormKind::LogIn, post.input_content@)
        &&& effect.quiet()
    } else if c == 'A' {
        &&& only_form_changed(pre, post)
        &&& pre.input_content@.shows(FormKind::SignUp, post.input_content@)
        &&& effect.quiet()
    } else if c == 'l' || c == 'h' {
        post == (App { selected_widget: !pre.selected_widget, ..pre }) && effect.quiet()
    } else if c == 'k' {
        &&& effect.quiet()
        &&& if pre.selected_widget {
            &&& post == (App { boards: post.boards, ..pre })
            &&& post.boards@ == pre.boards@
            &&& post.boards.cursor() == cursor_after_previous(pre.boards.cursor(), pre.boards@.len())
        } else {
            &&& post == (App { tasks: post.tasks, ..pre })
            &&& post.tasks@ == pre.tasks@
            &&& post.tasks.cursor() == cursor_after_previous(pre.tasks.cursor(), pre.tasks@.len())
        }
    } else if c == 'j' {
        &&& effect.quiet()
        &&& if pre.selected_widget {
            &&& post == (App { boards: post.boards, ..pre })
            &&& post.boards@ == pre.boards@
            &&& post.boards.cursor() == cursor_after_next(pre.boards.cursor(), pre.boards@.len())
        } else {
            &&& post == (App { tasks: post.tasks, ..pre })
            &&& post.tasks@ == pre.tasks@
            &&& post.tasks.cursor() == cursor_after_next(pre.tasks.cursor(), pre.tasks@.len())
        }
    } else if c == ' ' {
        if pre.selected_widget {
            post == pre && effect.quiet()
        } else {
            &&& effect.cursor == CursorChange::Keep
            &&& effect.sends_only()
            &&& task_toggled(pre, post, effect.sent())
        }
    } else if c == 'r' {
        post == pre && effect.cursor == CursorChange::Keep && effect.job is Refetch
    } else if c == 'i' {
        &&& only_form_changed(pre, post)
        &&& pre.input_content@.shows(
            if pre.selected_widget {
                FormKind::CreateBoard
            } else {
                FormKind::CreateTask
            },
            post.input_content@,
        )
        &&& effect.cursor == CursorChange::Show
        &&& effect.job is Idle
    } else if c == 'd' {
        &&& effect.cursor == CursorChange::Keep
        &&& effect.sends_only()
        &&& if pre.selected_widget {
            board_deleted(pre, post, effect.sent())
        } else {
            task_deleted(pre, post, effect.sent())
        }
    } else {
        post == pre && effect.quiet()
    }
}

/// What a key press does. `key` is the key, `control` tells whether the
/// control key alone was held with it, and `key_event` is the event as the
/// selected field of the form gets it.
pub open spec fn key_handled(
    pre: App,
    key: Key,
    control: bool,
    key_event: KeyEvent,
    post: App,
    effect: Effect,
) -> bool {
    if pre.input_content@.visible {
        form_key_handled(pre, key, key_event, post, effect)
    } else {
        match key {
            Key::Char(c) => command_handled(pre, c, control, post, effect),
            _ => post == pre && effect.quiet(),
        }
    }
}

/// The effect that asks for nothing.
fn quiet() -> (effect: Effect)
    ensures
        effect.quiet(),
{
    Effect { cursor: CursorChange::Keep, job: Job::Idle }
}

/// The effect that sends `request`, where there is one, and leaves the
/// cursor of the terminal to `cursor`.
fn sending(cursor: CursorChange, request: Option<Request>) -> (effect: Effect)
    ensures
        effect.cursor == cursor,
        effect.sends_only(),
        effect.sent() == request,
{
    match request {
        Some(request) => Effect { cursor, job: Job::Send(request) },
        None => Effect { cursor, job: Job::Idle },
    }
}

/// Commits the form on screen.
fn handle_enter(app: &mut App) -> (effect: Effect)
    ensures
        entered(*old(app), *final(app), effect),
{
    let job = match app.input_content.variant().form_kind() {
        FormKind::LogIn => match app.input_content.variant().submit() {
            DataForSubmit::LogIn { email, password } => Job::SignIn(Credentials { email, password }),
            _ => Job::Idle,
        },
        FormKind::SignUp => match sign_up(app) {
            Ok(request) => Job::SignUp(request),
            Err(_) => Job::Idle,
        },
        _ => {
            let request = if app.selected_widget {
                create_board(app)
            } else {
                create_task(app)
            };
            match request {
                Some(request) => Job::Send(request),
                None => Job::Idle,
            }
        },
    };
    let ghost mid = *app;
    app.input_content.cancel();
    assert(with_form_of(*old(app), *app) == mid);
    Effect { cursor: CursorChange::Hide, job }
}

/// Handles a key press while the form is on screen.
fn handle_form_key(key: Key, key_event: KeyEvent, app: &mut App) -> (effect: Effect)
    requires
        old(app).input_content@.visible,
    ensures
        form_key_handled(*old(app), key, key_event, *final(app), effect),
{
    match key {
        Key::Esc => {
            app.input_content.cancel();
            Effect { cursor: CursorChange::Hide, job: Job::Idle }
        },
        Key::Tab => {
            app.input_content.cycle_selected_input();
            quiet()
        },
        Key::Enter => handle_enter(app),
        _ => {
            app.input_content.handle_keypress(key_event);
            quiet()
        },
    }
}

/// Handles the character `c` while the form is off screen.
fn handle_command(c: char, control: bool, app: &mut App) -> (effect: Effect)
    ensures
        command_handled(*old(app), c, control, *final(app), effect),
{
    if c == 'q' {
        app.quit();
        quiet()
    } else if c == 'c' {
        if control {
            app.quit();
        }
        quiet()
    } else if c == 'a' {
        app.input_content.show(InputContentVariants::empty(FormKind::LogIn));
        quiet()
    } else if c == 'A' {
        app.input_content.show(InputContentVariants::empty(FormKind::SignUp));
        quiet()
    } else if c == 'l' || c == 'h' {
        app.selected_widget = !app.selected_widget;
        quiet()
    } else if c == 'k' {
        if app.selected_widget {
            app.boards.previous();
        } else {
            app.tasks.previous();
        }
        quiet()
    } else if c == 'j' {
        if app.selected_widget {
            app.boards.next();
        } else {
            app.tasks.next();
        }
        quiet()
    } else if c == ' ' {
        if app.selected_widget {
            quiet()
        } else {
            let request = toggle_task(app);
            sending(CursorChange::Keep, request)
        }
    } else if c == 'r' {
        Effect { cursor: CursorChange::Keep, job: Job::Refetch }
    } else if c == 'i' {
        if app.selected_widget {
            app.input_content.show(InputContentVariants::empty(FormKind::CreateBoard));
        } else {
            app.input_content.show(InputContentVariants::empty(FormKind::CreateTask));
        }
        Effect { cursor: CursorChange::Show, job: Job::Idle }
    } else if c == 'd' {
        let request = if app.selected_widget {
            delete_board(app)
        } else {
            delete_task(app)
        };
        sending(CursorChange::Keep, request)
    } else {
        quiet()
    }
}

/// Handles the key press whose key is `key`, with the control key alone held
/// or not as `control` tells, and whose event is `key_event`.
pub fn handle_key(key: Key, control: bool, key_event: KeyEvent, app: &mut App) -> (effect: Effect)
    ensures
        key_handled(*old(app), key, control, key_event, *final(app), effect),
{
    if app.input_content.visible() {
        handle_form_key(key, key_event, app)
    } else {
        match key {
            Key::Char(c) => handle_command(c, control, app),
            _ => quiet(),
        }
    }
}

/// Handles a key event: updates the state and says what is left to do.
pub fn handle_key_events(key_event: KeyEvent, app: &mut App) -> (effect: Effect)
    ensures
        key_handled(
            *old(app),
            key_pressed(key_event),
            key_has_control(key_event),
            key_event,
            *final(app),
            effect,
        ),
{
    let key = pressed_key(&key_event);
    let control = has_control(&key_event);
    handle_key(key, control, key_event, app)
}

} // verus!
