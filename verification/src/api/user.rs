//! The signed-in user and the credentials that sign one in.

use crate::api::board::Board;
use crate::api::request::{address, address_of, address_with, plain_request, Body, BodyView, Method};
use crate::api::request::{Request, RequestView};
use crate::api::task::Task;
use crate::app::App;
use crate::helper::input::{DataForSubmit, InputContentVariants};
use crate::helper::stateful_list::{cursor_after_next, StatefulList};
use crate::helper::terminal::input_text;
use crate::ui::{shown_tasks, tasks_to_display};
use vstd::prelude::*;
use vstd::string::StringExecFns;

verus! {

/// The account that the remote service reports for a session.
#[derive(Debug)]
pub struct User {
    pub uuid: String,
    pub name: String,
    pub email: String,
    pub password: String,
    pub salt: String,
}

/// What a user types to sign in.
#[derive(Debug)]
pub struct Credentials {
    pub email: String,
    pub password: String,
}

impl Clone for Credentials {
    fn clone(&self) -> (copy: Credentials)
        ensures
            copy == *self,
    {
        Credentials { email: self.email.clone(), password: self.password.clone() }
    }
}

/// Credentials as a mathematical value.
pub struct CredentialsView {
    pub email: Seq<char>,
    pub password: Seq<char>,
}

impl View for Credentials {
    type V = CredentialsView;

    open spec fn view(&self) -> CredentialsView {
        CredentialsView { email: self.email@, password: self.password@ }
    }
}

/// How a sign-in begins.
#[derive(Debug)]
pub enum SignIn {
    /// The credentials lack an email or a password: nothing is sent.
    Rejected,
    /// The stored session is to be restored by this request.
    Restore(Request),
    /// The credentials are put to the service by this request; once it has
    /// accepted them the session is restored.
    Password(Request),
}

/// Why a sign-up failed.
#[derive(Debug, Clone, Copy, PartialEq, Eq, Structural)]
pub enum SignUpError {
    /// The form for a new account is not the loaded form.
    InvalidVariant,
    /// The account was asked for, but the sign-in that follows failed.
    SignInFailed,
}

impl SignUpError {
    /// The failure in words.
    pub fn message(&self) -> (text: String)
        ensures
            text@ == match *self {
                SignUpError::InvalidVariant => "Invalid input content variant"@,
                SignUpError::SignInFailed => "Failed to sign in"@,
            },
    {
        match self {
            SignUpError::InvalidVariant => String::from_str("Invalid input content variant"),
            SignUpError::SignInFailed => String::from_str("Failed to sign in"),
        }
    }
}

/// The credentials that stand for the stored session.
pub open spec fn is_cookie(credentials: CredentialsView) -> bool {
    credentials.email == "cookie"@ && credentials.password == "cookie"@
}

/// The request that restores a session: the one that `cookie` names in a
/// header of its own, or the one that the transport keeps.
pub open spec fn restore_view(cookie: Option<Seq<char>>) -> RequestView {
    RequestView {
        method: Method::Get,
        url: address("/login/cookie/cookie?device_identifier=tty"@),
        body: BodyView::Empty,
        cookie: match cookie {
            Some(token) => Some("user_uuid="@ + token),
            None => None,
        },
    }
}

/// The request that puts `credentials` to the service.
pub open spec fn password_view(credentials: CredentialsView) -> RequestView {
    plain_request(
        Method::Get,
        address(
            "/login/"@ + credentials.email + "/"@ + credentials.password
                + "?device_identifier=tty"@,
        ),
        BodyView::Empty,
    )
}

/// The credentials that stand for the stored session.
pub fn cookie_credentials() -> (credentials: Credentials)
    ensures
        is_cookie(credentials@),
{
    Credentials { email: String::from_str("cookie"), password: String::from_str("cookie") }
}

/// The request that restores a session.
pub fn restore_request(cookie: Option<String>) -> (request: Request)
    ensures
        request@ == restore_view(
            match cookie {
                Some(token) => Some(token@),
                None => None,
            },
        ),
{
    let header = match cookie {
        Some(token) => {
            let mut header = String::from_str("user_uuid=");
            header.append(token.as_str());
            Some(header)
        },
        None => None,
    };
    Request {
        method: Method::Get,
        url: address_of("/login/cookie/cookie?device_identifier=tty"),
        body: Body::Empty,
        cookie: header,
    }
}

/// Begins a sign-in. Credentials without an email or without a password are
/// rejected. The credentials that stand for the stored session restore it,
/// naming `cookie` where there is one. Any other credentials are put to the
/// service.
pub fn sign_in(credentials: &Credentials, cookie: Option<String>) -> (step: SignIn)
    ensures
        credentials@.email.len() == 0 || credentials@.password.len() == 0 ==> step is Rejected,
        credentials@.email.len() > 0 && credentials@.password.len() > 0 && is_cookie(credentials@)
            ==> step is Restore && step->Restore_0@ == restore_view(
            match cookie {
                Some(token) => Some(token@),
                None => None,
            },
        ),
        credentials@.email.len() > 0 && credentials@.password.len() > 0 && !is_cookie(
            credentials@,
        ) ==> step is Password && step->Password_0@ == password_view(credentials@),
{
    if credentials.email.as_str().is_empty() || credentials.password.as_str().is_empty() {
        SignIn::Rejected
    } else {
        let word = String::from_str("cookie");
        if credentials.email == word && credentials.password == word {
            SignIn::Restore(restore_request(cookie))
        } else {
            let mut url = address_with(
                "/login/",
                credentials.email.as_str(),
                "/",
            );
            url.append(credentials.password.as_str());
            url.append("?device_identifier=tty");
            assert(url@ =~= password_view(credentials@).url);
            SignIn::Password(
                Request { method: Method::Get, url, body: Body::Empty, cookie: None },
            )
        }
    }
}

/// Whether `response` is the answer of the service to credentials that it
/// accepts.
pub fn login_accepted(response: &str) -> (accepted: bool)
    ensures
        accepted == (response@ == "\"Logged in\""@),
{
    let expected = String::from_str("\"Logged in\"");
    let given = String::from_str(response);
    given == expected
}

/// What `reconcile` does. With a user, the tasks and the boards at hand, the
/// user is signed in, store and boards are replaced by what was fetched, the
/// first board is selected, the tasks of that board are listed and the first
/// of them is selected; an empty list selects nothing. With any of the three
/// missing, nothing changes.
pub open spec fn reconciled(
    pre: App,
    user: Option<User>,
    tasks: Option<Vec<Task>>,
    boards: Option<Vec<Board>>,
    post: App,
    done: bool,
) -> bool {
    if user is Some && tasks is Some && boards is Some {
        &&& done
        &&& post.user == user
        &&& post.task_data == tasks.unwrap()
        &&& post.boards@ == boards.unwrap()@
        &&& post.boards.cursor() == cursor_after_next(None, post.boards@.len())
        &&& post.listed() == shown_tasks(post.store(), post.board_seq(), post.selected_board())
        &&& post.tasks.cursor() == cursor_after_next(None, post.tasks@.len())
        &&& post.running == pre.running
        &&& post.credentials == pre.credentials
        &&& post.selected_widget == pre.selected_widget
        &&& post.input_content == pre.input_content
    } else {
        !done && post == pre
    }
}

/// Replaces the local state by what the service holds, once all of it has
/// been fetched; a fetch that failed leaves the state as it was.
pub fn reconcile(
    app: &mut App,
    user: Option<User>,
    tasks: Option<Vec<Task>>,
    boards: Option<Vec<Board>>,
) -> (done: bool)
    ensures
        reconciled(*old(app), user, tasks, boards, *final(app), done),
{
    match (user, tasks, boards) {
        (Some(user), Some(tasks), Some(boards)) => {
            app.user = Some(user);
            app.task_data = tasks;
            app.boards = StatefulList::with_items(boards);
            app.boards.next();
            app.tasks = StatefulList::with_items(tasks_to_display(app));
            app.tasks.next();
            true
        },
        _ => false,
    }
}

/// The text that asks the service for a new account.
pub open spec fn sign_up_text(email: Seq<char>, password: Seq<char>, name: Seq<char>) -> Seq<char> {
    "{\"email\":\""@ + email + "\",\"password\":\""@ + password + "\",\"name\":\""@ + name
        + "\"}"@
}

/// What `sign_up` does: with the form for a new account loaded, the next
/// sign-in is set to restore the session and the service is asked for the
/// account that the form describes; with any other form loaded, nothing
/// changes and the sign-up fails.
pub open spec fn signed_up(pre: App, post: App, outcome: Result<Request, SignUpError>) -> bool {
    match pre.input_content@.variant {
        InputContentVariants::SignUp { email, password, name } => {
            &&& post == (App { credentials: post.credentials, ..pre })
            &&& post.credentials is Some
            &&& is_cookie(post.credentials.unwrap()@)
            &&& outcome is Ok
            &&& outcome.unwrap()@ == plain_request(
                Method::Post,
                address("/post/create_user?device_identifier=tty"@),
                BodyView::Text(
                    sign_up_text(input_text(email), input_text(password), input_text(name)),
                ),
            )
        },
        _ => post == pre && outcome == Err::<Request, SignUpError>(SignUpError::InvalidVariant),
    }
}

/// Builds the request for the account that the form describes.
pub fn sign_up(app: &mut App) -> (outcome: Result<Request, SignUpError>)
    ensures
        signed_up(*old(app), *final(app), outcome),
{
    let data = match app.input_content.variant() {
        InputContentVariants::SignUp { .. } => app.input_content.variant().submit(),
        _ => {
            return Err(SignUpError::InvalidVariant);
        },
    };
    match data {
        DataForSubmit::SignUp { email, password, name } => {
            let mut text = String::from_str("{\"email\":\"");
            text.append(email.as_str());
            text.append("\",\"password\":\"");
            text.append(password.as_str());
            text.append("\",\"name\":\"");
            text.append(name.as_str());
            text.append("\"}");
            app.credentials = Some(cookie_credentials());
            Ok(
                Request {
                    method: Method::Post,
                    url: address_of("/post/create_user?device_identifier=tty"),
                    body: Body::Text(text),
                    cookie: None,
                },
            )
        },
        _ => Err(SignUpError::InvalidVariant),
    }
}

/// The end of a sign-up: it succeeded when the sign-in that follows the
/// request did.
pub fn finish_sign_up(signed_in: bool) -> (outcome: Result<(), SignUpError>)
    ensures
        signed_in ==> outcome is Ok,
        !signed_in ==> outcome == Err::<(), SignUpError>(SignUpError::SignInFailed),
{
    if signed_in {
        Ok(())
    } else {
        Err(SignUpError::SignInFailed)
    }
}

/// Signs the user out: user, store, boards and listed tasks are dropped, the
/// credentials are emptied, the form leaves the screen and the boards take
/// the key presses. The request tells the service.
pub fn log_out(app: &mut App) -> (request: Request)
    ensures
        final(app).signed_out(),
        final(app).running == old(app).running,
        final(app).selected_widget,
        final(app).input_content@ == old(app).input_content@.hidden(),
        request@ == plain_request(
            Method::Get,
            address("/logout?device_identifier=tty"@),
            BodyView::Empty,
        ),
{
    app.user = None;
    app.credentials = Some(Credentials { email: String::new(), password: String::new() });
    app.boards = StatefulList::with_items(Vec::new());
    app.tasks = StatefulList::with_items(Vec::new());
    app.task_data = Vec::new();
    app.input_content.cancel();
    app.selected_widget = true;
    Request {
        method: Method::Get,
        url: address_of("/logout?device_identifier=tty"),
        body: Body::Empty,
        cookie: None,
    }
}

/// After a reconciliation each list has its first entity selected, and a
/// list without entities has nothing selected.
pub proof fn lemma_reconciled_selection(
    pre: App,
    user: Option<User>,
    tasks: Option<Vec<Task>>,
    boards: Option<Vec<Board>>,
    post: App,
    done: bool,
)
    requires
        user is Some,
        tasks is Some,
        boards is Some,
        reconciled(pre, user, tasks, boards, post, done),
    ensures
        post.boards@.len() == 0 ==> post.boards.cursor() is None,
        post.boards@.len() > 0 ==> post.boards.cursor() == Some(0usize),
        post.tasks@.len() == 0 ==> post.tasks.cursor() is None,
        post.tasks@.len() > 0 ==> post.tasks.cursor() == Some(0usize),
{
}

/// A reconciliation with no boards and no tasks leaves both lists empty and
/// without a selection.
pub proof fn lemma_empty_snapshot(
    pre: App,
    user: Option<User>,
    tasks: Option<Vec<Task>>,
    boards: Option<Vec<Board>>,
    post: App,
    done: bool,
)
    requires
        user is Some,
        tasks is Some,
        boards is Some,
        tasks.unwrap()@.len() == 0,
        boards.unwrap()@.len() == 0,
        reconciled(pre, user, tasks, boards, post, done),
    ensures
        post.boards@.len() == 0,
        post.tasks@.len() == 0,
        post.boards.cursor() is None,
        post.tasks.cursor() is None,
{
    reveal(Seq::filter);
    assert(post.store().len() == 0);
    assert(post.listed().len() == post.tasks@.len());
}

/// A reconciliation for which a fetch failed changes nothing.
pub proof fn lemma_failed_fetch_keeps_state(
    pre: App,
    user: Option<User>,
    tasks: Option<Vec<Task>>,
    boards: Option<Vec<Board>>,
    post: App,
    done: bool,
)
    requires
        user is None || tasks is None || boards is None,
        reconciled(pre, user, tasks, boards, post, done),
    ensures
        post == pre,
        !done,
{
}

} // verus!
