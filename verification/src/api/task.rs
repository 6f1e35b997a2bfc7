//! Tasks and the actions that change them.

use crate::api::board::{find_role, role_uuid, ARCHIVE_ROLE};
use crate::api::request::{address, address_of, address_with, plain_request, Body, BodyView, Method};
use crate::api::request::{Request, RequestView};
use crate::app::App;
use crate::helper::functions::fresh_id;
use crate::helper::input::{DataForSubmit, InputContentVariants};
use crate::helper::terminal::input_text;
use crate::ui::shown_tasks;
use vstd::prelude::*;
use vstd::string::StringExecFns;

verus! {

/// A task of the entity store.
#[derive(Debug)]
pub struct Task {
    pub uuid: String,
    pub name: String,
    pub description: String,
    pub completed: bool,
    pub user_uuid: String,
    pub board_uuid: String,
}

/// A task as a mathematical value: each text as its characters.
pub struct TaskView {
    pub uuid: Seq<char>,
    pub name: Seq<char>,
    pub description: Seq<char>,
    pub completed: bool,
    pub user_uuid: Seq<char>,
    pub board_uuid: Seq<char>,
}

impl View for Task {
    type V = TaskView;

    open spec fn view(&self) -> TaskView {
        TaskView {
            uuid: self.uuid@,
            name: self.name@,
            description: self.description@,
            completed: self.completed,
            user_uuid: self.user_uuid@,
            board_uuid: self.board_uuid@,
        }
    }
}

/// The tasks of `tasks` as mathematical values, in order.
pub open spec fn task_views(tasks: Seq<Task>) -> Seq<TaskView> {
    tasks.map_values(|task: Task| task@)
}

impl Clone for Task {
    fn clone(&self) -> (copy: Task)
        ensures
            copy == *self,
    {
        Task {
            uuid: self.uuid.clone(),
            name: self.name.clone(),
            description: self.description.clone(),
            completed: self.completed,
            user_uuid: self.user_uuid.clone(),
            board_uuid: self.board_uuid.clone(),
        }
    }
}

/// A change to one task that the remote service applies.
#[derive(Debug)]
pub enum Action {
    RenameTask(String),
    ChangeDesc(String),
    ToggleTask,
    ChangeOrder(i32),
    MoveBoard(String),
}

/// `tasks` with the completion flag flipped on every task whose identity is
/// `uuid`.
pub open spec fn toggled(tasks: Seq<TaskView>, uuid: Seq<char>) -> Seq<TaskView> {
    tasks.map_values(
        |task: TaskView|
            if task.uuid == uuid {
                TaskView { completed: !task.completed, ..task }
            } else {
                task
            },
    )
}

/// `tasks` with every task whose identity is `uuid` bound to the board
/// `board`.
pub open spec fn rehomed(tasks: Seq<TaskView>, uuid: Seq<char>, board: Seq<char>) -> Seq<TaskView> {
    tasks.map_values(
        |task: TaskView|
            if task.uuid == uuid {
                TaskView { board_uuid: board, ..task }
            } else {
                task
            },
    )
}

/// `tasks` without the tasks whose identity is `uuid`, in order.
pub open spec fn without(tasks: Seq<TaskView>, uuid: Seq<char>) -> Seq<TaskView> {
    tasks.filter(|task: TaskView| task.uuid != uuid)
}

/// The text that asks the service to apply `action` to the task `task_uuid`.
/// Only a toggle and a move have a text.
pub open spec fn patch_text(task_uuid: Seq<char>, action: Action) -> Option<Seq<char>> {
    match action {
        Action::ToggleTask => Some(
            "{\"task_uuid\": \""@ + task_uuid + "\", \"action\": \"ToggleTask\"}"@,
        ),
        Action::MoveBoard(board_uuid) => Some(
            "{\"task_uuid\": \""@ + task_uuid + "\", \"action\": \"MoveBoard\", \"board_uuid\": \""@
                + board_uuid@ + "\"}"@,
        ),
        _ => None,
    }
}

/// The request that carries the patch `text`.
pub open spec fn patch_request(text: Seq<char>) -> RequestView {
    plain_request(
        Method::Patch,
        address("/patch/task?device_identifier=tty"@),
        BodyView::Text(text),
    )
}

/// The request that erases the task `task_uuid` at the service.
pub open spec fn delete_task_request(task_uuid: Seq<char>) -> RequestView {
    plain_request(
        Method::Delete,
        address("/delete/task/"@ + task_uuid + "?device_identifier=tty"@),
        BodyView::Empty,
    )
}

/// The request that creates `task` at the service.
pub open spec fn create_task_request(task: TaskView) -> RequestView {
    plain_request(
        Method::Post,
        address("/post/create_task?device_identifier=tty"@),
        BodyView::Task(task),
    )
}

/// The request that fetches every task of the user.
pub fn get_all_tasks() -> (request: Request)
    ensures
        request@ == plain_request(
            Method::Get,
            address("/get/all_user_tasks?device_identifier=tty"@),
            BodyView::Empty,
        ),
{
    Request {
        method: Method::Get,
        url: address_of("/get/all_user_tasks?device_identifier=tty"),
        body: Body::Empty,
        cookie: None,
    }
}

/// Whether the entity store alone may differ between `pre` and `post`.
pub open spec fn only_store_changed(pre: App, post: App) -> bool {
    post == (App { task_data: post.task_data, ..pre })
}

/// The text that asks the service to apply `action` to the task
/// `task_uuid`, where the action has one.
pub fn patch_body(task_uuid: &str, action: &Action) -> (text: Option<String>)
    ensures
        match patch_text(task_uuid@, *action) {
            Some(expected) => text.is_some() && text.unwrap()@ == expected,
            None => text.is_none(),
        },
{
    match action {
        Action::ToggleTask => {
            let mut text = String::from_str("{\"task_uuid\": \"");
            text.append(task_uuid);
            text.append("\", \"action\": \"ToggleTask\"}");
            Some(text)
        },
        Action::MoveBoard(board_uuid) => {
            let mut text = String::from_str("{\"task_uuid\": \"");
            text.append(task_uuid);
            text.append("\", \"action\": \"MoveBoard\", \"board_uuid\": \"");
            text.append(board_uuid.as_str());
            text.append("\"}");
            Some(text)
        },
        _ => None,
    }
}

/// Flips the completion flag of every task of `tasks` whose identity is
/// `uuid`.
fn toggle_in(tasks: &mut Vec<Task>, uuid: &String)
    ensures
        task_views(final(tasks)@) == toggled(task_views(old(tasks)@), uuid@),
{
    let mut index: usize = 0;
    while index < tasks.len()
        invariant
            index <= tasks@.len(),
            tasks@.len() == old(tasks)@.len(),
            forall|k: int| 0 <= k < index ==> (#[trigger] tasks@[k])@ == toggled(task_views(old(tasks)@), uuid@)[k],
            forall|k: int| index <= k < tasks@.len() ==> #[trigger] tasks@[k] == old(tasks)@[k],
        decreases tasks@.len() - index,
    {
        if tasks[index].uuid == *uuid {
            let done = tasks[index].completed;
            tasks[index].completed = !done;
        }
        index = index + 1;
    }
    assert(task_views(tasks@) =~= toggled(task_views(old(tasks)@), uuid@));
}

/// Binds every task of `tasks` whose identity is `uuid` to the board
/// `board`.
fn rehome_in(tasks: &mut Vec<Task>, uuid: &String, board: &String)
    ensures
        task_views(final(tasks)@) == rehomed(task_views(old(tasks)@), uuid@, board@),
{
    let mut index: usize = 0;
    while index < tasks.len()
        invariant
            index <= tasks@.len(),
            tasks@.len() == old(tasks)@.len(),
            forall|k: int| 0 <= k < index ==> (#[trigger] tasks@[k])@ == rehomed(task_views(old(tasks)@), uuid@, board@)[k],
            forall|k: int| index <= k < tasks@.len() ==> #[trigger] tasks@[k] == old(tasks)@[k],
        decreases tasks@.len() - index,
    {
        if tasks[index].uuid == *uuid {
            tasks[index].board_uuid = board.clone();
        }
        index = index + 1;
    }
    assert(task_views(tasks@) =~= rehomed(task_views(old(tasks)@), uuid@, board@));
}

/// The tasks of `tasks` whose identity is not `uuid`, in order.
fn remove_from(tasks: &Vec<Task>, uuid: &String) -> (kept: Vec<Task>)
    ensures
        task_views(kept@) == without(task_views(tasks@), uuid@),
{
    let ghost all = task_views(tasks@);
    let ghost pred = |task: TaskView| task.uuid != uuid@;
    let mut kept: Vec<Task> = Vec::new();
    let mut index: usize = 0;
    proof {
        reveal(Seq::filter);
        assert(all.subrange(0, 0) =~= Seq::<TaskView>::empty());
        assert(task_views(kept@) =~= Seq::<TaskView>::empty());
    }
    while index < tasks.len()
        invariant
            index <= tasks@.len(),
            all == task_views(tasks@),
            pred == |task: TaskView| task.uuid != uuid@,
            task_views(kept@) == all.subrange(0, index as int).filter(pred),
        decreases tasks@.len() - index,
    {
        let ghost before = all.subrange(0, index as int);
        let ghost longer = all.subrange(0, index + 1);
        proof {
            reveal(Seq::filter);
            assert(longer.drop_last() =~= before);
            assert(longer.last() == tasks@[index as int]@);
        }
        if tasks[index].uuid != *uuid {
            let ghost old_kept = kept@;
            kept.push(tasks[index].clone());
            assert(task_views(kept@) =~= task_views(old_kept).push(tasks@[index as int]@));
        }
        index = index + 1;
    }
    assert(all.subrange(0, index as int) =~= all);
    kept
}

/// Builds the request that applies `action` to the task under the cursor.
/// Without a task under the cursor, or for an action that has no text,
/// there is no request. The state stays as it is.
pub fn patch_task(app: &mut App, action: Action) -> (request: Option<Request>)
    ensures
        *final(app) == *old(app),
        match old(app).selected_task() {
            Some(task) => match patch_text(task.uuid, action) {
                Some(text) => request.is_some() && request.unwrap()@ == patch_request(text),
                None => request.is_none(),
            },
            None => request.is_none(),
        },
{
    match app.tasks.selected() {
        Some(task) => match patch_body(task.uuid.as_str(), &action) {
            Some(text) => Some(
                Request {
                    method: Method::Patch,
                    url: address_of("/patch/task?device_identifier=tty"),
                    body: Body::Text(text),
                    cookie: None,
                },
            ),
            None => None,
        },
        None => None,
    }
}

/// What `toggle_task` does: with a task under the cursor, every task of the
/// store with that identity changes its completion flag and the service is
/// asked to do the same; without one, nothing happens.
pub open spec fn task_toggled(pre: App, post: App, request: Option<Request>) -> bool {
    match pre.selected_task() {
        Some(task) => {
            &&& only_store_changed(pre, post)
            &&& post.store() == toggled(pre.store(), task.uuid)
            &&& request.is_some()
            &&& request.unwrap()@ == patch_request(patch_text(task.uuid, Action::ToggleTask).unwrap())
        },
        None => post == pre && request.is_none(),
    }
}

/// Flips the completion flag of the task under the cursor and builds the
/// request that tells the service.
pub fn toggle_task(app: &mut App) -> (request: Option<Request>)
    ensures
        task_toggled(*old(app), *final(app), request),
{
    match app.tasks.selected() {
        Some(task) => {
            toggle_in(&mut app.task_data, &task.uuid);
            patch_task(app, Action::ToggleTask)
        },
        None => None,
    }
}

/// What `move_task` does: with a task under the cursor, every task of the
/// store with that identity is bound to `board_uuid` and the service is asked
/// to do the same; without one, nothing happens.
pub open spec fn task_moved(
    pre: App,
    board_uuid: Seq<char>,
    post: App,
    request: Option<Request>,
) -> bool {
    match pre.selected_task() {
        Some(task) => {
            &&& only_store_changed(pre, post)
            &&& post.store() == rehomed(pre.store(), task.uuid, board_uuid)
            &&& request.is_some()
            &&& request.unwrap()@ == patch_request(
                "{\"task_uuid\": \""@ + task.uuid
                    + "\", \"action\": \"MoveBoard\", \"board_uuid\": \""@ + board_uuid + "\"}"@,
            )
        },
        None => post == pre && request.is_none(),
    }
}

/// Binds the task under the cursor to the board `board_uuid` and builds the
/// request that tells the service.
pub fn move_task(app: &mut App, board_uuid: String) -> (request: Option<Request>)
    ensures
        task_moved(*old(app), board_uuid@, *final(app), request),
{
    match app.tasks.selected() {
        Some(task) => {
            rehome_in(&mut app.task_data, &task.uuid, &board_uuid);
            patch_task(app, Action::MoveBoard(board_uuid))
        },
        None => None,
    }
}

/// What `delete_task` does. It takes a task and a board under the cursors.
/// On the archive board the task leaves the store and the service is asked
/// to erase it. On every other board the task is moved to the archive board,
/// in the store and at the service; where the user has no archive board,
/// nothing happens.
pub open spec fn task_deleted(pre: App, post: App, request: Option<Request>) -> bool {
    match (pre.selected_task(), pre.selected_board()) {
        (Some(task), Some(board)) => if board.special == Some(ARCHIVE_ROLE) {
            &&& only_store_changed(pre, post)
            &&& post.store() == without(pre.store(), task.uuid)
            &&& request.is_some()
            &&& request.unwrap()@ == delete_task_request(task.uuid)
        } else {
            match role_uuid(pre.board_seq(), ARCHIVE_ROLE) {
                Some(archive) => task_moved(pre, archive, post, request),
                None => post == pre && request.is_none(),
            }
        },
        _ => post == pre && request.is_none(),
    }
}

/// Deletes the task under the cursor: for good on the archive board, into
/// the archive board anywhere else.
pub fn delete_task(app: &mut App) -> (request: Option<Request>)
    ensures
        task_deleted(*old(app), *final(app), request),
{
    let task = match app.tasks.selected() {
        Some(task) => task,
        None => {
            return None;
        },
    };
    let board = match app.boards.selected() {
        Some(board) => board,
        None => {
            return None;
        },
    };
    let archived = match board.special {
        Some(tag) => tag == ARCHIVE_ROLE,
        None => false,
    };
    if archived {
        app.task_data = remove_from(&app.task_data, &task.uuid);
        Some(
            Request {
                method: Method::Delete,
                url: address_with("/delete/task/", task.uuid.as_str(), "?device_identifier=tty"),
                body: Body::Empty,
                cookie: None,
            },
        )
    } else {
        match find_role(app.boards.items(), ARCHIVE_ROLE) {
            Some(index) => {
                let archive = app.boards.items()[index].uuid.clone();
                move_task(app, archive)
            },
            None => None,
        }
    }
}

/// The task that the form for a new task describes, should the state allow
/// one: the form for a new task is loaded with a name, a user is signed in
/// and a board is under the cursor. The task is open, belongs to that user
/// and is bound to that board.
pub open spec fn new_task(pre: App, id: Seq<char>) -> Option<TaskView> {
    match (pre.input_content@.variant, pre.user, pre.selected_board()) {
        (InputContentVariants::CreateTask { name, description }, Some(user), Some(board)) => if input_text(
            name,
        ).len() > 0 {
            Some(
                TaskView {
                    uuid: id,
                    name: input_text(name),
                    description: input_text(description),
                    completed: false,
                    user_uuid: user.uuid@,
                    board_uuid: board.uuid,
                },
            )
        } else {
            None
        },
        _ => None,
    }
}

/// What creating a task under the identity `id` does: where the state
/// allows a new task, it is appended to the store and the service is asked
/// to create it; otherwise nothing happens.
pub open spec fn task_created(pre: App, id: Seq<char>, post: App, request: Option<Request>) -> bool {
    match new_task(pre, id) {
        Some(task) => {
            &&& only_store_changed(pre, post)
            &&& post.store() == pre.store().push(task)
            &&& request.is_some()
            &&& request.unwrap()@ == create_task_request(task)
        },
        None => post == pre && request.is_none(),
    }
}

/// What creating a task under a fresh identity does: where the state allows
/// a new task, the store grows by that task, whose identity has 36
/// characters; otherwise nothing happens.
pub open spec fn fresh_task_created(pre: App, post: App, request: Option<Request>) -> bool {
    if new_task(pre, Seq::empty()) is Some {
        &&& post.store().len() == pre.store().len() + 1
        &&& post.store().last().uuid.len() == 36
        &&& task_created(pre, post.store().last().uuid, post, request)
    } else {
        post == pre && request.is_none()
    }
}

/// Creates the task that the form describes under the identity `id`.
pub fn create_task_with_id(app: &mut App, id: String) -> (request: Option<Request>)
    ensures
        task_created(*old(app), id@, *final(app), request),
{
    let data = match app.input_content.variant() {
        InputContentVariants::CreateTask { .. } => app.input_content.variant().submit(),
        _ => {
            return None;
        },
    };
    let board = match app.boards.selected() {
        Some(board) => board,
        None => {
            return None;
        },
    };
    let user_uuid = match &app.user {
        Some(user) => user.uuid.clone(),
        None => {
            return None;
        },
    };
    match data {
        DataForSubmit::CreateTask { name, description } => {
            if name.as_str().is_empty() {
                return None;
            }
            let task = Task {
                uuid: id,
                name,
                description,
                completed: false,
                user_uuid,
                board_uuid: board.uuid,
            };
            let ghost before = app.task_data@;
            app.task_data.push(task.clone());
            assert(task_views(app.task_data@) =~= task_views(before).push(task@));
            Some(
                Request {
                    method: Method::Post,
                    url: address_of("/post/create_task?device_identifier=tty"),
                    body: Body::Task(task),
                    cookie: None,
                },
            )
        },
        _ => None,
    }
}

/// Creates the task that the form describes under a fresh identity of 36
/// characters. The store grows by that one task where the state allows a new
/// task, and stays as it is otherwise.
pub fn create_task(app: &mut App) -> (request: Option<Request>)
    ensures
        fresh_task_created(*old(app), *final(app), request),
{
    create_task_with_id(app, fresh_id())
}

/// A new task shows at once: it is one more task in the store and one more
/// on screen, behind the others, whatever becomes of the request.
pub proof fn lemma_created_task_is_listed(
    pre: App,
    id: Seq<char>,
    post: App,
    request: Option<Request>,
)
    requires
        new_task(pre, id) is Some,
        task_created(pre, id, post, request),
    ensures
        post.store().len() == pre.store().len() + 1,
        shown_tasks(post.store(), post.board_seq(), post.selected_board()) == shown_tasks(
            pre.store(),
            pre.board_seq(),
            pre.selected_board(),
        ).push(new_task(pre, id).unwrap()),
        shown_tasks(post.store(), post.board_seq(), post.selected_board()).len() == shown_tasks(
            pre.store(),
            pre.board_seq(),
            pre.selected_board(),
        ).len() + 1,
{
    reveal(Seq::filter);
    let task = new_task(pre, id).unwrap();
    assert(pre.store().push(task).drop_last() =~= pre.store());
    assert(pre.store().push(task).last() == task);
}

/// No task with the identity `uuid` is left in `without(tasks, uuid)`, and
/// every other task is kept.
pub proof fn lemma_without_removes(tasks: Seq<TaskView>, uuid: Seq<char>)
    ensures
        forall|index: int|
            0 <= index < without(tasks, uuid).len() ==> (#[trigger] without(
                tasks,
                uuid,
            )[index]).uuid != uuid,
        forall|index: int|
            0 <= index < tasks.len() && tasks[index].uuid != uuid ==> without(
                tasks,
                uuid,
            ).contains(#[trigger] tasks[index]),
        without(tasks, uuid).len() <= tasks.len(),
{
    let pred = |task: TaskView| task.uuid != uuid;
    assert forall|index: int| 0 <= index < without(tasks, uuid).len() implies (#[trigger] without(
        tasks,
        uuid,
    )[index]).uuid != uuid by {
        tasks.lemma_filter_pred(pred, index);
    }
    assert forall|index: int|
        0 <= index < tasks.len() && tasks[index].uuid != uuid implies without(
        tasks,
        uuid,
    ).contains(#[trigger] tasks[index]) by {
        tasks.lemma_filter_contains(pred, index);
    }
    tasks.lemma_filter_len(pred);
}

/// Deleting a task on the archive board removes it from the store: no task
/// with its identity is left.
pub proof fn lemma_delete_on_archive(pre: App, post: App, request: Option<Request>)
    requires
        pre.selected_task() is Some,
        pre.selected_board() is Some,
        pre.selected_board().unwrap().special == Some(ARCHIVE_ROLE),
        task_deleted(pre, post, request),
    ensures
        forall|index: int|
            0 <= index < post.store().len() ==> (#[trigger] post.store()[index]).uuid
                != pre.selected_task().unwrap().uuid,
        request.is_some(),
        request.unwrap()@ == delete_task_request(pre.selected_task().unwrap().uuid),
{
    lemma_without_removes(pre.store(), pre.selected_task().unwrap().uuid);
}

/// Deleting a task on any other board moves it to the archive board, where
/// the user has one: the store keeps its size, every task with the identity
/// of the deleted one is bound to the archive board, and every other task
/// stays as it is.
pub proof fn lemma_delete_elsewhere(pre: App, post: App, request: Option<Request>)
    requires
        pre.selected_task() is Some,
        pre.selected_board() is Some,
        pre.selected_board().unwrap().special != Some(ARCHIVE_ROLE),
        role_uuid(pre.board_seq(), ARCHIVE_ROLE) is Some,
        task_deleted(pre, post, request),
    ensures
        post.store().len() == pre.store().len(),
        forall|index: int|
            0 <= index < pre.store().len() ==> #[trigger] post.store()[index] == if pre.store()[index].uuid
                == pre.selected_task().unwrap().uuid {
                TaskView {
                    board_uuid: role_uuid(pre.board_seq(), ARCHIVE_ROLE).unwrap(),
                    ..pre.store()[index]
                }
            } else {
                pre.store()[index]
            },
        request.is_some(),
{
}

} // verus!
