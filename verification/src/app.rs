//! The state of the application: who is signed in, the entity store, the two
//! selection lists and the input form.

use crate::api::board::{board_views, Board, BoardView};
use crate::api::task::{task_views, Task, TaskView};
use crate::api::user::{Credentials, User};
use crate::helper::input::InputContent;
use crate::helper::stateful_list::StatefulList;
use vstd::prelude::*;

verus! {

/// Application state.
#[derive(Debug)]
pub struct App {
    /// Cleared when the user asks to leave.
    pub running: bool,
    /// The signed-in account, if any.
    pub user: Option<User>,
    /// The credentials that the next sign-in uses.
    pub credentials: Option<Credentials>,
    /// The boards of the user and the cursor over them.
    pub boards: StatefulList<Board>,
    /// The tasks on screen and the cursor over them.
    pub tasks: StatefulList<Task>,
    /// The entity store: every task of the user.
    pub task_data: Vec<Task>,
    /// Which list takes the key presses: the boards when set, the tasks
    /// otherwise.
    pub selected_widget: bool,
    /// The input form.
    pub input_content: InputContent,
}

impl App {
    /// The entity store as mathematical values.
    pub open spec fn store(&self) -> Seq<TaskView> {
        task_views(self.task_data@)
    }

    /// The boards as mathematical values.
    pub open spec fn board_seq(&self) -> Seq<BoardView> {
        board_views(self.boards@)
    }

    /// The tasks on screen as mathematical values.
    pub open spec fn listed(&self) -> Seq<TaskView> {
        task_views(self.tasks@)
    }

    /// The board under the cursor.
    pub open spec fn selected_board(&self) -> Option<BoardView> {
        match self.boards.cursor() {
            Some(index) => Some(self.boards@[index as int]@),
            None => None,
        }
    }

    /// The task under the cursor.
    pub open spec fn selected_task(&self) -> Option<TaskView> {
        match self.tasks.cursor() {
            Some(index) => Some(self.tasks@[index as int]@),
            None => None,
        }
    }

    /// Whether nobody is signed in and nothing is held: no user, empty
    /// credentials, no boards, no tasks, and the form off screen.
    pub open spec fn signed_out(&self) -> bool {
        &&& self.user is None
        &&& self.credentials is Some
        &&& self.credentials.unwrap().email@.len() == 0
        &&& self.credentials.unwrap().password@.len() == 0
        &&& self.boards@.len() == 0
        &&& self.boards.cursor() is None
        &&& self.tasks@.len() == 0
        &&& self.tasks.cursor() is None
        &&& self.task_data@.len() == 0
        &&& !self.input_content@.visible
        &&& self.input_content@.selected_input == 0
    }

    /// Constructs the state of a fresh start: running, signed out, with the
    /// tasks taking the key presses.
    pub fn new() -> (app: App)
        ensures
            app.running,
            app.signed_out(),
            !app.selected_widget,
            app.input_content@.variant is CreateTask,
            app.input_content@.variant.is_blank(),
    {
        App {
            running: true,
            user: None,
            credentials: Some(Credentials { email: String::new(), password: String::new() }),
            task_data: Vec::new(),
            tasks: StatefulList::with_items(Vec::new()),
            boards: StatefulList::with_items(Vec::new()),
            selected_widget: false,
            input_content: InputContent::default(),
        }
    }

    /// Handles the tick of the terminal, which changes nothing.
    pub fn tick(&self) {
    }

    /// Asks the main loop to stop.
    pub fn quit(&mut self)
        ensures
            *final(self) == (App { running: false, ..*old(self) }),
    {
        self.running = false;
    }
}

impl Default for App {
    fn default() -> (app: App)
        ensures
            app.running,
            app.signed_out(),
            !app.selected_widget,
            app.input_content@.variant is CreateTask,
            app.input_content@.variant.is_blank(),
    {
        App::new()
    }
}

} // verus!
