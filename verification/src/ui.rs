//! What the screen shows, computed from the state: the tasks of the selected
//! board, the rows of the two lists and the place of the input form. Drawing
//! is left to the caller.

use crate::api::board::{find_role, role_position, Board, BoardView, AGGREGATOR_ROLE, HOME_ROLE};
use crate::api::task::{task_views, Task, TaskView};
use crate::app::App;
use crate::helper::input::{cursor_row, FieldBox};
use crate::helper::stateful_list::cursor_kept;
use crate::helper::terminal::input_text;
use vstd::prelude::*;
use vstd::string::StringExecFns;

verus! {

/// Columns that the input form takes.
pub const FORM_WIDTH: u16 = 50;

/// The identity of the board whose tasks the aggregator lists: the first
/// board with the home role or, where no board has it, the first board.
pub open spec fn home_uuid(boards: Seq<BoardView>) -> Option<Seq<char>> {
    match role_position(boards, HOME_ROLE, 0) {
        Some(index) => Some(boards[index].uuid),
        None => if boards.len() > 0 {
            Some(boards[0].uuid)
        } else {
            None
        },
    }
}

/// Whether `task` is on screen while `selected` is the board under the
/// cursor: the tasks of that board are, and with the aggregator selected the
/// tasks of the home board are too.
pub open spec fn task_shown(
    task: TaskView,
    boards: Seq<BoardView>,
    selected: Option<BoardView>,
) -> bool {
    match selected {
        Some(board) => {
            ||| board.special == Some(AGGREGATOR_ROLE) && home_uuid(boards) == Some(task.board_uuid)
            ||| board.uuid == task.board_uuid
        },
        None => false,
    }
}

/// The tasks of `tasks` that are on screen, in order.
pub open spec fn shown_tasks(
    tasks: Seq<TaskView>,
    boards: Seq<BoardView>,
    selected: Option<BoardView>,
) -> Seq<TaskView> {
    tasks.filter(|task: TaskView| task_shown(task, boards, selected))
}

/// The row of `task` in the list of tasks: a mark for done or open, a blank
/// and the name.
pub open spec fn task_row(task: TaskView) -> Seq<char> {
    if task.completed {
        "\u{f046} "@ + task.name
    } else {
        "\u{f096} "@ + task.name
    }
}

/// The left or upper edge of the form on a screen of `size` cells, `back`
/// cells before the middle and never before the first cell.
pub open spec fn form_edge(size: u16, back: u16) -> u16 {
    if size / 2 >= back {
        (size / 2 - back) as u16
    } else {
        0
    }
}

/// The input form on screen.
#[derive(Debug)]
pub struct FormScreen {
    /// Left edge.
    pub x: u16,
    /// Upper edge.
    pub y: u16,
    /// Columns.
    pub width: u16,
    /// Rows.
    pub height: u16,
    /// The fields from top to bottom.
    pub fields: Vec<FieldBox>,
    /// Index of the field that holds the cursor.
    pub cursor_field: usize,
    /// Column of the cursor, counted from the left edge of the form.
    pub cursor_column: u16,
    /// Row of the cursor, counted from the upper edge of its field.
    pub cursor_row: u16,
}

/// One frame.
#[derive(Debug)]
pub struct Screen {
    /// The name in the bar at the top.
    pub username: String,
    /// The rows of the list of tasks.
    pub tasks: Vec<String>,
    /// The rows of the list of boards.
    pub boards: Vec<String>,
    /// Whether the list of boards takes the key presses.
    pub boards_focused: bool,
    /// The input form, while it is on screen.
    pub form: Option<FormScreen>,
}

/// Whether `rows` holds the row of each task of `tasks`, in order.
pub open spec fn rows_of_tasks(rows: Seq<String>, tasks: Seq<TaskView>) -> bool {
    &&& rows.len() == tasks.len()
    &&& forall|index: int| 0 <= index < rows.len() ==> (#[trigger] rows[index])@ == task_row(tasks[index])
}

/// Whether `rows` holds the name of each board of `boards`, in order.
pub open spec fn rows_of_boards(rows: Seq<String>, boards: Seq<BoardView>) -> bool {
    &&& rows.len() == boards.len()
    &&& forall|index: int| 0 <= index < rows.len() ==> (#[trigger] rows[index])@ == boards[index].name
}

/// Whether `form` shows the input form of `app` on a screen of `width`
/// columns and `height` rows.
pub open spec fn form_of(form: FormScreen, app: App, width: u16, height: u16) -> bool {
    &&& form.x == form_edge(width, 20)
    &&& form.y == form_edge(height, 5)
    &&& form.width == FORM_WIDTH
    &&& form.height == app.input_content@.height()
    &&& app.input_content@.drawn_as(form.fields@)
    &&& form.cursor_field == app.input_content@.selected_input
    &&& form.cursor_column == app.input_content@.column()
    &&& form.cursor_row == cursor_row(
        input_text(app.input_content@.selected_field()).len(),
        app.input_content@.variant.field_rows(app.input_content@.selected_input),
    )
}

/// Whether `task` is on screen.
fn is_shown(task: &Task, selected: &Option<Board>, home: &Option<String>) -> (shown: bool)
    ensures
        shown == match *selected {
            Some(board) => {
                ||| board.special == Some(AGGREGATOR_ROLE) && home.is_some() && home.unwrap()@
                    == task.board_uuid@
                ||| board.uuid@ == task.board_uuid@
            },
            None => false,
        },
{
    match selected {
        Some(board) => {
            let aggregated = match board.special {
                Some(tag) => tag == AGGREGATOR_ROLE,
                None => false,
            };
            let at_home = match home {
                Some(uuid) => *uuid == task.board_uuid,
                None => false,
            };
            aggregated && at_home || board.uuid == task.board_uuid
        },
        None => false,
    }
}

/// The tasks of the entity store that are on screen for the board under the
/// cursor, in the order of the store.
pub fn tasks_to_display(app: &App) -> (shown: Vec<Task>)
    ensures
        task_views(shown@) == shown_tasks(app.store(), app.board_seq(), app.selected_board()),
{
    let boards = app.boards.items();
    let selected = app.boards.selected();
    let home: Option<String> = match find_role(boards, HOME_ROLE) {
        Some(index) => Some(boards[index].uuid.clone()),
        None => if boards.len() > 0 {
            Some(boards[0].uuid.clone())
        } else {
            None
        },
    };
    let ghost views = app.board_seq();
    let ghost chosen = app.selected_board();
    let ghost pred = |task: TaskView| task_shown(task, views, chosen);
    let mut shown: Vec<Task> = Vec::new();
    let mut index: usize = 0;
    proof {
        reveal(Seq::filter);
        assert(app.store().subrange(0, 0) =~= Seq::<TaskView>::empty());
        assert(task_views(shown@) =~= Seq::<TaskView>::empty());
    }
    while index < app.task_data.len()
        invariant
            index <= app.task_data@.len(),
            views == app.board_seq(),
            chosen == app.selected_board(),
            pred == |task: TaskView| task_shown(task, views, chosen),
            match home {
                Some(uuid) => home_uuid(views) == Some(uuid@),
                None => home_uuid(views) is None,
            },
            match selected {
                Some(board) => chosen == Some(board@),
                None => chosen is None,
            },
            task_views(shown@) == app.store().subrange(0, index as int).filter(pred),
        decreases app.task_data@.len() - index,
    {
        let task = &app.task_data[index];
        let ghost before = app.store().subrange(0, index as int);
        let ghost longer = app.store().subrange(0, index + 1);
        proof {
            reveal(Seq::filter);
            assert(longer.drop_last() =~= before);
            assert(longer.last() == task@);
        }
        if is_shown(task, &selected, &home) {
            let ghost old_shown = shown@;
            shown.push(task.clone());
            assert(task_views(shown@) =~= task_views(old_shown).push(task@));
        }
        index = index + 1;
    }
    assert(app.store().subrange(0, index as int) =~= app.store());
    shown
}

/// The row of `task` in the list of tasks.
pub fn task_label(task: &Task) -> (row: String)
    ensures
        row@ == task_row(task@),
{
    let mut row = if task.completed {
        String::from_str("\u{f046} ")
    } else {
        String::from_str("\u{f096} ")
    };
    row.append(task.name.as_str());
    row
}

/// The left or upper edge of the form on a screen of `size` cells.
fn edge(size: u16, back: u16) -> (at: u16)
    ensures
        at == form_edge(size, back),
{
    if size / 2 >= back {
        size / 2 - back
    } else {
        0
    }
}

/// Computes one frame for a screen of `width` columns and `height` rows. The
/// list of tasks is first set to the tasks of the board under the cursor; its
/// cursor stays while it addresses one of them. Nothing else changes.
pub fn render(app: &mut App, width: u16, height: u16) -> (screen: Screen)
    ensures
        *final(app) == (App { tasks: final(app).tasks, ..*old(app) }),
        final(app).listed() == shown_tasks(
            old(app).store(),
            old(app).board_seq(),
            old(app).selected_board(),
        ),
        final(app).tasks.cursor() == cursor_kept(
            old(app).tasks.cursor(),
            final(app).tasks@.len(),
        ),
        screen.username@ == match old(app).user {
            Some(user) => user.name@,
            None => "Guest"@,
        },
        rows_of_tasks(screen.tasks@, final(app).listed()),
        rows_of_boards(screen.boards@, old(app).board_seq()),
        screen.boards_focused == old(app).selected_widget,
        screen.form.is_some() == old(app).input_content@.visible,
        screen.form.is_some() ==> form_of(screen.form.unwrap(), *old(app), width, height),
{
    let username = match &app.user {
        Some(user) => user.name.clone(),
        None => String::from_str("Guest"),
    };
    let shown = tasks_to_display(app);
    app.tasks.replace_items(shown);

    let mut tasks: Vec<String> = Vec::new();
    let mut index: usize = 0;
    while index < app.tasks.len()
        invariant
            index <= app.tasks@.len(),
            tasks@.len() == index,
            forall|k: int| 0 <= k < tasks@.len() ==> (#[trigger] tasks@[k])@ == task_row(app.listed()[k]),
        decreases app.tasks@.len() - index,
    {
        tasks.push(task_label(&app.tasks.items()[index]));
        index = index + 1;
    }

    let mut boards: Vec<String> = Vec::new();
    let mut index: usize = 0;
    while index < app.boards.len()
        invariant
            index <= app.boards@.len(),
            boards@.len() == index,
            forall|k: int| 0 <= k < boards@.len() ==> (#[trigger] boards@[k])@ == app.board_seq()[k].name,
        decreases app.boards@.len() - index,
    {
        boards.push(app.boards.items()[index].name.clone());
        index = index + 1;
    }

    let form = if app.input_content.visible() {
        let at = app.input_content.cursor_coordinates();
        Some(
            FormScreen {
                x: edge(width, 20),
                y: edge(height, 5),
                width: FORM_WIDTH,
                height: app.input_content.form_height(),
                fields: app.input_content.ui_to_render(),
                cursor_field: app.input_content.selected_input(),
                cursor_column: app.input_content.cursor_column(),
                cursor_row: at.1,
            },
        )
    } else {
        None
    };
    Screen { username, tasks, boards, boards_focused: app.selected_widget, form }
}

} // verus!
