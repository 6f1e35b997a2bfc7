//! Boards and the actions that change them.

use crate::api::request::{address, address_of, address_with, plain_request, Body, BodyView, Method};
use crate::api::request::{Request, RequestView};
use crate::app::App;
use crate::helper::functions::fresh_id;
use crate::helper::input::{DataForSubmit, InputContentVariants};
use crate::helper::stateful_list::cursor_kept;
use crate::helper::terminal::input_text;
use vstd::prelude::*;

verus! {

/// Role tag of the board that gathers the tasks of all boards.
pub const AGGREGATOR_ROLE: i32 = 1;

/// Role tag of the board that takes deleted tasks in.
pub const ARCHIVE_ROLE: i32 = 2;

/// Role tag of the board whose tasks the aggregator lists.
pub const HOME_ROLE: i32 = 3;

/// A board of the entity store. `special` is the role tag of a system board
/// and is absent on the boards that users make.
#[derive(Debug)]
pub struct Board {
    pub uuid: String,
    pub name: String,
    pub user_uuid: String,
    pub special: Option<i32>,
}

/// A board as a mathematical value: each text as its characters.
pub struct BoardView {
    pub uuid: Seq<char>,
    pub name: Seq<char>,
    pub user_uuid: Seq<char>,
    pub special: Option<i32>,
}

impl View for Board {
    type V = BoardView;

    open spec fn view(&self) -> BoardView {
        BoardView {
            uuid: self.uuid@,
            name: self.name@,
            user_uuid: self.user_uuid@,
            special: self.special,
        }
    }
}

/// The boards of `boards` as mathematical values, in order.
pub open spec fn board_views(boards: Seq<Board>) -> Seq<BoardView> {
    boards.map_values(|board: Board| board@)
}

impl Clone for Board {
    fn clone(&self) -> (copy: Board)
        ensures
            copy == *self,
    {
        Board {
            uuid: self.uuid.clone(),
            name: self.name.clone(),
            user_uuid: self.user_uuid.clone(),
            special: self.special,
        }
    }
}

/// Position of the first board at or behind `from` that carries the role
/// tag `role`.
pub open spec fn role_position(boards: Seq<BoardView>, role: i32, from: int) -> Option<int>
    decreases boards.len() - from,
{
    if from < 0 || from >= boards.len() {
        None
    } else if boards[from].special == Some(role) {
        Some(from)
    } else {
        role_position(boards, role, from + 1)
    }
}

/// The identity of the first board that carries the role tag `role`.
pub open spec fn role_uuid(boards: Seq<BoardView>, role: i32) -> Option<Seq<char>> {
    match role_position(boards, role, 0) {
        Some(index) => Some(boards[index].uuid),
        None => None,
    }
}

/// Finds the first board that carries the role tag `role`.
pub fn find_role(boards: &Vec<Board>, role: i32) -> (found: Option<usize>)
    ensures
        match found {
            Some(index) => role_position(board_views(boards@), role, 0) == Some(index as int)
                && index < boards@.len(),
            None => role_position(board_views(boards@), role, 0) is None,
        },
{
    let mut index: usize = 0;
    while index < boards.len()
        invariant
            index <= boards@.len(),
            role_position(board_views(boards@), role, 0) == role_position(
                board_views(boards@),
                role,
                index as int,
            ),
        decreases boards@.len() - index,
    {
        match boards[index].special {
            Some(tag) => {
                if tag == role {
                    return Some(index);
                }
            },
            None => {},
        }
        index = index + 1;
    }
    None
}

/// `boards` without the boards whose identity is `uuid`, in order.
pub open spec fn boards_without(boards: Seq<BoardView>, uuid: Seq<char>) -> Seq<BoardView> {
    boards.filter(|board: BoardView| board.uuid != uuid)
}

/// The request that creates `board` at the service.
pub open spec fn create_board_request(board: BoardView) -> RequestView {
    plain_request(Method::Post, address("/post/board"@), BodyView::Board(board))
}

/// The request that erases the board `board_uuid` at the service.
pub open spec fn delete_board_request(board_uuid: Seq<char>) -> RequestView {
    plain_request(Method::Delete, address("/delete/board/"@ + board_uuid), BodyView::Empty)
}

/// The request that fetches every board of the user.
pub fn get_all_user_boards() -> (request: Request)
    ensures
        request@ == plain_request(Method::Get, address("/get/all_user_board"@), BodyView::Empty),
{
    Request {
        method: Method::Get,
        url: address_of("/get/all_user_board"),
        body: Body::Empty,
        cookie: None,
    }
}

/// Whether the list of boards alone may differ between `pre` and `post`.
pub open spec fn only_boards_changed(pre: App, post: App) -> bool {
    post == (App { boards: post.boards, ..pre })
}

/// The board that the form for a new board describes, should the state
/// allow one: the form for a new board is loaded with a name and a user is
/// signed in. The board belongs to that user and has no role.
pub open spec fn new_board(pre: App, id: Seq<char>) -> Option<BoardView> {
    match (pre.input_content@.variant, pre.user) {
        (InputContentVariants::CreateBoard { name }, Some(user)) => if input_text(name).len() > 0 {
            Some(BoardView { uuid: id, name: input_text(name), user_uuid: user.uuid@, special: None })
        } else {
            None
        },
        _ => None,
    }
}

/// What creating a board under the identity `id` does: where the state
/// allows a new board, it is appended to the boards, the cursor stays, and
/// the service is asked to create it; otherwise nothing happens.
pub open spec fn board_created(pre: App, id: Seq<char>, post: App, request: Option<Request>) -> bool {
    match new_board(pre, id) {
        Some(board) => {
            &&& only_boards_changed(pre, post)
            &&& post.board_seq() == pre.board_seq().push(board)
            &&& post.boards.cursor() == pre.boards.cursor()
            &&& request.is_some()
            &&& request.unwrap()@ == create_board_request(board)
        },
        None => post == pre && request.is_none(),
    }
}

/// What creating a board under a fresh identity does: where the state
/// allows a new board, the boards grow by that board, whose identity has 36
/// characters; otherwise nothing happens.
pub open spec fn fresh_board_created(pre: App, post: App, request: Option<Request>) -> bool {
    if new_board(pre, Seq::empty()) is Some {
        &&& post.board_seq().len() == pre.board_seq().len() + 1
        &&& post.board_seq().last().uuid.len() == 36
        &&& board_created(pre, post.board_seq().last().uuid, post, request)
    } else {
        post == pre && request.is_none()
    }
}

/// Creates the board that the form describes under the identity `id`.
pub fn create_board_with_id(app: &mut App, id: String) -> (request: Option<Request>)
    ensures
        board_created(*old(app), id@, *final(app), request),
{
    let data = match app.input_content.variant() {
        InputContentVariants::CreateBoard { .. } => app.input_content.variant().submit(),
        _ => {
            return None;
        },
    };
    let user_uuid = match &app.user {
        Some(user) => user.uuid.clone(),
        None => {
            return None;
        },
    };
    match data {
        DataForSubmit::CreateBoard { name } => {
            if name.as_str().is_empty() {
                return None;
            }
            let board = Board { uuid: id, name, user_uuid, special: None };
            let ghost before = app.boards@;
            app.boards.push(board.clone());
            assert(board_views(app.boards@) =~= board_views(before).push(board@));
            Some(
                Request {
                    method: Method::Post,
                    url: address_of("/post/board"),
                    body: Body::Board(board),
                    cookie: None,
                },
            )
        },
        _ => None,
    }
}

/// Creates the board that the form describes under a fresh identity of 36
/// characters. The boards grow by that one board where the state allows a
/// new board, and stay as they are otherwise.
pub fn create_board(app: &mut App) -> (request: Option<Request>)
    ensures
        fresh_board_created(*old(app), *final(app), request),
{
    create_board_with_id(app, fresh_id())
}

/// The boards of `boards` whose identity is not `uuid`, in order.
fn remove_from(boards: &Vec<Board>, uuid: &String) -> (kept: Vec<Board>)
    ensures
        board_views(kept@) == boards_without(board_views(boards@), uuid@),
{
    let ghost all = board_views(boards@);
    let ghost pred = |board: BoardView| board.uuid != uuid@;
    let mut kept: Vec<Board> = Vec::new();
    let mut index: usize = 0;
    proof {
        reveal(Seq::filter);
        assert(all.subrange(0, 0) =~= Seq::<BoardView>::empty());
        assert(board_views(kept@) =~= Seq::<BoardView>::empty());
    }
    while index < boards.len()
        invariant
            index <= boards@.len(),
            all == board_views(boards@),
            pred == |board: BoardView| board.uuid != uuid@,
            board_views(kept@) == all.subrange(0, index as int).filter(pred),
        decreases boards@.len() - index,
    {
        let ghost before = all.subrange(0, index as int);
        let ghost longer = all.subrange(0, index + 1);
        proof {
            reveal(Seq::filter);
            assert(longer.drop_last() =~= before);
            assert(longer.last() == boards@[index as int]@);
        }
        if boards[index].uuid != *uuid {
            let ghost old_kept = kept@;
            kept.push(boards[index].clone());
            assert(board_views(kept@) =~= board_views(old_kept).push(boards@[index as int]@));
        }
        index = index + 1;
    }
    assert(all.subrange(0, index as int) =~= all);
    kept
}

/// What `delete_board` does: with a board under the cursor, every board
/// with that identity leaves the list and the service is asked to erase the
/// board; the cursor stays while it still addresses a board. Without a board
/// under the cursor nothing happens.
pub open spec fn board_deleted(pre: App, post: App, request: Option<Request>) -> bool {
    match pre.selected_board() {
        Some(board) => {
            &&& only_boards_changed(pre, post)
            &&& post.board_seq() == boards_without(pre.board_seq(), board.uuid)
            &&& post.boards.cursor() == cursor_kept(pre.boards.cursor(), post.boards@.len())
            &&& request.is_some()
            &&& request.unwrap()@ == delete_board_request(board.uuid)
        },
        None => post == pre && request.is_none(),
    }
}

/// Deletes the board under the cursor.
pub fn delete_board(app: &mut App) -> (request: Option<Request>)
    ensures
        board_deleted(*old(app), *final(app), request),
{
    match app.boards.selected() {
        Some(board) => {
            let kept = remove_from(app.boards.items(), &board.uuid);
            app.boards.replace_items(kept);
            proof {
                reveal_strlit("");
                assert("/delete/board/"@ + board.uuid@ + ""@ =~= "/delete/board/"@ + board.uuid@);
            }
            Some(
                Request {
                    method: Method::Delete,
                    url: address_with("/delete/board/", board.uuid.as_str(), ""),
                    body: Body::Empty,
                    cookie: None,
                },
            )
        },
        None => None,
    }
}

} // verus!
