//! The modal input form: a closed set of form variants, each with its own
//! text fields, one of which takes the key presses.

use crate::helper::terminal::{
    empty_input, input_after_key, input_handle, input_text, input_value, is_backspace,
    key_is_backspace,
};
use crossterm::event::KeyEvent;
use tui_input::Input;
use vstd::prelude::*;
use vstd::string::{StrSliceExecFns, StringExecFns};

verus! {

/// Characters that fit on one line of a field.
pub const WINDOW_WIDTH: usize = 47;

/// Lines of a short field.
pub const SMALL_INPUT: usize = 1;

/// Lines of a long field.
pub const BIG_INPUT: usize = 4;

/// Whether key presses move through the lists or edit a text.
#[derive(Debug, Clone, Copy, PartialEq, Eq, Structural)]
pub enum InputMode {
    Normal,
    Editing,
}

/// A single text prompt.
#[derive(Debug)]
pub struct InputState {
    pub visible: bool,
    pub value: Input,
    pub input_mode: InputMode,
}

/// The forms that the engine can show, each with its text fields in the order
/// in which the cursor visits them.
#[derive(Debug)]
pub enum InputContentVariants {
    CreateTask { name: Input, description: Input },
    CreateBoard { name: Input },
    UpdateTask { name: Input, description: Input },
    LogIn { email: Input, password: Input },
    SignUp { email: Input, password: Input, name: Input },
    ChangeUsername { name: Input },
}

/// Which form it is, whatever its fields hold.
#[derive(Debug, Clone, Copy, PartialEq, Eq, Structural)]
pub enum FormKind {
    CreateTask,
    CreateBoard,
    UpdateTask,
    LogIn,
    SignUp,
    ChangeUsername,
}

/// The texts of a committed form.
#[derive(Debug)]
pub enum DataForSubmit {
    CreateTask { name: String, description: String },
    CreateBoard { name: String },
    UpdateTask { name: String, description: String },
    LogIn { email: String, password: String },
    SignUp { email: String, password: String, name: String },
    ChangeUsername { name: String },
}

/// A committed form as a mathematical value: each text as its characters.
pub enum SubmitView {
    CreateTask { name: Seq<char>, description: Seq<char> },
    CreateBoard { name: Seq<char> },
    UpdateTask { name: Seq<char>, description: Seq<char> },
    LogIn { email: Seq<char>, password: Seq<char> },
    SignUp { email: Seq<char>, password: Seq<char>, name: Seq<char> },
    ChangeUsername { name: Seq<char> },
}

impl View for DataForSubmit {
    type V = SubmitView;

    open spec fn view(&self) -> SubmitView {
        match self {
            DataForSubmit::CreateTask { name, description } => SubmitView::CreateTask {
                name: name@,
                description: description@,
            },
            DataForSubmit::CreateBoard { name } => SubmitView::CreateBoard { name: name@ },
            DataForSubmit::UpdateTask { name, description } => SubmitView::UpdateTask {
                name: name@,
                description: description@,
            },
            DataForSubmit::LogIn { email, password } => SubmitView::LogIn {
                email: email@,
                password: password@,
            },
            DataForSubmit::SignUp { email, password, name } => SubmitView::SignUp {
                email: email@,
                password: password@,
                name: name@,
            },
            DataForSubmit::ChangeUsername { name } => SubmitView::ChangeUsername { name: name@ },
        }
    }
}

/// `text` with a line feed in front of every character whose index is a
/// positive multiple of the line width.
pub open spec fn line_broken(text: Seq<char>) -> Seq<char>
    decreases text.len(),
{
    if text.len() == 0 {
        text
    } else {
        let index = text.len() - 1;
        let head = line_broken(text.drop_last());
        if index % 47 == 0 && index != 0 {
            head.push('\n').push(text.last())
        } else {
            head.push(text.last())
        }
    }
}

/// Breaks `text` into lines of the window width.
pub fn line_break_text(text: String) -> (broken: String)
    ensures
        broken@ == line_broken(text@),
{
    let source = text.as_str();
    let len: usize = source.unicode_len();
    let mut name_to_render = String::new();
    let mut index: usize = 0;
    assert(text@.subrange(0, 0) =~= Seq::<char>::empty());
    while index < len
        invariant
            source@ == text@,
            len == text@.len(),
            index <= len,
            name_to_render@ == line_broken(text@.subrange(0, index as int)),
        decreases len - index,
    {
        let ghost prefix = text@.subrange(0, index as int);
        let ghost longer = text@.subrange(0, index + 1);
        proof {
            reveal_strlit("\n");
            assert(longer.drop_last() =~= prefix);
            assert(longer.last() == text@[index as int]);
        }
        if index % WINDOW_WIDTH == 0 && index != 0 {
            name_to_render.append("\n");
            assert(name_to_render@ =~= line_broken(prefix).push('\n'));
        }
        let one = source.substring_char(index, index + 1);
        assert(one@ =~= seq![text@[index as int]]);
        let ghost before = name_to_render@;
        name_to_render.append(one);
        assert(name_to_render@ =~= before.push(text@[index as int]));
        index = index + 1;
    }
    assert(text@.subrange(0, len as int) =~= text@);
    name_to_render
}

/// The field `input` after `key` under a limit of `limit` characters: a full
/// field takes a plain backspace and nothing else.
pub open spec fn field_keypress(input: Input, limit: nat, key: KeyEvent) -> Input {
    if input_text(input).len() < limit || key_is_backspace(key) {
        input_after_key(input, key)
    } else {
        input
    }
}

/// Hands `key` to `input` unless the field is full; a plain backspace is
/// handed on in any case. A field within its limit stays within it.
pub fn field_after_key(input: Input, limit: usize, key: &KeyEvent) -> (edited: Input)
    ensures
        edited == field_keypress(input, limit as nat, *key),
        input_text(input).len() <= limit ==> input_text(edited).len() <= limit,
        input_text(input).len() >= limit ==> input_text(edited).len() <= input_text(input).len(),
{
    let text = input_value(&input);
    if text.as_str().unicode_len() < limit || is_backspace(key) {
        input_handle(input, key)
    } else {
        input
    }
}

impl InputContentVariants {
    /// Number of text fields of the form.
    pub open spec fn field_count(&self) -> nat {
        match self {
            InputContentVariants::CreateTask { .. } => 2,
            InputContentVariants::CreateBoard { .. } => 1,
            InputContentVariants::UpdateTask { .. } => 2,
            InputContentVariants::LogIn { .. } => 2,
            InputContentVariants::SignUp { .. } => 3,
            InputContentVariants::ChangeUsername { .. } => 1,
        }
    }

    /// Which form it is.
    pub open spec fn kind(&self) -> FormKind {
        match self {
            InputContentVariants::CreateTask { .. } => FormKind::CreateTask,
            InputContentVariants::CreateBoard { .. } => FormKind::CreateBoard,
            InputContentVariants::UpdateTask { .. } => FormKind::UpdateTask,
            InputContentVariants::LogIn { .. } => FormKind::LogIn,
            InputContentVariants::SignUp { .. } => FormKind::SignUp,
            InputContentVariants::ChangeUsername { .. } => FormKind::ChangeUsername,
        }
    }

    /// Whether `self` and `other` are the same form, whatever their fields
    /// hold.
    pub open spec fn same_form(&self, other: &InputContentVariants) -> bool {
        self.kind() == other.kind()
    }

    /// The field at `index`, in the order in which the cursor visits the
    /// fields. An index behind the last field names the last field.
    pub open spec fn field(&self, index: nat) -> Input {
        match self {
            InputContentVariants::CreateTask { name, description } => if index == 0 {
                *name
            } else {
                *description
            },
            InputContentVariants::CreateBoard { name } => *name,
            InputContentVariants::UpdateTask { name, description } => if index == 0 {
                *name
            } else {
                *description
            },
            InputContentVariants::LogIn { email, password } => if index == 0 {
                *email
            } else {
                *password
            },
            InputContentVariants::SignUp { email, password, name } => if index == 0 {
                *email
            } else if index == 1 {
                *password
            } else {
                *name
            },
            InputContentVariants::ChangeUsername { name } => *name,
        }
    }

    /// Most characters that the field at `index` takes: four lines for the
    /// description of a task, one line for every other field.
    pub open spec fn field_limit(&self, index: nat) -> nat {
        match self {
            InputContentVariants::CreateTask { .. } | InputContentVariants::UpdateTask { .. } =>
                if index == 1 {
                    188
                } else {
                    47
                },
            _ => 47,
        }
    }

    /// Lines that the field at `index` shows.
    pub open spec fn field_rows(&self, index: nat) -> nat {
        match self {
            InputContentVariants::CreateTask { .. } | InputContentVariants::UpdateTask { .. } =>
                if index == 1 {
                    4
                } else {
                    1
                },
            _ => 1,
        }
    }

    /// The form with `input` in place of the field at `index`; an index
    /// behind the last field changes nothing.
    pub open spec fn with_field(&self, index: nat, input: Input) -> InputContentVariants {
        match self {
            InputContentVariants::CreateTask { name, description } => if index == 0 {
                InputContentVariants::CreateTask { name: input, description: *description }
            } else if index == 1 {
                InputContentVariants::CreateTask { name: *name, description: input }
            } else {
                *self
            },
            InputContentVariants::CreateBoard { name } => if index == 0 {
                InputContentVariants::CreateBoard { name: input }
            } else {
                *self
            },
            InputContentVariants::UpdateTask { name, description } => if index == 0 {
                InputContentVariants::UpdateTask { name: input, description: *description }
            } else if index == 1 {
                InputContentVariants::UpdateTask { name: *name, description: input }
            } else {
                *self
            },
            InputContentVariants::LogIn { email, password } => if index == 0 {
                InputContentVariants::LogIn { email: input, password: *password }
            } else if index == 1 {
                InputContentVariants::LogIn { email: *email, password: input }
            } else {
                *self
            },
            InputContentVariants::SignUp { email, password, name } => if index == 0 {
                InputContentVariants::SignUp { email: input, password: *password, name: *name }
            } else if index == 1 {
                InputContentVariants::SignUp { email: *email, password: input, name: *name }
            } else if index == 2 {
                InputContentVariants::SignUp { email: *email, password: *password, name: input }
            } else {
                *self
            },
            InputContentVariants::ChangeUsername { name } => if index == 0 {
                InputContentVariants::ChangeUsername { name: input }
            } else {
                *self
            },
        }
    }

    /// Whether no field of the form holds a character.
    pub open spec fn is_blank(&self) -> bool {
        forall|index: nat| index < self.field_count() ==> input_text(#[trigger] self.field(index)).len() == 0
    }

    /// The form after `key` went to the field at `index`: that field is
    /// edited under its limit, every other field stays.
    pub open spec fn keypress(&self, index: nat, key: KeyEvent) -> InputContentVariants {
        if index < self.field_count() {
            self.with_field(index, field_keypress(self.field(index), self.field_limit(index), key))
        } else {
            *self
        }
    }

    /// The texts of the fields as a payload of the same form.
    pub open spec fn payload(&self) -> SubmitView {
        match self {
            InputContentVariants::CreateTask { name, description } => SubmitView::CreateTask {
                name: input_text(*name),
                description: input_text(*description),
            },
            InputContentVariants::CreateBoard { name } => SubmitView::CreateBoard {
                name: input_text(*name),
            },
            InputContentVariants::UpdateTask { name, description } => SubmitView::UpdateTask {
                name: input_text(*name),
                description: input_text(*description),
            },
            InputContentVariants::LogIn { email, password } => SubmitView::LogIn {
                email: input_text(*email),
                password: input_text(*password),
            },
            InputContentVariants::SignUp { email, password, name } => SubmitView::SignUp {
                email: input_text(*email),
                password: input_text(*password),
                name: input_text(*name),
            },
            InputContentVariants::ChangeUsername { name } => SubmitView::ChangeUsername {
                name: input_text(*name),
            },
        }
    }
}

impl Clone for InputContentVariants {
    fn clone(&self) -> (copy: InputContentVariants)
        ensures
            copy == *self,
    {
        match self {
            InputContentVariants::CreateTask { name, description } => InputContentVariants::CreateTask {
                name: name.clone(),
                description: description.clone(),
            },
            InputContentVariants::CreateBoard { name } => InputContentVariants::CreateBoard {
                name: name.clone(),
            },
            InputContentVariants::UpdateTask { name, description } => InputContentVariants::UpdateTask {
                name: name.clone(),
                description: description.clone(),
            },
            InputContentVariants::LogIn { email, password } => InputContentVariants::LogIn {
                email: email.clone(),
                password: password.clone(),
            },
            InputContentVariants::SignUp { email, password, name } => InputContentVariants::SignUp {
                email: email.clone(),
                password: password.clone(),
                name: name.clone(),
            },
            InputContentVariants::ChangeUsername { name } => InputContentVariants::ChangeUsername {
                name: name.clone(),
            },
        }
    }
}

impl PartialEq for InputContentVariants {
    /// Two forms are equal when they are the same form; what their fields
    /// hold plays no part.
    fn eq(&self, other: &InputContentVariants) -> (same: bool) {
        match self {
            InputContentVariants::CreateTask { .. } => matches!(other, InputContentVariants::CreateTask { .. }),
            InputContentVariants::CreateBoard { .. } => matches!(other, InputContentVariants::CreateBoard { .. }),
            InputContentVariants::UpdateTask { .. } => matches!(other, InputContentVariants::UpdateTask { .. }),
            InputContentVariants::LogIn { .. } => matches!(other, InputContentVariants::LogIn { .. }),
            InputContentVariants::SignUp { .. } => matches!(other, InputContentVariants::SignUp { .. }),
            InputContentVariants::ChangeUsername { .. } => matches!(
                other,
                InputContentVariants::ChangeUsername { .. }
            ),
        }
    }
}

impl vstd::std_specs::cmp::PartialEqSpecImpl for InputContentVariants {
    open spec fn obeys_eq_spec() -> bool {
        true
    }

    open spec fn eq_spec(&self, other: &InputContentVariants) -> bool {
        self.same_form(other)
    }
}

impl InputContentVariants {
    /// Which form it is.
    pub fn form_kind(&self) -> (kind: FormKind)
        ensures
            kind == self.kind(),
    {
        match self {
            InputContentVariants::CreateTask { .. } => FormKind::CreateTask,
            InputContentVariants::CreateBoard { .. } => FormKind::CreateBoard,
            InputContentVariants::UpdateTask { .. } => FormKind::UpdateTask,
            InputContentVariants::LogIn { .. } => FormKind::LogIn,
            InputContentVariants::SignUp { .. } => FormKind::SignUp,
            InputContentVariants::ChangeUsername { .. } => FormKind::ChangeUsername,
        }
    }

    /// An empty form of the kind `kind`.
    pub fn empty(kind: FormKind) -> (form: InputContentVariants)
        ensures
            form.kind() == kind,
            form.is_blank(),
    {
        match kind {
            FormKind::CreateTask => InputContentVariants::CreateTask {
                name: empty_input(),
                description: empty_input(),
            },
            FormKind::CreateBoard => InputContentVariants::CreateBoard { name: empty_input() },
            FormKind::UpdateTask => InputContentVariants::UpdateTask {
                name: empty_input(),
                description: empty_input(),
            },
            FormKind::LogIn => InputContentVariants::LogIn {
                email: empty_input(),
                password: empty_input(),
            },
            FormKind::SignUp => InputContentVariants::SignUp {
                email: empty_input(),
                password: empty_input(),
                name: empty_input(),
            },
            FormKind::ChangeUsername => InputContentVariants::ChangeUsername {
                name: empty_input(),
            },
        }
    }

    /// Number of text fields of the form.
    pub fn fields(&self) -> (count: usize)
        ensures
            count == self.field_count(),
            1 <= count <= 3,
    {
        match self {
            InputContentVariants::CreateTask { .. } => 2,
            InputContentVariants::CreateBoard { .. } => 1,
            InputContentVariants::UpdateTask { .. } => 2,
            InputContentVariants::LogIn { .. } => 2,
            InputContentVariants::SignUp { .. } => 3,
            InputContentVariants::ChangeUsername { .. } => 1,
        }
    }

    /// The field at `index`; an index behind the last field gives the last
    /// field.
    pub fn input_at(&self, index: usize) -> (input: &Input)
        ensures
            *input == self.field(index as nat),
    {
        match self {
            InputContentVariants::CreateTask { name, description } => if index == 0 {
                name
            } else {
                description
            },
            InputContentVariants::CreateBoard { name } => name,
            InputContentVariants::UpdateTask { name, description } => if index == 0 {
                name
            } else {
                description
            },
            InputContentVariants::LogIn { email, password } => if index == 0 {
                email
            } else {
                password
            },
            InputContentVariants::SignUp { email, password, name } => if index == 0 {
                email
            } else if index == 1 {
                password
            } else {
                name
            },
            InputContentVariants::ChangeUsername { name } => name,
        }
    }

    /// Most characters that the field at `index` takes.
    pub fn limit_at(&self, index: usize) -> (limit: usize)
        ensures
            limit == self.field_limit(index as nat),
    {
        match self {
            InputContentVariants::CreateTask { .. } | InputContentVariants::UpdateTask { .. } =>
                if index == 1 {
                    WINDOW_WIDTH * BIG_INPUT
                } else {
                    WINDOW_WIDTH * SMALL_INPUT
                },
            _ => WINDOW_WIDTH * SMALL_INPUT,
        }
    }

    /// Lines that the field at `index` shows.
    pub fn rows_at(&self, index: usize) -> (rows: usize)
        ensures
            rows == self.field_rows(index as nat),
    {
        match self {
            InputContentVariants::CreateTask { .. } | InputContentVariants::UpdateTask { .. } =>
                if index == 1 {
                    BIG_INPUT
                } else {
                    SMALL_INPUT
                },
            _ => SMALL_INPUT,
        }
    }

    /// The same form with empty fields.
    pub fn blank(&self) -> (form: InputContentVariants)
        ensures
            form.same_form(self),
            form.is_blank(),
    {
        InputContentVariants::empty(self.form_kind())
    }

    /// Hands `key` to the field at `index` under that field's limit; an
    /// index behind the last field changes nothing.
    pub fn after_key(self, index: usize, key: &KeyEvent) -> (form: InputContentVariants)
        ensures
            form == self.keypress(index as nat, *key),
            form.same_form(&self),
            index < self.field_count() && input_text(self.field(index as nat)).len()
                <= self.field_limit(index as nat) ==> input_text(form.field(index as nat)).len()
                <= self.field_limit(index as nat),
            index < self.field_count() && input_text(self.field(index as nat)).len()
                >= self.field_limit(index as nat) ==> input_text(form.field(index as nat)).len()
                <= input_text(self.field(index as nat)).len(),
    {
        let limit: usize = self.limit_at(index);
        match self {
            InputContentVariants::CreateTask { name, description } => if index == 0 {
                InputContentVariants::CreateTask {
                    name: field_after_key(name, limit, key),
                    description,
                }
            } else if index == 1 {
                InputContentVariants::CreateTask {
                    name,
                    description: field_after_key(description, limit, key),
                }
            } else {
                InputContentVariants::CreateTask { name, description }
            },
            InputContentVariants::CreateBoard { name } => if index == 0 {
                InputContentVariants::CreateBoard { name: field_after_key(name, limit, key) }
            } else {
                InputContentVariants::CreateBoard { name }
            },
            InputContentVariants::UpdateTask { name, description } => if index == 0 {
                InputContentVariants::UpdateTask {
                    name: field_after_key(name, limit, key),
                    description,
                }
            } else if index == 1 {
                InputContentVariants::UpdateTask {
                    name,
                    description: field_after_key(description, limit, key),
                }
            } else {
                InputContentVariants::UpdateTask { name, description }
            },
            InputContentVariants::LogIn { email, password } => if index == 0 {
                InputContentVariants::LogIn { email: field_after_key(email, limit, key), password }
            } else if index == 1 {
                InputContentVariants::LogIn { email, password: field_after_key(password, limit, key) }
            } else {
                InputContentVariants::LogIn { email, password }
            },
            InputContentVariants::SignUp { email, password, name } => if index == 0 {
                InputContentVariants::SignUp {
                    email: field_after_key(email, limit, key),
                    password,
                    name,
                }
            } else if index == 1 {
                InputContentVariants::SignUp {
                    email,
                    password: field_after_key(password, limit, key),
                    name,
                }
            } else if index == 2 {
                InputContentVariants::SignUp {
                    email,
                    password,
                    name: field_after_key(name, limit, key),
                }
            } else {
                InputContentVariants::SignUp { email, password, name }
            },
            InputContentVariants::ChangeUsername { name } => if index == 0 {
                InputContentVariants::ChangeUsername { name: field_after_key(name, limit, key) }
            } else {
                InputContentVariants::ChangeUsername { name }
            },
        }
    }

    /// The texts of the fields as a payload of the same form.
    pub fn submit(&self) -> (data: DataForSubmit)
        ensures
            data@ == self.payload(),
    {
        match self {
            InputContentVariants::CreateTask { name, description } => DataForSubmit::CreateTask {
                name: input_value(name),
                description: input_value(description),
            },
            InputContentVariants::CreateBoard { name } => DataForSubmit::CreateBoard {
                name: input_value(name),
            },
            InputContentVariants::UpdateTask { name, description } => DataForSubmit::UpdateTask {
                name: input_value(name),
                description: input_value(description),
            },
            InputContentVariants::LogIn { email, password } => DataForSubmit::LogIn {
                email: input_value(email),
                password: input_value(password),
            },
            InputContentVariants::SignUp { email, password, name } => DataForSubmit::SignUp {
                email: input_value(email),
                password: input_value(password),
                name: input_value(name),
            },
            InputContentVariants::ChangeUsername { name } => DataForSubmit::ChangeUsername {
                name: input_value(name),
            },
        }
    }
}

/// The row of the cursor in a field that holds `len` characters and shows
/// `rows` lines: one line down for every full line, never below the last
/// line of the field.
pub open spec fn cursor_row(len: nat, rows: nat) -> nat {
    if 1 + len / 47 < rows {
        1 + len / 47
    } else {
        rows
    }
}

/// What the screen shows of one field of the form.
#[derive(Debug)]
pub struct FieldBox {
    /// The caption above the field.
    pub title: String,
    /// The text of the field, broken into lines where the field is long.
    pub text: String,
    /// Whether the field takes the key presses.
    pub selected: bool,
}

/// The input form as a mathematical value.
pub struct InputContentView {
    pub visible: bool,
    pub selected_input: nat,
    pub variant: InputContentVariants,
}

/// The input form: the form that is loaded, the field that takes the key
/// presses and whether the form is on screen.
#[derive(Debug)]
pub struct InputContent {
    pub(crate) visible: bool,
    pub(crate) selected_input: usize,
    pub(crate) variant: InputContentVariants,
}

impl View for InputContent {
    type V = InputContentView;

    closed spec fn view(&self) -> InputContentView {
        InputContentView {
            visible: self.visible,
            selected_input: self.selected_input as nat,
            variant: self.variant,
        }
    }
}

impl InputContentView {
    /// The selected field is a field of the loaded form.
    pub open spec fn wf(&self) -> bool {
        self.selected_input < self.variant.field_count()
    }

    /// The field that takes the key presses.
    pub open spec fn selected_field(&self) -> Input {
        self.variant.field(self.selected_input)
    }

    /// The caption of the field at `index`.
    pub open spec fn title(&self, index: nat) -> Seq<char> {
        match self.variant {
            InputContentVariants::CreateTask { .. } => if index == 0 {
                "New task Name"@
            } else {
                "Description (optinal)"@
            },
            InputContentVariants::CreateBoard { .. } => "New board Name"@,
            InputContentVariants::UpdateTask { .. } => if index == 0 {
                "Update task Name"@
            } else {
                "Update task Description"@
            },
            InputContentVariants::LogIn { .. } => if index == 0 {
                "Log in Email"@
            } else {
                "password"@
            },
            InputContentVariants::SignUp { .. } => if index == 0 {
                "Sign up Email"@
            } else if index == 1 {
                "Name"@
            } else {
                "Password (will be encrypted)"@
            },
            InputContentVariants::ChangeUsername { .. } => "Change username"@,
        }
    }

    /// The text that the screen shows for the field at `index`: a long field
    /// is broken into lines.
    pub open spec fn shown_text(&self, index: nat) -> Seq<char> {
        let text = input_text(self.variant.field(index));
        if self.variant.field_rows(index) > 1 {
            line_broken(text)
        } else {
            text
        }
    }

    /// Whether `boxes` is what the screen shows of the form: one box for
    /// each field, in order, with its caption, its text and whether it is the
    /// selected field.
    pub open spec fn drawn_as(&self, boxes: Seq<FieldBox>) -> bool {
        &&& boxes.len() == self.variant.field_count()
        &&& forall|index: int|
            0 <= index < boxes.len() ==> {
                &&& (#[trigger] boxes[index]).title@ == self.title(index as nat)
                &&& boxes[index].text@ == self.shown_text(index as nat)
                &&& boxes[index].selected == (index == self.selected_input)
            }
    }

    /// The column of the cursor, counted from the left edge of the form. In a
    /// short field it is one behind the text. The description of a new task
    /// wraps at the line width and moves one column to the right on every
    /// line; the description of a task under change wraps and does not move.
    /// No column lies behind the last one that there is.
    pub open spec fn column(&self) -> nat {
        let len = input_text(self.selected_field()).len();
        if len >= u16::MAX {
            u16::MAX as nat
        } else {
            match self.variant {
                InputContentVariants::CreateTask { .. } => if self.selected_input == 1 {
                    (len + 1) % 48 + len / 48
                } else {
                    len + 1
                },
                InputContentVariants::UpdateTask { .. } => if self.selected_input == 1 {
                    (len + 1) % 48
                } else {
                    len + 1
                },
                _ => len + 1,
            }
        }
    }

    /// Rows of the screen that the form takes.
    pub open spec fn height(&self) -> nat {
        match self.variant {
            InputContentVariants::CreateTask { .. } => 9,
            InputContentVariants::CreateBoard { .. } => 3,
            InputContentVariants::UpdateTask { .. } => 9,
            InputContentVariants::LogIn { .. } => 6,
            InputContentVariants::SignUp { .. } => 9,
            InputContentVariants::ChangeUsername { .. } => 3,
        }
    }

    /// The form after `show` was asked for `wanted`: the loaded form toggles
    /// its visibility and keeps the rest; another form is loaded empty and
    /// shown, with the first field selected.
    pub open spec fn shows(&self, wanted: FormKind, after: InputContentView) -> bool {
        if self.variant.kind() == wanted {
            after == (InputContentView { visible: !self.visible, ..*self })
        } else {
            &&& after.visible
            &&& after.selected_input == 0
            &&& after.variant.kind() == wanted
            &&& after.variant.is_blank()
        }
    }

    /// The form off screen with the first field selected; the fields keep
    /// their texts.
    pub open spec fn hidden(&self) -> InputContentView {
        InputContentView { visible: false, selected_input: 0, variant: self.variant }
    }
}

impl Clone for InputContent {
    fn clone(&self) -> (copy: InputContent)
        ensures
            copy@ == self@,
    {
        proof {
            use_type_invariant(self);
        }
        InputContent {
            visible: self.visible,
            selected_input: self.selected_input,
            variant: self.variant.clone(),
        }
    }
}

impl Default for InputContent {
    /// The empty form for a new task, off screen.
    fn default() -> (form: InputContent)
        ensures
            !form@.visible,
            form@.selected_input == 0,
            form@.variant is CreateTask,
            form@.variant.is_blank(),
            form@.wf(),
    {
        let variant = InputContentVariants::CreateTask {
            name: empty_input(),
            description: empty_input(),
        };
        InputContent { visible: false, selected_input: 0, variant }
    }
}

impl InputContent {
    #[verifier::type_invariant]
    spec fn inv(&self) -> bool {
        self.selected_input < self.variant.field_count()
    }

    /// Whether the form is on screen.
    pub fn visible(&self) -> (visible: bool)
        ensures
            visible == self@.visible,
    {
        self.visible
    }

    /// Index of the field that takes the key presses, always a field of the
    /// loaded form.
    pub fn selected_input(&self) -> (index: usize)
        ensures
            index == self@.selected_input,
            self@.wf(),
    {
        proof {
            use_type_invariant(self);
        }
        self.selected_input
    }

    /// The loaded form.
    pub fn variant(&self) -> (variant: &InputContentVariants)
        ensures
            *variant == self@.variant,
    {
        &self.variant
    }

    /// Asks for the form `want_to_show`. Asking for the loaded form toggles
    /// its visibility and keeps its texts; asking for another form loads that
    /// form empty, shows it and selects its first field.
    pub fn show(&mut self, want_to_show: InputContentVariants)
        ensures
            old(self)@.shows(want_to_show.kind(), final(self)@),
            final(self)@.wf(),
    {
        proof {
            use_type_invariant(&*self);
        }
        if self.variant == want_to_show {
            self.visible = !self.visible;
        } else {
            self.selected_input = 0;
            self.variant = want_to_show.blank();
            self.visible = true;
        }
    }

    /// Takes the form off screen and selects its first field. The texts stay
    /// for the next time that the same form is shown.
    pub fn cancel(&mut self)
        ensures
            final(self)@ == old(self)@.hidden(),
            final(self)@.wf(),
    {
        self.selected_input = 0;
        self.visible = false;
    }

    /// The texts of the loaded form as a payload.
    pub fn data_for_submit(&self) -> (data: Option<DataForSubmit>)
        ensures
            data.is_some(),
            data.unwrap()@ == self@.variant.payload(),
    {
        Some(self.variant.submit())
    }

    /// Commits the form: a form on screen gives its payload and leaves the
    /// screen with the first field selected; a form off screen gives nothing
    /// and stays as it is.
    pub fn commit(&mut self) -> (data: Option<DataForSubmit>)
        ensures
            old(self)@.visible ==> data.is_some() && data.unwrap()@ == old(self)@.variant.payload()
                && final(self)@ == old(self)@.hidden(),
            !old(self)@.visible ==> data.is_none() && final(self)@ == old(self)@,
            final(self)@.wf(),
    {
        proof {
            use_type_invariant(&*self);
        }
        if self.visible {
            let data = self.variant.submit();
            self.selected_input = 0;
            self.visible = false;
            Some(data)
        } else {
            None
        }
    }

    /// Number of text fields of the loaded form.
    pub fn input_count(&self) -> (count: i32)
        ensures
            count == self@.variant.field_count(),
            1 <= count <= 3,
    {
        match self.variant {
            InputContentVariants::CreateTask { .. } => 2,
            InputContentVariants::CreateBoard { .. } => 1,
            InputContentVariants::UpdateTask { .. } => 2,
            InputContentVariants::LogIn { .. } => 2,
            InputContentVariants::SignUp { .. } => 3,
            InputContentVariants::ChangeUsername { .. } => 1,
        }
    }

    /// Selects the next field, from the last to the first.
    pub fn cycle_selected_input(&mut self)
        ensures
            final(self)@.visible == old(self)@.visible,
            final(self)@.variant == old(self)@.variant,
            final(self)@.selected_input == (old(self)@.selected_input + 1)
                % old(self)@.variant.field_count(),
            final(self)@.wf(),
    {
        proof {
            use_type_invariant(&*self);
        }
        let count: usize = self.variant.fields();
        proof {
            let next = self.selected_input as int + 1;
            let total = count as int;
            assert(next < total ==> next % total == next) by (nonlinear_arith)
                requires
                    0 <= next,
                    0 < total,
            ;
            assert(next == total ==> next % total == 0) by (nonlinear_arith)
                requires
                    0 < total,
            ;
        }
        if self.selected_input + 1 >= count {
            self.selected_input = 0;
        } else {
            self.selected_input = self.selected_input + 1;
        }
    }

    /// Selects the field before, from the first to the last.
    pub fn cycle_selected_input_backwards(&mut self)
        ensures
            final(self)@.visible == old(self)@.visible,
            final(self)@.variant == old(self)@.variant,
            final(self)@.selected_input == (old(self)@.selected_input
                + old(self)@.variant.field_count() - 1) % (old(self)@.variant.field_count() as int),
            final(self)@.wf(),
    {
        proof {
            use_type_invariant(&*self);
        }
        let count: usize = self.variant.fields();
        if self.selected_input == 0 {
            self.selected_input = count - 1;
        } else {
            self.selected_input = self.selected_input - 1;
        }
    }

    /// Hands `key_event` to the selected field. A field that holds as many
    /// characters as it may takes a plain backspace and no other key, so a
    /// field within its limit stays within it and a field at or over its
    /// limit does not grow.
    pub fn handle_keypress(&mut self, key_event: KeyEvent)
        ensures
            final(self)@.visible == old(self)@.visible,
            final(self)@.selected_input == old(self)@.selected_input,
            final(self)@.variant == old(self)@.variant.keypress(
                old(self)@.selected_input,
                key_event,
            ),
            final(self)@.wf(),
            input_text(old(self)@.selected_field()).len() <= old(self)@.variant.field_limit(
                old(self)@.selected_input,
            ) ==> input_text(final(self)@.selected_field()).len()
                <= old(self)@.variant.field_limit(old(self)@.selected_input),
            input_text(old(self)@.selected_field()).len() >= old(self)@.variant.field_limit(
                old(self)@.selected_input,
            ) ==> input_text(final(self)@.selected_field()).len() <= input_text(
                old(self)@.selected_field(),
            ).len(),
    {
        proof {
            use_type_invariant(&*self);
        }
        let index: usize = self.selected_input;
        let mut form = InputContentVariants::SignUp {
            email: empty_input(),
            password: empty_input(),
            name: empty_input(),
        };
        core::mem::swap(&mut self.variant, &mut form);
        self.variant = form.after_key(index, &key_event);
    }

    /// Number of characters in the selected field.
    pub fn selected_input_len(&self) -> (len: usize)
        ensures
            len == input_text(self@.selected_field()).len(),
    {
        let text = input_value(self.variant.input_at(self.selected_input));
        text.as_str().unicode_len()
    }

    /// Where the cursor stands in the selected field, as column and row. The
    /// column is one behind the text, or the last column that there is; the
    /// row goes down by one for every full line of the text and stops at the
    /// last line of the field.
    pub fn cursor_coordinates(&self) -> (at: (u16, u16))
        ensures
            at.0 == if input_text(self@.selected_field()).len() < u16::MAX {
                input_text(self@.selected_field()).len() + 1
            } else {
                u16::MAX as nat
            },
            at.1 == cursor_row(
                input_text(self@.selected_field()).len(),
                self@.variant.field_rows(self@.selected_input),
            ),
    {
        let len: usize = self.selected_input_len();
        let rows: usize = self.variant.rows_at(self.selected_input);
        let lines: usize = len / WINDOW_WIDTH;
        let y: u16 = if lines < rows - 1 {
            (lines + 1) as u16
        } else {
            rows as u16
        };
        let x: u16 = if len < 65535 {
            (len + 1) as u16
        } else {
            u16::MAX
        };
        (x, y)
    }

    /// The column of the cursor, counted from the left edge of the form.
    pub fn cursor_column(&self) -> (column: u16)
        ensures
            column == self@.column(),
    {
        let len: usize = self.selected_input_len();
        if len >= 65535 {
            u16::MAX
        } else {
            let wraps: bool = self.selected_input == 1;
            match self.variant {
                InputContentVariants::CreateTask { .. } => if wraps {
                    ((len + 1) % 48 + len / 48) as u16
                } else {
                    (len + 1) as u16
                },
                InputContentVariants::UpdateTask { .. } => if wraps {
                    ((len + 1) % 48) as u16
                } else {
                    (len + 1) as u16
                },
                _ => (len + 1) as u16,
            }
        }
    }

    /// Rows of the screen that the form takes.
    pub fn form_height(&self) -> (height: u16)
        ensures
            height == self@.height(),
    {
        match self.variant {
            InputContentVariants::CreateTask { .. } => 9,
            InputContentVariants::CreateBoard { .. } => 3,
            InputContentVariants::UpdateTask { .. } => 9,
            InputContentVariants::LogIn { .. } => 6,
            InputContentVariants::SignUp { .. } => 9,
            InputContentVariants::ChangeUsername { .. } => 3,
        }
    }

    /// The caption of the field at `index`.
    fn title_at(&self, index: usize) -> (title: &'static str)
        ensures
            title@ == self@.title(index as nat),
    {
        match self.variant {
            InputContentVariants::CreateTask { .. } => if index == 0 {
                "New task Name"
            } else {
                "Description (optinal)"
            },
            InputContentVariants::CreateBoard { .. } => "New board Name",
            InputContentVariants::UpdateTask { .. } => if index == 0 {
                "Update task Name"
            } else {
                "Update task Description"
            },
            InputContentVariants::LogIn { .. } => if index == 0 {
                "Log in Email"
            } else {
                "password"
            },
            InputContentVariants::SignUp { .. } => if index == 0 {
                "Sign up Email"
            } else if index == 1 {
                "Name"
            } else {
                "Password (will be encrypted)"
            },
            InputContentVariants::ChangeUsername { .. } => "Change username",
        }
    }

    /// What the screen shows of the form: one box for each field, in order,
    /// with its caption, its text and whether it is the selected field.
    pub fn ui_to_render(&self) -> (boxes: Vec<FieldBox>)
        ensures
            self@.drawn_as(boxes@),
    {
        let count: usize = self.variant.fields();
        let mut to_render: Vec<FieldBox> = Vec::new();
        let mut index: usize = 0;
        while index < count
            invariant
                count == self@.variant.field_count(),
                index <= count,
                to_render@.len() == index,
                forall|k: int|
                    0 <= k < to_render@.len() ==> {
                        &&& (#[trigger] to_render@[k]).title@ == self@.title(k as nat)
                        &&& to_render@[k].text@ == self@.shown_text(k as nat)
                        &&& to_render@[k].selected == (k == self@.selected_input)
                    },
            decreases count - index,
        {
            let text = input_value(self.variant.input_at(index));
            let text = if self.variant.rows_at(index) > 1 {
                line_break_text(text)
            } else {
                text
            };
            to_render.push(
                FieldBox {
                    title: String::from_str(self.title_at(index)),
                    text,
                    selected: index == self.selected_input,
                },
            );
            index = index + 1;
        }
        to_render
    }
}

/// A field that holds as many characters as it may, or more, is left as it
/// is by every key but a plain backspace, which it takes.
pub proof fn lemma_full_field(input: Input, limit: nat, key: KeyEvent)
    requires
        input_text(input).len() >= limit,
    ensures
        !key_is_backspace(key) ==> field_keypress(input, limit, key) == input,
        key_is_backspace(key) ==> field_keypress(input, limit, key) == input_after_key(input, key),
{
}

/// A form whose selected field is full is left as it is by every key but a
/// plain backspace.
pub proof fn lemma_full_form(form: InputContentVariants, index: nat, key: KeyEvent)
    requires
        index < form.field_count(),
        input_text(form.field(index)).len() >= form.field_limit(index),
        !key_is_backspace(key),
    ensures
        form.keypress(index, key) == form,
{
}

/// Asking twice for the loaded form shows or hides it and then undoes that;
/// the fields and the selected field stay throughout.
pub proof fn lemma_show_twice(
    pre: InputContentView,
    mid: InputContentView,
    post: InputContentView,
    kind: FormKind,
)
    requires
        pre.variant.kind() == kind,
        pre.shows(kind, mid),
        mid.shows(kind, post),
    ensures
        mid.visible == !pre.visible,
        mid.variant == pre.variant,
        mid.selected_input == pre.selected_input,
        post == pre,
{
}

/// Asking for another form than the loaded one shows that form with every
/// field empty and the first field selected.
pub proof fn lemma_show_other(pre: InputContentView, post: InputContentView, kind: FormKind)
    requires
        pre.variant.kind() != kind,
        pre.shows(kind, post),
    ensures
        post.visible,
        post.selected_input == 0,
        post.variant.kind() == kind,
        forall|index: nat|
            index < post.variant.field_count() ==> input_text(
                #[trigger] post.variant.field(index),
            ).len() == 0,
        post.wf(),
{
}

} // verus!
