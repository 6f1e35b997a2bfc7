//! An ordered list of entities together with the cursor that highlights one
//! of them.

use vstd::prelude::*;

verus! {

/// Cursor of a list widget: the highlighted row, if any.
#[derive(Debug, Clone, Copy)]
pub struct ListState {
    selected: Option<usize>,
}

impl ListState {
    /// The highlighted row as a mathematical value.
    pub closed spec fn view(&self) -> Option<usize> {
        self.selected
    }

    /// A state that highlights nothing.
    pub fn new() -> (state: ListState)
        ensures
            state@ == None::<usize>,
    {
        ListState { selected: None }
    }

    /// The highlighted row.
    pub fn selected(&self) -> (index: Option<usize>)
        ensures
            index == self@,
    {
        self.selected
    }

    /// Highlights `index`, or nothing.
    pub fn select(&mut self, index: Option<usize>)
        ensures
            final(self)@ == index,
    {
        self.selected = index;
    }
}

/// Where the cursor stands after one step forward over `len` items: an empty
/// list keeps no selection, an unselected list starts at the first item and
/// the last item wraps to the first.
pub open spec fn cursor_after_next(cursor: Option<usize>, len: nat) -> Option<usize> {
    if len == 0 {
        None
    } else {
        match cursor {
            Some(i) => if i + 1 >= len {
                Some(0usize)
            } else {
                Some((i + 1) as usize)
            },
            None => Some(0usize),
        }
    }
}

/// Where the cursor stands after one step backward over `len` items: an empty
/// list keeps no selection, an unselected list starts at the first item and
/// the first item wraps to the last.
pub open spec fn cursor_after_previous(cursor: Option<usize>, len: nat) -> Option<usize> {
    if len == 0 {
        None
    } else {
        match cursor {
            Some(i) => if i == 0 || i > len {
                Some((len - 1) as usize)
            } else {
                Some((i - 1) as usize)
            },
            None => Some(0usize),
        }
    }
}

/// Whether `cursor` is a legal cursor over `len` items: nothing, or an index
/// below `len`.
pub open spec fn cursor_in_range(cursor: Option<usize>, len: nat) -> bool {
    match cursor {
        Some(i) => i < len,
        None => true,
    }
}

/// The cursor that survives a change of the backing sequence to `len` items:
/// it stays where it was while it still addresses an item, and is cleared
/// otherwise.
pub open spec fn cursor_kept(cursor: Option<usize>, len: nat) -> Option<usize> {
    if cursor_in_range(cursor, len) {
        cursor
    } else {
        None
    }
}

/// Where the cursor stands after `steps` steps forward over `len` items.
pub open spec fn cursor_after_steps(cursor: Option<usize>, len: nat, steps: nat) -> Option<usize>
    decreases steps,
{
    if steps == 0 {
        cursor
    } else {
        cursor_after_next(cursor_after_steps(cursor, len, (steps - 1) as nat), len)
    }
}

/// A step forward or backward leaves a legal cursor legal, and over an empty
/// list it leaves nothing selected.
pub proof fn lemma_step_stays_in_range(cursor: Option<usize>, len: nat)
    requires
        cursor_in_range(cursor, len),
        len <= usize::MAX,
    ensures
        cursor_in_range(cursor_after_next(cursor, len), len),
        cursor_in_range(cursor_after_previous(cursor, len), len),
        len == 0 ==> cursor_after_next(cursor, len) is None && cursor_after_previous(cursor, len) is None,
{
}

/// From the item at `start`, `steps` steps forward over `len` items lead to
/// the item at `(start + steps) % len`.
pub proof fn lemma_steps_forward(start: usize, len: nat, steps: nat)
    requires
        start < len,
        len <= usize::MAX,
    ensures
        cursor_after_steps(Some(start), len, steps) == Some(((start + steps) % (len as int)) as usize),
    decreases steps,
{
    if steps == 0 {
        assert((start + 0) % (len as int) == start) by (nonlinear_arith)
            requires
                start < len,
        ;
    } else {
        let before = (steps - 1) as nat;
        lemma_steps_forward(start, len, before);
        let at = (start + before) % (len as int);
        assert(0 <= at < len) by (nonlinear_arith)
            requires
                at == (start + before) % (len as int),
                0 < len,
        ;
        assert((start + steps) % (len as int) == if at + 1 >= len {
            0
        } else {
            at + 1
        }) by (nonlinear_arith)
            requires
                at == (start + before) % (len as int),
                steps == before + 1,
                0 < len,
        ;
    }
}

/// As many steps forward as the list has items lead back to the item from
/// which they set out.
pub proof fn lemma_full_round_returns(start: usize, len: nat)
    requires
        start < len,
        len <= usize::MAX,
    ensures
        cursor_after_steps(Some(start), len, len) == Some(start),
{
    lemma_steps_forward(start, len, len);
    assert((start + len) % (len as int) == start) by (nonlinear_arith)
        requires
            start < len,
    ;
}

/// A change of the backing sequence to no items clears the cursor, and a
/// list without items, which has no selection, gets none by a change of its
/// backing sequence.
pub proof fn lemma_replaced_cursor(cursor: Option<usize>, old_len: nat, new_len: nat)
    requires
        cursor_in_range(cursor, old_len),
    ensures
        new_len == 0 ==> cursor_kept(cursor, new_len) is None,
        old_len == 0 ==> cursor_kept(cursor, new_len) is None,
        cursor_in_range(cursor_kept(cursor, new_len), new_len),
{
}

/// An ordered sequence of entities and a cursor into it.
#[derive(Debug)]
pub struct StatefulList<T> {
    pub(crate) state: ListState,
    pub(crate) items: Vec<T>,
}

impl<T: Clone> Clone for StatefulList<T> {
    /// A list of copies of the entities, with the same cursor.
    fn clone(&self) -> (copy: StatefulList<T>)
        ensures
            copy.cursor() == self.cursor(),
            copy@.len() == self@.len(),
            forall|index: int| 0 <= index < self@.len() ==> cloned(self@[index], #[trigger] copy@[index]),
    {
        proof {
            use_type_invariant(self);
        }
        StatefulList { state: self.state, items: self.items.clone() }
    }
}

impl<T> StatefulList<T> {
    #[verifier::type_invariant]
    spec fn inv(&self) -> bool {
        cursor_in_range(self.state@, self.items@.len())
    }

    /// The backing sequence.
    pub closed spec fn view(&self) -> Seq<T> {
        self.items@
    }

    /// The cursor.
    pub closed spec fn cursor(&self) -> Option<usize> {
        self.state@
    }

    /// The cursor addresses an item or nothing. Every list that executable
    /// code can hold is well formed.
    pub open spec fn wf(&self) -> bool {
        cursor_in_range(self.cursor(), self@.len())
    }

    /// The selected entity as a mathematical value.
    pub open spec fn selected_spec(&self) -> Option<T> {
        match self.cursor() {
            Some(i) => Some(self@[i as int]),
            None => None,
        }
    }

    /// Wraps `items` with no selection.
    pub fn with_items(items: Vec<T>) -> (list: StatefulList<T>)
        ensures
            list@ == items@,
            list.cursor() == None::<usize>,
            list.wf(),
    {
        StatefulList { state: ListState::new(), items }
    }

    /// The backing sequence.
    pub fn items(&self) -> (items: &Vec<T>)
        ensures
            items@ == self@,
    {
        &self.items
    }

    /// Number of entities.
    pub fn len(&self) -> (n: usize)
        ensures
            n == self@.len(),
    {
        self.items.len()
    }

    /// The cursor, which always addresses an entity when it is set.
    pub fn selected_index(&self) -> (index: Option<usize>)
        ensures
            index == self.cursor(),
            self.wf(),
    {
        proof {
            use_type_invariant(self);
        }
        self.state.selected()
    }

    /// A copy of the state of the list widget.
    pub fn state(&self) -> (state: ListState)
        ensures
            state@ == self.cursor(),
    {
        self.state
    }

    /// A copy of the entity under the cursor, or nothing when unselected.
    pub fn selected(&self) -> (entity: Option<T>) where T: Clone
        ensures
            self.wf(),
            entity.is_some() == self.cursor().is_some(),
            entity.is_some() ==> cloned(self.selected_spec().unwrap(), entity.unwrap()),
    {
        proof {
            use_type_invariant(self);
        }
        match self.state.selected() {
            Some(i) => Some(self.items[i].clone()),
            None => None,
        }
    }

    /// Moves the cursor one entity forward, from the last to the first.
    pub fn next(&mut self)
        ensures
            final(self)@ == old(self)@,
            final(self).cursor() == cursor_after_next(old(self).cursor(), old(self)@.len()),
            final(self).wf(),
    {
        proof {
            use_type_invariant(&*self);
        }
        let len: usize = self.items.len();
        if len == 0 {
            self.state = ListState { selected: None };
        } else {
            let i: usize = match self.state.selected() {
                Some(i) => if i >= len - 1 {
                    0
                } else {
                    i + 1
                },
                None => 0,
            };
            self.state = ListState { selected: Some(i) };
        }
    }

    /// Moves the cursor one entity backward, from the first to the last.
    pub fn previous(&mut self)
        ensures
            final(self)@ == old(self)@,
            final(self).cursor() == cursor_after_previous(old(self).cursor(), old(self)@.len()),
            final(self).wf(),
    {
        proof {
            use_type_invariant(&*self);
        }
        let len: usize = self.items.len();
        if len == 0 {
            self.state = ListState { selected: None };
        } else {
            let i: usize = match self.state.selected() {
                Some(i) => if i == 0 {
                    len - 1
                } else {
                    i - 1
                },
                None => 0,
            };
            self.state = ListState { selected: Some(i) };
        }
    }

    /// Clears the selection.
    pub fn unselect(&mut self)
        ensures
            final(self)@ == old(self)@,
            final(self).cursor() == None::<usize>,
            final(self).wf(),
    {
        self.state = ListState { selected: None };
    }

    /// Swaps the backing sequence. Nothing is selected anew: the cursor stays
    /// while it still addresses an entity and is cleared otherwise, so an
    /// empty sequence never keeps a selection.
    pub fn replace_items(&mut self, items: Vec<T>)
        ensures
            final(self)@ == items@,
            final(self).cursor() == cursor_kept(old(self).cursor(), items@.len()),
            items@.len() == 0 || old(self)@.len() == 0 ==> final(self).cursor() is None,
            final(self).wf(),
    {
        proof {
            use_type_invariant(&*self);
        }
        let keep: bool = match self.state.selected() {
            Some(i) => i < items.len(),
            None => true,
        };
        if !keep {
            self.state = ListState { selected: None };
        }
        self.items = items;
    }
    /// Appends `item` behind the last entity. The cursor stays where it is.
    pub fn push(&mut self, item: T)
        ensures
            final(self)@ == old(self)@.push(item),
            final(self).cursor() == old(self).cursor(),
            final(self).wf(),
    {
        proof {
            use_type_invariant(&*self);
        }
        let state = self.state;
        let mut items: Vec<T> = Vec::new();
        self.state = ListState { selected: None };
        core::mem::swap(&mut self.items, &mut items);
        items.push(item);
        self.items = items;
        self.state = state;
    }
}

} // verus!
