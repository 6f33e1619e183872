//! A cursor over a list of rows: where it stands and how key presses move it.

use vstd::prelude::*;

verus! {

/// A key press, as far as the menus tell keys apart.
#[derive(Clone, Copy, PartialEq, Eq, Debug, Structural)]
pub enum Key {
    Up,
    Down,
    Enter,
    Escape,
    /// Any key that no menu reacts to.
    Other,
}

/// The cursor one row further up; the first row stays where it is.
pub open spec fn cursor_up(cursor: nat) -> nat {
    if cursor > 0 {
        (cursor - 1) as nat
    } else {
        cursor
    }
}

/// The cursor one row further down in a list of `count` rows; the last row
/// stays where it is.
pub open spec fn cursor_down(cursor: nat, count: nat) -> nat {
    if cursor + 1 < count {
        cursor + 1
    } else {
        cursor
    }
}

/// Where the cursor stands after one key press: only `Up` and `Down` move it.
pub open spec fn cursor_after(cursor: nat, count: nat, key: Key) -> nat {
    match key {
        Key::Up => cursor_up(cursor),
        Key::Down => cursor_down(cursor, count),
        _ => cursor,
    }
}

/// Where the cursor stands after a run of key presses, first key first.
pub open spec fn cursor_after_all(cursor: nat, count: nat, keys: Seq<Key>) -> nat
    decreases keys.len(),
{
    if keys.len() == 0 {
        cursor
    } else {
        cursor_after_all(cursor_after(cursor, count, keys[0]), count, keys.drop_first())
    }
}

/// Over a list that has a row, a cursor that stands on a row still stands on
/// a row after any run of key presses.
pub proof fn lemma_cursor_stays_on_a_row(cursor: nat, count: nat, keys: Seq<Key>)
    requires
        cursor < count,
    ensures
        cursor_after_all(cursor, count, keys) < count,
    decreases keys.len(),
{
    if keys.len() > 0 {
        lemma_cursor_stays_on_a_row(cursor_after(cursor, count, keys[0]), count, keys.drop_first());
    }
}

/// `Up` on the first row and `Down` on the last row change nothing.
pub proof fn lemma_moves_stop_at_the_ends(count: nat)
    requires
        count >= 1,
    ensures
        cursor_after(0, count, Key::Up) == 0,
        cursor_after((count - 1) as nat, count, Key::Down) == count - 1,
{
}

/// What a [`SelectionState`] stands for: the row under the cursor, counted
/// from 0, and the number of rows.
pub struct Selection {
    pub cursor: nat,
    pub count: nat,
}

/// The position of a cursor in a list that has at least one row.
#[derive(Clone, Copy, PartialEq, Eq, Debug, Structural)]
pub struct SelectionState {
    cursor: usize,
    item_count: usize,
}

impl View for SelectionState {
    type V = Selection;

    closed spec fn view(&self) -> Selection {
        Selection { cursor: self.cursor as nat, count: self.item_count as nat }
    }
}

impl SelectionState {
    #[verifier::type_invariant]
    spec fn on_a_row(self) -> bool {
        self.cursor < self.item_count
    }

    /// The cursor stands on a row. Every value that the methods hand out
    /// meets this.
    pub open spec fn wf(self) -> bool {
        self@.cursor < self@.count
    }

    /// A cursor on row `cursor` of `item_count` rows. There is none over an
    /// empty list, and none on a row that the list does not have.
    pub fn new(item_count: usize, cursor: usize) -> (state: Option<SelectionState>)
        ensures
            state is Some <==> cursor < item_count,
            state matches Some(s) ==> s@ == (Selection {
                cursor: cursor as nat,
                count: item_count as nat,
            }),
    {
        if cursor < item_count {
            Some(SelectionState { cursor, item_count })
        } else {
            None
        }
    }

    /// A cursor on the first of `item_count` rows; none over an empty list.
    pub fn first(item_count: usize) -> (state: Option<SelectionState>)
        ensures
            state is Some <==> item_count > 0,
            state matches Some(s) ==> s@ == (Selection { cursor: 0, count: item_count as nat }),
    {
        SelectionState::new(item_count, 0)
    }

    /// The row under the cursor, counted from 0.
    pub fn cursor(&self) -> (cursor: usize)
        ensures
            cursor == self@.cursor,
            cursor < self@.count,
        no_unwind
    {
        proof {
            use_type_invariant(self);
        }
        self.cursor
    }

    /// The number of rows, which is never 0.
    pub fn item_count(&self) -> (count: usize)
        ensures
            count == self@.count,
            count > 0,
    {
        proof {
            use_type_invariant(self);
        }
        self.item_count
    }

    /// Moves the cursor up one row, unless it stands on the first.
    pub fn move_up(&mut self)
        ensures
            final(self)@.cursor == cursor_up(old(self)@.cursor),
            final(self)@.count == old(self)@.count,
            final(self).wf(),
        no_unwind
    {
        proof {
            use_type_invariant(&*self);
        }
        if self.cursor > 0 {
            self.cursor = self.cursor - 1;
        }
    }

    /// Moves the cursor down one row, unless it stands on the last.
    pub fn move_down(&mut self)
        ensures
            final(self)@.cursor == cursor_down(old(self)@.cursor, old(self)@.count),
            final(self)@.count == old(self)@.count,
            final(self).wf(),
        no_unwind
    {
        proof {
            use_type_invariant(&*self);
        }
        if self.cursor < self.item_count - 1 {
            self.cursor = self.cursor + 1;
        }
    }
}

/// What a key press asks of the owner of a list.
#[derive(Clone, Copy, PartialEq, Eq, Debug, Structural)]
pub enum ListOutcome {
    /// Nothing: the list stays open.
    Continue,
    /// The row with this index was confirmed.
    Chosen(usize),
    /// The list was dismissed without a choice.
    Dismissed,
}

/// What a [`ListOutcome`] stands for.
pub enum OutcomeModel {
    Continue,
    Chosen(nat),
    Dismissed,
}

impl View for ListOutcome {
    type V = OutcomeModel;

    open spec fn view(&self) -> OutcomeModel {
        match self {
            ListOutcome::Continue => OutcomeModel::Continue,
            ListOutcome::Chosen(row) => OutcomeModel::Chosen(*row as nat),
            ListOutcome::Dismissed => OutcomeModel::Dismissed,
        }
    }
}

/// What a [`SelectableList`] stands for: its rows in order, and the index of
/// the row under the cursor (0 where there is no row).
pub struct ListModel<T> {
    pub items: Seq<T>,
    pub cursor: nat,
}

impl<T> ListModel<T> {
    /// The cursor stands on a row, or on 0 where the list is empty.
    pub open spec fn wf(self) -> bool {
        self.cursor < self.items.len() || (self.items.len() == 0 && self.cursor == 0)
    }

    /// The row under the cursor; none in an empty list.
    pub open spec fn current(self) -> Option<T> {
        if self.cursor < self.items.len() {
            Some(self.items[self.cursor as int])
        } else {
            None
        }
    }

    /// The list after one key press: the rows stay, `Up` and `Down` move the
    /// cursor.
    pub open spec fn after(self, key: Key) -> ListModel<T> {
        ListModel { items: self.items, cursor: cursor_after(self.cursor, self.items.len(), key) }
    }

    /// What one key press asks of the owner: `Enter` confirms the row under
    /// the cursor where there is one, `Escape` dismisses, all else goes on.
    pub open spec fn outcome(self, key: Key) -> OutcomeModel {
        match key {
            Key::Enter => if self.cursor < self.items.len() {
                OutcomeModel::Chosen(self.cursor)
            } else {
                OutcomeModel::Continue
            },
            Key::Escape => OutcomeModel::Dismissed,
            _ => OutcomeModel::Continue,
        }
    }
}

/// A list of rows with a cursor on one of them. The list may be empty; the
/// cursor then selects nothing.
#[derive(Debug)]
pub struct SelectableList<T> {
    items: Vec<T>,
    /// Where the cursor stands; none in an empty list.
    selection: Option<SelectionState>,
}

impl<T> View for SelectableList<T> {
    type V = ListModel<T>;

    closed spec fn view(&self) -> ListModel<T> {
        ListModel {
            items: self.items@,
            cursor: match self.selection {
                Some(state) => state@.cursor,
                None => 0,
            },
        }
    }
}

impl<T> SelectableList<T> {
    #[verifier::type_invariant]
    spec fn selection_fits(self) -> bool {
        match self.selection {
            Some(state) => state.wf() && state@.count == self.items.len(),
            None => self.items.len() == 0,
        }
    }

    /// A list over `items` with the cursor on the first row.
    pub fn new(items: Vec<T>) -> (list: SelectableList<T>)
        ensures
            list@ == (ListModel { items: items@, cursor: 0 }),
    {
        let selection = SelectionState::first(items.len());
        SelectableList { items, selection }
    }

    /// A list over `items` with the cursor on row `cursor`; none where the
    /// list has no such row. Over an empty list the one cursor is 0.
    pub fn with_cursor(items: Vec<T>, cursor: usize) -> (list: Option<SelectableList<T>>)
        ensures
            list is Some <==> (ListModel { items: items@, cursor: cursor as nat }).wf(),
            list matches Some(l) ==> l@ == (ListModel { items: items@, cursor: cursor as nat }),
    {
        let selection = SelectionState::new(items.len(), cursor);
        if selection.is_some() || (items.len() == 0 && cursor == 0) {
            Some(SelectableList { items, selection })
        } else {
            None
        }
    }

    /// The number of rows.
    pub fn len(&self) -> (len: usize)
        ensures
            len == self@.items.len(),
    {
        self.items.len()
    }

    pub fn is_empty(&self) -> (empty: bool)
        ensures
            empty == (self@.items.len() == 0),
    {
        self.items.len() == 0
    }

    /// The rows, in order.
    pub fn items(&self) -> (items: &Vec<T>)
        ensures
            items@ == self@.items,
    {
        &self.items
    }

    /// The index of the row under the cursor; 0 in an empty list.
    pub fn cursor(&self) -> (cursor: usize)
        ensures
            cursor == self@.cursor,
            self@.wf(),
    {
        proof {
            use_type_invariant(self);
        }
        match self.selection {
            Some(state) => state.cursor(),
            None => 0,
        }
    }

    /// The cursor's position as a value of its own; none in an empty list.
    pub fn selection(&self) -> (state: Option<SelectionState>)
        ensures
            state is Some <==> self@.items.len() > 0,
            state matches Some(s) ==> s@ == (Selection {
                cursor: self@.cursor,
                count: self@.items.len(),
            }),
    {
        proof {
            use_type_invariant(self);
        }
        self.selection
    }

    /// The row under the cursor; none in an empty list.
    pub fn current(&self) -> (row: Option<&T>)
        ensures
            row is Some <==> self@.items.len() > 0,
            row matches Some(r) ==> self@.current() == Some(*r),
    {
        proof {
            use_type_invariant(self);
        }
        match self.selection {
            Some(state) => Some(&self.items[state.cursor()]),
            None => None,
        }
    }

    /// Moves the cursor up one row, unless it stands on the first.
    pub fn move_up(&mut self)
        ensures
            final(self)@ == old(self)@.after(Key::Up),
            final(self)@.wf(),
        no_unwind
    {
        proof {
            use_type_invariant(&*self);
        }
        match self.selection {
            Some(mut state) => {
                state.move_up();
                self.selection = Some(state);
            },
            None => {},
        }
    }

    /// Moves the cursor down one row, unless it stands on the last.
    pub fn move_down(&mut self)
        ensures
            final(self)@ == old(self)@.after(Key::Down),
            final(self)@.wf(),
        no_unwind
    {
        proof {
            use_type_invariant(&*self);
        }
        match self.selection {
            Some(mut state) => {
                state.move_down();
                self.selection = Some(state);
            },
            None => {},
        }
    }

    /// Takes one key press: `Up` and `Down` move the cursor, `Enter` confirms
    /// the row under it, `Escape` dismisses the list, any other key is
    /// ignored. The rows never change.
    pub fn handle_key(&mut self, key: Key) -> (outcome: ListOutcome)
        ensures
            final(self)@ == old(self)@.after(key),
            final(self)@.wf(),
            outcome@ == old(self)@.outcome(key),
        no_unwind
    {
        proof {
            use_type_invariant(&*self);
        }
        match key {
            Key::Up => {
                self.move_up();
                ListOutcome::Continue
            },
            Key::Down => {
                self.move_down();
                ListOutcome::Continue
            },
            Key::Enter => match self.selection {
                Some(state) => ListOutcome::Chosen(state.cursor()),
                None => ListOutcome::Continue,
            },
            Key::Escape => ListOutcome::Dismissed,
            Key::Other => ListOutcome::Continue,
        }
    }
}

} // verus!
