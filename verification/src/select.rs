//! The selection list: an ordered sequence of items plus the two selection
//! pointers, a cursor and a committed index, with the operations the session
//! controller applies to them.

use vstd::prelude::*;
use crate::item::UCLISelectItem;

verus! {

/// Why a requested preselection was rejected before the session started.
#[derive(Debug, Clone, Copy, PartialEq, Eq, Structural)]
pub enum SelectError {
    /// The requested index is not an index of the item list.
    IndexOutOfBounds,
    /// The item at the requested index is disabled and can never be committed.
    ItemDisabled,
}

/// An ordered list of items together with the cursor (`current`) and the
/// committed selection (`selected`). `None` means "unpositioned" for the
/// cursor and "no selection" for the committed index.
#[derive(Debug, Clone)]
pub struct UCLISelect<T> {
    /// The options, in the order they are rendered. Fixed for a session.
    pub items: Vec<UCLISelectItem<T>>,
    /// The committed selection; always the index of a non-disabled item.
    pub selected: Option<usize>,
    /// The cursor: the index currently highlighted for potential commitment.
    pub current: Option<usize>,
}

impl<T> UCLISelect<T> {
    /// Well-formedness: the cursor, when present, is in bounds; the committed
    /// index, when present, is in bounds and names a non-disabled item.
    pub open spec fn wf(self) -> bool {
        &&& (self.current matches Some(i) ==> i < self.items.len())
        &&& (self.selected matches Some(i) ==> i < self.items.len()
            && !self.items[i as int].disabled)
    }

    /// A commit attempt succeeds exactly when nothing is committed yet and
    /// the cursor rests on a non-disabled item.
    pub open spec fn can_commit(self) -> bool {
        &&& self.selected is None
        &&& match self.current {
            Some(i) => i < self.items.len() && !self.items[i as int].disabled,
            None => false,
        }
    }

    /// The list after a commit attempt: the cursor's item becomes the
    /// committed selection when the attempt succeeds, nothing changes when
    /// it does not.
    pub open spec fn after_commit(self) -> Self {
        if self.can_commit() {
            UCLISelect { items: self.items, selected: self.current, current: self.current }
        } else {
            self
        }
    }

    /// The cursor after moving one row up: clamped at the first row, no
    /// wraparound; an unpositioned cursor stays unpositioned.
    pub open spec fn cursor_after_up(self) -> Option<usize> {
        match self.current {
            Some(i) => if i > 0 { Some((i - 1) as usize) } else { Some(i) },
            None => None,
        }
    }

    /// The cursor after moving one row down: clamped at the last row, no
    /// wraparound; on a non-empty list an unpositioned cursor enters at the
    /// first row.
    pub open spec fn cursor_after_down(self) -> Option<usize> {
        if self.items.len() == 0 {
            self.current
        } else {
            match self.current {
                Some(i) => if i + 1 < self.items.len() { Some((i + 1) as usize) } else { Some(i) },
                None => Some(0usize),
            }
        }
    }

    /// The list after moving the cursor one row up.
    pub open spec fn after_up(self) -> Self {
        UCLISelect { items: self.items, selected: self.selected, current: self.cursor_after_up() }
    }

    /// The list after moving the cursor one row down.
    pub open spec fn after_down(self) -> Self {
        UCLISelect { items: self.items, selected: self.selected, current: self.cursor_after_down() }
    }

    /// Builds a list with an unpositioned cursor and no selection.
    pub fn new(items: Vec<UCLISelectItem<T>>) -> (r: Self)
        ensures
            r.items == items,
            r.selected is None,
            r.current is None,
            r.wf(),
    {
        Self { items, selected: None, current: None }
    }

    /// Places the cursor on the given row.
    pub fn set_current(&mut self, i: usize)
        requires
            i < old(self).items.len(),
        ensures
            final(self).items == old(self).items,
            final(self).selected == old(self).selected,
            final(self).current == Some(i),
            old(self).wf() ==> final(self).wf(),
    {
        self.current = Some(i);
    }

    /// Moves the cursor one row up, clamped at the first row.
    pub fn move_up(&mut self)
        ensures
            *final(self) == old(self).after_up(),
            old(self).wf() ==> final(self).wf(),
    {
        match self.current {
            Some(i) => {
                if i > 0 {
                    self.current = Some(i - 1);
                }
            }
            None => {}
        }
    }

    /// Moves the cursor one row down, clamped at the last row; on a
    /// non-empty list an unpositioned cursor enters at the first row.
    pub fn move_down(&mut self)
        ensures
            *final(self) == old(self).after_down(),
            old(self).wf() ==> final(self).wf(),
    {
        if self.items.len() > 0 {
            match self.current {
                Some(i) => {
                    if i < self.items.len() - 1 {
                        self.current = Some(i + 1);
                    }
                }
                None => {
                    self.current = Some(0);
                }
            }
        }
    }

    /// Tries to commit the cursor's item: the sole gate that keeps a
    /// disabled item from ever becoming the committed selection. Succeeds
    /// exactly when nothing is committed yet and the cursor rests on a
    /// non-disabled item; otherwise the list is left unchanged.
    pub fn set_selected(&mut self) -> (committed: bool)
        ensures
            committed == old(self).can_commit(),
            *final(self) == old(self).after_commit(),
            old(self).wf() ==> final(self).wf(),
    {
        if self.selected.is_none() {
            match self.current {
                Some(i) => {
                    if i < self.items.len() && !self.items[i].disabled {
                        self.selected = Some(i);
                        return true;
                    }
                }
                None => {}
            }
        }
        false
    }

    /// Validates and applies a preselection: on an in-bounds, non-disabled
    /// index both the cursor and the committed selection are set to it; any
    /// other index is rejected with the matching error and the list is left
    /// unchanged.
    pub fn preselect(&mut self, index: usize) -> (r: Result<(), SelectError>)
        ensures
            final(self).items == old(self).items,
            (r is Ok) == (index < old(self).items.len()
                && !old(self).items[index as int].disabled),
            r is Ok ==> final(self).current == Some(index)
                && final(self).selected == Some(index) && final(self).wf(),
            r is Err ==> *final(self) == *old(self),
            index >= old(self).items.len() ==> r == Err::<(), SelectError>(
                SelectError::IndexOutOfBounds,
            ),
            index < old(self).items.len() && old(self).items[index as int].disabled
                ==> r == Err::<(), SelectError>(SelectError::ItemDisabled),
    {
        if index >= self.items.len() {
            Err(SelectError::IndexOutOfBounds)
        } else if self.items[index].disabled {
            Err(SelectError::ItemDisabled)
        } else {
            self.current = Some(index);
            self.selected = Some(index);
            Ok(())
        }
    }

    /// The committed item, if one was committed.
    pub fn get_selected(&self) -> (r: Option<&UCLISelectItem<T>>)
        requires
            self.wf(),
        ensures
            (r is Some) == (self.selected is Some),
            self.selected matches Some(i) ==> r == Some(&self.items[i as int]),
    {
        match self.selected {
            Some(i) => Some(&self.items[i]),
            None => None,
        }
    }
}

/// Law: the cursor clamps at both ends — moving up from the first row leaves
/// the cursor on the first row, and moving down from the last row leaves it
/// on the last row; there is no wraparound.
pub proof fn lemma_cursor_clamps<T>(s: UCLISelect<T>)
    requires
        s.wf(),
    ensures
        s.current == Some(0usize) ==> s.after_up().current == Some(0usize),
        s.items.len() > 0 && s.current == Some((s.items.len() - 1) as usize)
            ==> s.after_down().current == Some((s.items.len() - 1) as usize),
{
}

/// Law: a commit attempt while the cursor rests on a disabled item changes
/// nothing at all — in particular the committed index stays exactly as it
/// was, so it stays absent if it was absent.
pub proof fn lemma_commit_on_disabled_changes_nothing<T>(s: UCLISelect<T>)
    requires
        s.current matches Some(i) && s.items[i as int].disabled,
    ensures
        s.after_commit() == s,
        s.after_commit().selected == s.selected,
{
}

} // verus!
