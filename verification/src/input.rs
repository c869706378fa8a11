//! The input dispatcher: maps one raw keyboard or pointer event to at most
//! one abstract action. Unrecognized events, pointer events outside the
//! list's rows, and pointer events past a label's width yield no action.

use vstd::prelude::*;
use vstd::string::StrSliceExecFns;
use crate::item::UCLISelectItem;

verus! {

/// The identity of a pressed key, as the terminal reports it.
#[derive(Debug, Clone, Copy, PartialEq, Eq, Structural)]
pub enum Key {
    /// A printable character key.
    Char(char),
    /// The up-arrow key.
    Up,
    /// The down-arrow key.
    Down,
    /// The enter key.
    Enter,
    /// Any key this widget does not react to.
    Other,
}

/// Which pointer button an event reports.
#[derive(Debug, Clone, Copy, PartialEq, Eq, Structural)]
pub enum PointerButton {
    /// The primary (usually left) button; the only one that commits.
    Primary,
    /// The secondary (usually right) button.
    Secondary,
    /// The middle button.
    Middle,
}

/// What a pointer event reports happened.
#[derive(Debug, Clone, Copy, PartialEq, Eq, Structural)]
pub enum PointerKind {
    /// The pointer moved to the cell.
    Moved,
    /// A button was pressed at the cell.
    ButtonDown(PointerButton),
    /// A button was released at the cell.
    ButtonUp(PointerButton),
}

/// One raw event from the terminal, reduced to what the dispatcher reads.
#[derive(Debug, Clone, Copy, PartialEq, Eq, Structural)]
pub enum RawEvent {
    /// A key press.
    Key(Key),
    /// A pointer event at a terminal cell; `row` and `column` are 0-based
    /// screen coordinates, so the list's items sit on rows `1..=len`.
    Pointer { row: usize, column: usize, kind: PointerKind },
    /// Any event this widget does not react to.
    Other,
}

/// One abstract action for the session controller.
#[derive(Debug, Clone, Copy, PartialEq, Eq, Structural)]
pub enum Action {
    /// Move the cursor one row up.
    MoveUp,
    /// Move the cursor one row down.
    MoveDown,
    /// Try to commit the cursor's item.
    Commit,
    /// Cancel the session.
    Quit,
    /// Place the cursor on this item index.
    PointerHover(usize),
    /// Place the cursor on this item index and commit it if not disabled.
    PointerClick(usize),
}

/// What the dispatcher yields for a raw event. The configured quit key is
/// checked before every other key mapping, so it pre-empts a coincidental
/// match with a navigation key. A pointer event is decoded only when pointer
/// support is on, its row falls on an item's row, and its column lies within
/// that item's label width (in characters); the decoded index is the 0-based
/// item index of the row.
pub open spec fn dispatch_view<T>(
    ev: RawEvent,
    quit_cmd: char,
    use_mouse: bool,
    items: Seq<UCLISelectItem<T>>,
) -> Option<Action> {
    match ev {
        RawEvent::Key(k) => {
            if k == Key::Char(quit_cmd) {
                Some(Action::Quit)
            } else {
                match k {
                    Key::Up => Some(Action::MoveUp),
                    Key::Down => Some(Action::MoveDown),
                    Key::Enter => Some(Action::Commit),
                    _ => None,
                }
            }
        }
        RawEvent::Pointer { row, column, kind } => {
            if !use_mouse {
                None
            } else if 1 <= row && row <= items.len() && column < items[row - 1].text@.len() {
                match kind {
                    PointerKind::Moved => Some(Action::PointerHover((row - 1) as usize)),
                    PointerKind::ButtonDown(PointerButton::Primary) => Some(
                        Action::PointerClick((row - 1) as usize),
                    ),
                    _ => None,
                }
            } else {
                None
            }
        }
        RawEvent::Other => None,
    }
}

/// Maps one raw event to at most one abstract action; see [`dispatch_view`]
/// for the exact mapping. Every pointer index it yields is an index of
/// `items`.
pub fn dispatch_event<T>(
    ev: &RawEvent,
    quit_cmd: char,
    use_mouse: bool,
    items: &Vec<UCLISelectItem<T>>,
) -> (a: Option<Action>)
    ensures
        a == dispatch_view(*ev, quit_cmd, use_mouse, items@),
        a matches Some(Action::PointerHover(i)) ==> i < items.len(),
        a matches Some(Action::PointerClick(i)) ==> i < items.len(),
{
    match ev {
        RawEvent::Key(k) => {
            if *k == Key::Char(quit_cmd) {
                Some(Action::Quit)
            } else {
                match k {
                    Key::Up => Some(Action::MoveUp),
                    Key::Down => Some(Action::MoveDown),
                    Key::Enter => Some(Action::Commit),
                    _ => None,
                }
            }
        }
        RawEvent::Pointer { row, column, kind } => {
            if !use_mouse {
                None
            } else if 1 <= *row && *row <= items.len()
                && *column < items[*row - 1].text.as_str().unicode_len() {
                match kind {
                    PointerKind::Moved => Some(Action::PointerHover(*row - 1)),
                    PointerKind::ButtonDown(PointerButton::Primary) => Some(
                        Action::PointerClick(*row - 1),
                    ),
                    _ => None,
                }
            } else {
                None
            }
        }
        RawEvent::Other => None,
    }
}

} // verus!
