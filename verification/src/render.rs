//! The render engine: a pure function from the item list, the cursor, the
//! glyph configuration and the prompt to the sequence of terminal draw
//! commands for one frame. Executing the commands is left to the caller.

use vstd::prelude::*;
use vstd::string::StringExecFns;
use crate::item::UCLISelectItem;

verus! {

/// How a piece of text is styled when drawn.
#[derive(Debug, Clone, Copy, PartialEq, Eq, Structural)]
pub enum Style {
    /// Unstyled text (the prompt line).
    Plain,
    /// A normal, selectable row.
    Normal,
    /// The row under the cursor, drawn inverted or highlighted.
    Highlight,
    /// A disabled row, drawn muted.
    Muted,
}

/// One terminal draw command. A frame is a sequence of these, executed in
/// order against the terminal.
#[derive(Debug, Clone, PartialEq)]
pub enum DrawCommand {
    /// Move the draw cursor to the 0-based screen cell (`column`, `row`).
    MoveTo {
        /// 0-based screen column.
        column: usize,
        /// 0-based screen row.
        row: usize,
    },
    /// Hide the terminal's own cursor.
    HideCursor,
    /// Show the terminal's own cursor again.
    ShowCursor,
    /// Clear the whole screen.
    ClearAll,
    /// Write `text` at the current position, styled.
    Text {
        /// The text to write.
        text: String,
        /// The style to draw it with.
        style: Style,
    },
}

/// The mathematical shape of a draw command: positions as integers, text as
/// a sequence of characters.
pub enum DrawCommandView {
    /// Move the draw cursor to (`column`, `row`).
    MoveTo {
        /// 0-based screen column.
        column: int,
        /// 0-based screen row.
        row: int,
    },
    /// Hide the terminal's own cursor.
    HideCursor,
    /// Show the terminal's own cursor again.
    ShowCursor,
    /// Clear the whole screen.
    ClearAll,
    /// Write `text` at the current position, styled.
    Text {
        /// The characters to write.
        text: Seq<char>,
        /// The style to draw them with.
        style: Style,
    },
}

impl View for DrawCommand {
    type V = DrawCommandView;

    open spec fn view(&self) -> DrawCommandView {
        match self {
            DrawCommand::MoveTo { column, row } => DrawCommandView::MoveTo {
                column: *column as int,
                row: *row as int,
            },
            DrawCommand::HideCursor => DrawCommandView::HideCursor,
            DrawCommand::ShowCursor => DrawCommandView::ShowCursor,
            DrawCommand::ClearAll => DrawCommandView::ClearAll,
            DrawCommand::Text { text, style } => DrawCommandView::Text {
                text: text@,
                style: *style,
            },
        }
    }
}

/// A rendered row: the glyph for the row's state, one space, the label.
pub open spec fn row_label_view(icon: Seq<char>, text: Seq<char>) -> Seq<char> {
    icon + " "@ + text
}

/// The style of item `i`: disabled styling takes precedence over cursor
/// highlighting, so a disabled item is muted even when the cursor is on it.
pub open spec fn row_style<T>(it: UCLISelectItem<T>, i: int, current: Option<usize>) -> Style {
    if it.disabled {
        Style::Muted
    } else if current matches Some(c) && c as int == i {
        Style::Highlight
    } else {
        Style::Normal
    }
}

/// The glyph of item `i`, chosen exactly as its style is.
pub open spec fn row_icon<T>(
    it: UCLISelectItem<T>,
    i: int,
    current: Option<usize>,
    default_icon: Seq<char>,
    selected_icon: Seq<char>,
    disabled_icon: Seq<char>,
) -> Seq<char> {
    if it.disabled {
        disabled_icon
    } else if current matches Some(c) && c as int == i {
        selected_icon
    } else {
        default_icon
    }
}

/// The two commands that draw item `i`: place the draw cursor at the start
/// of screen row `i + 1` (row 0 carries the prompt), then write the glyph
/// and label in the row's style.
pub open spec fn row_view<T>(
    it: UCLISelectItem<T>,
    i: int,
    current: Option<usize>,
    default_icon: Seq<char>,
    selected_icon: Seq<char>,
    disabled_icon: Seq<char>,
) -> Seq<DrawCommandView> {
    seq![
        DrawCommandView::MoveTo { column: 0, row: i + 1 },
        DrawCommandView::Text {
            text: row_label_view(
                row_icon(it, i, current, default_icon, selected_icon, disabled_icon),
                it.text@,
            ),
            style: row_style(it, i, current),
        },
    ]
}

/// The commands that draw the first `k` items, in list order.
pub open spec fn rows_view<T>(
    items: Seq<UCLISelectItem<T>>,
    current: Option<usize>,
    default_icon: Seq<char>,
    selected_icon: Seq<char>,
    disabled_icon: Seq<char>,
    k: int,
) -> Seq<DrawCommandView>
    decreases k,
{
    if k <= 0 {
        Seq::empty()
    } else {
        rows_view(items, current, default_icon, selected_icon, disabled_icon, k - 1)
            + row_view(items[k - 1], k - 1, current, default_icon, selected_icon, disabled_icon)
    }
}

/// The frame's opening commands: home the draw cursor, hide the terminal
/// cursor, clear the screen when a full clear was asked for, and write the
/// prompt line.
pub open spec fn header_view(prompt: Seq<char>, clear: bool) -> Seq<DrawCommandView> {
    let lead = seq![
        DrawCommandView::MoveTo { column: 0, row: 0 },
        DrawCommandView::HideCursor,
    ];
    (if clear {
        lead.push(DrawCommandView::ClearAll)
    } else {
        lead
    }).push(DrawCommandView::Text { text: prompt, style: Style::Plain })
}

/// One whole frame: the header, then two commands for each item in order.
pub open spec fn frame_view<T>(
    items: Seq<UCLISelectItem<T>>,
    current: Option<usize>,
    default_icon: Seq<char>,
    selected_icon: Seq<char>,
    disabled_icon: Seq<char>,
    prompt: Seq<char>,
    clear: bool,
) -> Seq<DrawCommandView> {
    header_view(prompt, clear) + rows_view(
        items,
        current,
        default_icon,
        selected_icon,
        disabled_icon,
        items.len() as int,
    )
}

/// Builds the text of one rendered row: the glyph, one space, the label.
fn styled_label(icon: &String, text: &String) -> (r: String)
    ensures
        r@ == row_label_view(icon@, text@),
{
    let mut s = icon.clone();
    s.append(" ");
    s.append(text.as_str());
    s
}

/// Computes the draw commands for one frame, in the order they are to be
/// executed: the header, then, for each item in list order, a move to its
/// row and its styled text. The result is exactly [`frame_view`] of the
/// inputs.
pub fn render_frame<T>(
    items: &Vec<UCLISelectItem<T>>,
    current: Option<usize>,
    default_icon: &String,
    selected_icon: &String,
    disabled_icon: &String,
    prompt: &String,
    clear: bool,
) -> (r: Vec<DrawCommand>)
    requires
        items.len() < usize::MAX,
    ensures
        r@.map_values(|c: DrawCommand| c@) == frame_view(
            items@,
            current,
            default_icon@,
            selected_icon@,
            disabled_icon@,
            prompt@,
            clear,
        ),
{
    let mut cmds: Vec<DrawCommand> = Vec::new();
    cmds.push(DrawCommand::MoveTo { column: 0, row: 0 });
    cmds.push(DrawCommand::HideCursor);
    if clear {
        cmds.push(DrawCommand::ClearAll);
    }
    cmds.push(DrawCommand::Text { text: prompt.clone(), style: Style::Plain });
    proof {
        assert(cmds@.map_values(|c: DrawCommand| c@) =~= header_view(prompt@, clear));
    }
    let mut i: usize = 0;
    while i < items.len()
        invariant
            i <= items.len(),
            items.len() < usize::MAX,
            cmds@.map_values(|c: DrawCommand| c@) == header_view(prompt@, clear) + rows_view(
                items@,
                current,
                default_icon@,
                selected_icon@,
                disabled_icon@,
                i as int,
            ),
        decreases items.len() - i,
    {
        let ghost pre = cmds@;
        let it = &items[i];
        let is_cursor = match current {
            Some(c) => c == i,
            None => false,
        };
        let mv = DrawCommand::MoveTo { column: 0, row: i + 1 };
        cmds.push(mv);
        let cmd = if it.disabled {
            DrawCommand::Text { text: styled_label(disabled_icon, &it.text), style: Style::Muted }
        } else if is_cursor {
            DrawCommand::Text { text: styled_label(selected_icon, &it.text), style: Style::Highlight }
        } else {
            DrawCommand::Text { text: styled_label(default_icon, &it.text), style: Style::Normal }
        };
        cmds.push(cmd);
        proof {
            let row = row_view(items@[i as int], i as int, current, default_icon@,
                selected_icon@, disabled_icon@);
            assert(mv@ == row[0]);
            assert(cmd@ == row[1]);
            assert(cmds@ == pre.push(mv).push(cmd));
            assert(cmds@.map_values(|c: DrawCommand| c@) =~= pre.map_values(
                |c: DrawCommand| c@,
            ).push(mv@).push(cmd@));
            assert(rows_view(items@, current, default_icon@, selected_icon@, disabled_icon@,
                i + 1) == rows_view(items@, current, default_icon@, selected_icon@,
                disabled_icon@, i as int) + row);
            assert(cmds@.map_values(|c: DrawCommand| c@) =~= header_view(prompt@, clear)
                + rows_view(
                items@,
                current,
                default_icon@,
                selected_icon@,
                disabled_icon@,
                i + 1,
            ));
        }
        i += 1;
    }
    proof {
        assert(cmds@.map_values(|c: DrawCommand| c@) =~= frame_view(
            items@,
            current,
            default_icon@,
            selected_icon@,
            disabled_icon@,
            prompt@,
            clear,
        ));
    }
    cmds
}

} // verus!
