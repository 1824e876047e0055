//! What a renderer shows that is a matter of rule, not of drawing: the text
//! of a cell padded to its column, which cells are marked as selected, and
//! the title of the input box.

use vstd::prelude::*;
use vstd::string::StringExecFns;
use crate::grid::{cell_at, cell_len, MIN_COL_WIDTH};
use crate::grid_ops::get_cell_value;
use crate::text::push_char;
use crate::utils_model::{InputMode, Position};
use crate::window::RenderDescriptor;

verus! {

/// The title of the input box in each mode.
pub open spec fn input_title(mode: InputMode) -> Seq<char> {
    match mode {
        InputMode::Normal => "Input - Normal"@,
        InputMode::SavedFailed => "Input - Saved Failed"@,
        InputMode::Quiting => "Input - Quiting"@,
        InputMode::QuitSaving => "Input - Saving and Quiting"@,
        InputMode::Editing => "Input - Editing"@,
        InputMode::Saved => "Input - Saved"@,
        InputMode::Saving => "Input - Saving"@,
        InputMode::SelectingRow => "Input - Row Selected"@,
        InputMode::SelectingCol => "Input - Column Selected"@,
    }
}

/// The title of the input box.
pub fn generate_input_title(input_mode: &InputMode) -> (title: &'static str)
    ensures
        title@ == input_title(*input_mode),
{
    match input_mode {
        InputMode::Normal => "Input - Normal",
        InputMode::SavedFailed => "Input - Saved Failed",
        InputMode::Quiting => "Input - Quiting",
        InputMode::QuitSaving => "Input - Saving and Quiting",
        InputMode::Editing => "Input - Editing",
        InputMode::Saved => "Input - Saved",
        InputMode::Saving => "Input - Saving",
        InputMode::SelectingRow => "Input - Row Selected",
        InputMode::SelectingCol => "Input - Column Selected",
    }
}

/// What is shown in place of an empty cell.
pub open spec fn placeholder() -> Seq<char> {
    "_____"@
}

/// The text shown for a cell in a column of the given width: the cell's
/// text, or the placeholder for an empty cell, filled up with `_` to the
/// column's width.
pub open spec fn shown_text(cell: Seq<char>, width: nat) -> Seq<char> {
    let base = if cell.len() == 0 {
        placeholder()
    } else {
        cell
    };
    if cell_len(base) < width {
        base + Seq::new((width - cell_len(base)) as nat, |i: int| '_')
    } else {
        base
    }
}

/// The text shown for a cell in a column of the given width.
pub fn cell_text(cell: &str, width: usize) -> (text: String)
    ensures
        text@ == shown_text(cell@, width as nat),
{
    let base = if cell.is_empty() {
        "_____"
    } else {
        cell
    };
    let mut text = String::from_str(base);
    let len = base.as_bytes().len();
    if len < width {
        let mut added: usize = 0;
        while added < width - len
            invariant
                len < width,
                added <= width - len,
                text@ == base@ + Seq::new(added as nat, |i: int| '_'),
            decreases width - len - added,
        {
            push_char(&mut text, '_');
            added += 1;
            assert(text@ =~= base@ + Seq::new(added as nat, |i: int| '_'));
        }
    } else {
        assert(text@ =~= base@);
    }
    text
}

/// Whether the cell at `(row, col)` of the window is marked: the selected
/// cell while moving or editing, its whole row or column while a row or a
/// column is selected, and nothing in the other modes.
pub open spec fn marked(mode: InputMode, relative_pos: Position, row: int, col: int) -> bool {
    match mode {
        InputMode::Normal | InputMode::Editing => relative_pos.row == row && relative_pos.col
            == col,
        InputMode::SelectingRow => relative_pos.row == row,
        InputMode::SelectingCol => relative_pos.col == col,
        _ => false,
    }
}

/// Whether the cell at `(row, col)` of the window is marked.
pub fn is_marked(input_mode: &InputMode, relative_pos: &Position, row: usize, col: usize) -> (yes:
    bool)
    ensures
        yes == marked(*input_mode, *relative_pos, row as int, col as int),
{
    match input_mode {
        InputMode::Normal | InputMode::Editing => relative_pos.row == row && relative_pos.col
            == col,
        InputMode::SelectingRow => relative_pos.row == row,
        InputMode::SelectingCol => relative_pos.col == col,
        _ => false,
    }
}

/// Whether the cursor stands in the input box: while text is typed.
pub fn shows_cursor(input_mode: &InputMode) -> (yes: bool)
    ensures
        yes == (*input_mode == InputMode::Editing || *input_mode == InputMode::Saving
            || *input_mode == InputMode::QuitSaving),
{
    match input_mode {
        InputMode::Editing | InputMode::Saving | InputMode::QuitSaving => true,
        _ => false,
    }
}

/// One piece of the status line: its text, and whether it is set in bold.
#[derive(Debug)]
pub struct MessagePart {
    pub text: &'static str,
    pub bold: bool,
}

/// The status line: its pieces in order, and whether the line blinks.
#[derive(Debug)]
pub struct HeaderMessage {
    pub parts: Vec<MessagePart>,
    pub blink: bool,
}

/// What a `HeaderMessage` stands for.
pub ghost struct HeaderMessageView {
    pub parts: Seq<(Seq<char>, bool)>,
    pub blink: bool,
}

impl View for HeaderMessage {
    type V = HeaderMessageView;

    open spec fn view(&self) -> HeaderMessageView {
        HeaderMessageView {
            parts: Seq::new(self.parts.len() as nat, |i: int| (self.parts[i].text@, self.parts[i].bold)),
            blink: self.blink,
        }
    }
}

/// A piece in plain type.
pub open spec fn raw(text: Seq<char>) -> (Seq<char>, bool) {
    (text, false)
}

/// A piece in bold type.
pub open spec fn strong(text: Seq<char>) -> (Seq<char>, bool) {
    (text, true)
}

/// The status line while a file name is asked for.
pub open spec fn name_prompt() -> Seq<(Seq<char>, bool)> {
    seq![
        raw("Press "@),
        strong("Enter"@),
        raw(" to save file as, "@),
        strong("Esc"@),
        raw(" to cancel saving"@),
    ]
}

/// The status line while a row or a column is selected, with the words for
/// putting one in and for taking one out.
pub open spec fn selection_prompt(insert: Seq<char>, remove: Seq<char>) -> Seq<(Seq<char>, bool)> {
    seq![
        raw("Press "@),
        strong("i"@),
        raw(insert),
        strong("r"@),
        raw(remove),
        strong("Esc"@),
        raw(" to cancel"@),
    ]
}

/// The status line in each mode. Only `Normal` mode blinks. In `QuitSaving`
/// mode the line depends on whether a file name is known, in `Quiting` mode
/// on whether the grid is saved.
pub open spec fn header_message(mode: InputMode, named: bool, saved: bool) -> HeaderMessageView {
    match mode {
        InputMode::Normal => HeaderMessageView {
            parts: seq![
                raw("Press "@),
                strong("q"@),
                raw(" to exit, "@),
                strong("e"@),
                raw(" to Start editing, "@),
                strong("s"@),
                raw(" to save, "@),
                strong("a"@),
                raw(" to save as new file."@),
            ],
            blink: true,
        },
        InputMode::Editing => HeaderMessageView {
            parts: seq![
                raw("Press "@),
                strong("Esc"@),
                raw(" to stop editing, "@),
                strong("Enter"@),
                raw(" to record the message"@),
            ],
            blink: false,
        },
        InputMode::Saving => HeaderMessageView { parts: name_prompt(), blink: false },
        InputMode::QuitSaving => HeaderMessageView {
            parts: if named {
                seq![raw("Saving. Press any Key to continue"@)]
            } else {
                name_prompt()
            },
            blink: false,
        },
        InputMode::Saved => HeaderMessageView {
            parts: seq![raw("File saved successfully."@), raw("Press any Key to continue"@)],
            blink: false,
        },
        InputMode::SavedFailed => HeaderMessageView {
            parts: seq![
                raw("File save failed. Try Saving as a new file."@),
                raw("Press any Key to continue"@),
            ],
            blink: false,
        },
        InputMode::Quiting => HeaderMessageView {
            parts: if saved {
                seq![raw("Quiting. Press any Key to continue"@)]
            } else {
                seq![raw("File not saved."@), raw("Save file first? Press "@), strong("Y or N"@)]
            },
            blink: false,
        },
        InputMode::SelectingRow => HeaderMessageView {
            parts: selection_prompt(" to insert row, "@, " to remove row, "@),
            blink: false,
        },
        InputMode::SelectingCol => HeaderMessageView {
            parts: selection_prompt(" to insert column, "@, " to remove column, "@),
            blink: false,
        },
    }
}

fn plain_part(text: &'static str) -> (part: MessagePart)
    ensures
        part.text@ == text@,
        !part.bold,
{
    MessagePart { text, bold: false }
}

fn bold_part(text: &'static str) -> (part: MessagePart)
    ensures
        part.text@ == text@,
        part.bold,
{
    MessagePart { text, bold: true }
}

fn name_prompt_parts() -> (parts: Vec<MessagePart>)
    ensures
        Seq::new(parts.len() as nat, |i: int| (parts[i].text@, parts[i].bold)) == name_prompt(),
{
    let parts = vec![
        plain_part("Press "),
        bold_part("Enter"),
        plain_part(" to save file as, "),
        bold_part("Esc"),
        plain_part(" to cancel saving"),
    ];
    assert(Seq::new(parts.len() as nat, |i: int| (parts[i].text@, parts[i].bold))
        =~= name_prompt());
    parts
}

fn selection_prompt_parts(insert: &'static str, remove: &'static str) -> (parts: Vec<MessagePart>)
    ensures
        Seq::new(parts.len() as nat, |i: int| (parts[i].text@, parts[i].bold)) == selection_prompt(
            insert@,
            remove@,
        ),
{
    let parts = vec![
        plain_part("Press "),
        bold_part("i"),
        plain_part(insert),
        bold_part("r"),
        plain_part(remove),
        bold_part("Esc"),
        plain_part(" to cancel"),
    ];
    assert(Seq::new(parts.len() as nat, |i: int| (parts[i].text@, parts[i].bold))
        =~= selection_prompt(insert@, remove@));
    parts
}

/// The status line for the mode, the file name and the saved flag.
pub fn generate_header_msg(input_mode: &InputMode, filename: &Option<String>, is_saved: bool) -> (msg:
    HeaderMessage)
    ensures
        msg@ == header_message(*input_mode, *filename is Some, is_saved),
{
    let msg = match input_mode {
        InputMode::Normal => HeaderMessage {
            parts: vec![
                plain_part("Press "),
                bold_part("q"),
                plain_part(" to exit, "),
                bold_part("e"),
                plain_part(" to Start editing, "),
                bold_part("s"),
                plain_part(" to save, "),
                bold_part("a"),
                plain_part(" to save as new file."),
            ],
            blink: true,
        },
        InputMode::Editing => HeaderMessage {
            parts: vec![
                plain_part("Press "),
                bold_part("Esc"),
                plain_part(" to stop editing, "),
                bold_part("Enter"),
                plain_part(" to record the message"),
            ],
            blink: false,
        },
        InputMode::Saving => HeaderMessage { parts: name_prompt_parts(), blink: false },
        InputMode::QuitSaving => match filename {
            Some(_) => HeaderMessage {
                parts: vec![plain_part("Saving. Press any Key to continue")],
                blink: false,
            },
            None => HeaderMessage { parts: name_prompt_parts(), blink: false },
        },
        InputMode::Saved => HeaderMessage {
            parts: vec![
                plain_part("File saved successfully."),
                plain_part("Press any Key to continue"),
            ],
            blink: false,
        },
        InputMode::SavedFailed => HeaderMessage {
            parts: vec![
                plain_part("File save failed. Try Saving as a new file."),
                plain_part("Press any Key to continue"),
            ],
            blink: false,
        },
        InputMode::Quiting => if is_saved {
            HeaderMessage {
                parts: vec![plain_part("Quiting. Press any Key to continue")],
                blink: false,
            }
        } else {
            HeaderMessage {
                parts: vec![
                    plain_part("File not saved."),
                    plain_part("Save file first? Press "),
                    bold_part("Y or N"),
                ],
                blink: false,
            }
        },
        InputMode::SelectingRow => HeaderMessage {
            parts: selection_prompt_parts(" to insert row, ", " to remove row, "),
            blink: false,
        },
        InputMode::SelectingCol => HeaderMessage {
            parts: selection_prompt_parts(" to insert column, ", " to remove column, "),
            blink: false,
        },
    };
    assert(msg@.parts =~= header_message(*input_mode, *filename is Some, is_saved).parts);
    msg
}

/// How a cell of the table is set.
#[derive(Debug, PartialEq, Eq, Clone, Copy, Structural)]
pub enum CellStyle {
    /// As it is.
    Plain,
    /// Faded: an empty cell.
    Dim,
    /// Picked out: a selected cell.
    Marked,
    /// Picked out and blinking: the selected cell while moving about.
    MarkedBlinking,
}

/// One cell of the table as it is shown.
#[derive(Debug)]
pub struct ShownCell {
    pub text: String,
    pub style: CellStyle,
}

/// How the cell at `(row, col)` of the window is set: while a file is saved
/// or the program is left, every cell is plain; else a marked cell is picked
/// out, blinking in `Normal` mode, and of the others the empty ones are
/// faded.
pub open spec fn style_of(
    mode: InputMode,
    relative_pos: Position,
    row: int,
    col: int,
    has_value: bool,
) -> CellStyle {
    if mode == InputMode::Saving || mode == InputMode::Saved || mode == InputMode::SavedFailed
        || mode == InputMode::Quiting || mode == InputMode::QuitSaving {
        CellStyle::Plain
    } else if marked(mode, relative_pos, row, col) {
        if mode == InputMode::Normal {
            CellStyle::MarkedBlinking
        } else {
            CellStyle::Marked
        }
    } else if has_value {
        CellStyle::Plain
    } else {
        CellStyle::Dim
    }
}

/// How the cell at `(row, col)` of the window is set.
pub fn cell_style(
    input_mode: &InputMode,
    relative_pos: &Position,
    row: usize,
    col: usize,
    has_value: bool,
) -> (style: CellStyle)
    ensures
        style == style_of(*input_mode, *relative_pos, row as int, col as int, has_value),
{
    match input_mode {
        InputMode::Saving
        | InputMode::Saved
        | InputMode::SavedFailed
        | InputMode::Quiting
        | InputMode::QuitSaving => CellStyle::Plain,
        _ => {
            if is_marked(input_mode, relative_pos, row, col) {
                match input_mode {
                    InputMode::Normal => CellStyle::MarkedBlinking,
                    _ => CellStyle::Marked,
                }
            } else if has_value {
                CellStyle::Plain
            } else {
                CellStyle::Dim
            }
        },
    }
}

/// The width of column `col` of the window: as listed, or `MIN_COL_WIDTH`
/// where the list is too short.
pub open spec fn listed_width(widths: Seq<usize>, col: int) -> nat {
    if 0 <= col < widths.len() {
        widths[col] as nat
    } else {
        MIN_COL_WIDTH as nat
    }
}

/// The table of a frame: a row for each row of the window and in it a cell
/// for each column of the window, each with the text and the style it is
/// shown in. Cells that the visible segment does not hold are shown as
/// empty cells.
pub fn table_cells(frame: &RenderDescriptor) -> (table: Vec<Vec<ShownCell>>)
    ensures
        table.len() == frame.viewport_size.height,
        forall|r: int| 0 <= r < table.len() ==> (#[trigger] table[r]).len() == frame.viewport_size.width,
        forall|r: int, c: int|
            0 <= r < frame.viewport_size.height && 0 <= c < frame.viewport_size.width ==> {
                let cell = cell_at(frame.visible_segment.deep_view(), r, c);
                &&& (#[trigger] table[r][c]).text@ == shown_text(
                    cell,
                    listed_width(frame.per_column_widths@, c),
                )
                &&& table[r][c].style == style_of(
                    frame.input_mode,
                    frame.relative_position,
                    r,
                    c,
                    cell.len() > 0,
                )
            },
{
    let mut table: Vec<Vec<ShownCell>> = Vec::new();
    let mut row: usize = 0;
    while row < frame.viewport_size.height
        invariant
            row <= frame.viewport_size.height,
            table.len() == row,
            forall|r: int| 0 <= r < table.len() ==> (#[trigger] table[r]).len() == frame.viewport_size.width,
            forall|r: int, c: int|
                0 <= r < row && 0 <= c < frame.viewport_size.width ==> {
                    let cell = cell_at(frame.visible_segment.deep_view(), r, c);
                    &&& (#[trigger] table[r][c]).text@ == shown_text(
                        cell,
                        listed_width(frame.per_column_widths@, c),
                    )
                    &&& table[r][c].style == style_of(
                        frame.input_mode,
                        frame.relative_position,
                        r,
                        c,
                        cell.len() > 0,
                    )
                },
        decreases frame.viewport_size.height - row,
    {
        let mut cells: Vec<ShownCell> = Vec::new();
        let mut col: usize = 0;
        while col < frame.viewport_size.width
            invariant
                col <= frame.viewport_size.width,
                cells.len() == col,
                forall|c: int|
                    0 <= c < col ==> {
                        let cell = cell_at(frame.visible_segment.deep_view(), row as int, c);
                        &&& (#[trigger] cells[c]).text@ == shown_text(
                            cell,
                            listed_width(frame.per_column_widths@, c),
                        )
                        &&& cells[c].style == style_of(
                            frame.input_mode,
                            frame.relative_position,
                            row as int,
                            c,
                            cell.len() > 0,
                        )
                    },
            decreases frame.viewport_size.width - col,
        {
            let cell = get_cell_value(&frame.visible_segment, row, col);
            let width = if col < frame.per_column_widths.len() {
                frame.per_column_widths[col]
            } else {
                MIN_COL_WIDTH
            };
            let shown = ShownCell {
                text: cell_text(cell, width),
                style: cell_style(
                    &frame.input_mode,
                    &frame.relative_position,
                    row,
                    col,
                    !cell.is_empty(),
                ),
            };
            cells.push(shown);
            col += 1;
        }
        table.push(cells);
        row += 1;
    }
    table
}

} // verus!
