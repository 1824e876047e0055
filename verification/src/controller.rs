//! The modal key handling: one function from the two models and a key to
//! the changed models and what the caller has to do next.
//!
//! Writing a file is the caller's work. Where a key asks for a save, the
//! step hands out the file to write and leaves the mode as it is; the
//! caller writes and reports through `save_finished`, which moves on.

use vstd::prelude::*;
use crate::app_state_model::{AppStateModel, AppStateView};
use crate::csv_model::{target_path, CsvModel, CsvModelView, FileWrite};
use crate::grid::{cell_at, col_inserted, col_removed, csv_text, row_inserted, row_removed, written};
use crate::utils_model::{InputMode, Position};
use crate::window::{
    area_left, calculate_current_grid_columns, calculate_prev_grid_columns, columns_fitting,
    columns_fitting_before, data_area_height, data_area_width, SIDE_CHROME, TOP_CHROME,
};

verus! {

/// A key press, as far as the editor tells keys apart.
#[derive(Debug, PartialEq, Eq, Clone, Copy, Structural)]
pub enum Key {
    Char(char),
    Enter,
    Backspace,
    Esc,
    Left,
    Right,
    Up,
    Down,
    Other,
}

/// What the caller does after a key was handled.
#[derive(Debug)]
pub enum Action {
    /// Draw and read the next key.
    Continue,
    /// Write this file, then report through `save_finished`.
    Write(FileWrite),
    /// Leave the program.
    Exit,
}

/// What an `Action` stands for.
pub ghost enum ActionView {
    Continue,
    Write { path: Seq<char>, contents: Seq<char> },
    Exit,
}

impl View for Action {
    type V = ActionView;

    open spec fn view(&self) -> ActionView {
        match self {
            Action::Continue => ActionView::Continue,
            Action::Write(file) => ActionView::Write {
                path: file.path@,
                contents: file.contents@,
            },
            Action::Exit => ActionView::Exit,
        }
    }
}

/// The models after a key, and what is to be done.
pub ghost struct Step {
    pub data: CsvModelView,
    pub state: AppStateView,
    pub action: ActionView,
}

/// The step that changes nothing.
pub open spec fn stay(d: CsvModelView, s: AppStateView) -> Step {
    Step { data: d, state: s, action: ActionView::Continue }
}

/// The step that only changes the mode.
pub open spec fn go_to(d: CsvModelView, s: AppStateView, mode: InputMode) -> Step {
    Step { data: d, state: AppStateView { input_mode: mode, ..s }, action: ActionView::Continue }
}

/// The step that asks for the grid to be written under `name`.
pub open spec fn write_as(d: CsvModelView, s: AppStateView, name: Seq<char>) -> Step {
    Step {
        data: d,
        state: s,
        action: ActionView::Write {
            path: target_path(name),
            contents: csv_text(d.cells, d.delimiter.spec_char()),
        },
    }
}

/// `from` lowered by `n`, and not below 0.
pub open spec fn lowered(from: usize, n: nat) -> usize {
    if from > n {
        (from - n) as usize
    } else {
        0
    }
}

/// `from` raised by `n` where the selected cell, at `absolute`, stays
/// addressable; else `from`.
pub open spec fn raised(from: usize, absolute: int, n: nat) -> usize {
    if absolute + n <= usize::MAX {
        (from + n) as usize
    } else {
        from
    }
}

/// The state with the selection moved to `(row, col)` of the window.
pub open spec fn select(s: AppStateView, row: usize, col: usize) -> AppStateView {
    AppStateView { relative_pos: Position { row, col }, ..s }
}

/// The state with the window's corner moved to `(row, col)`.
pub open spec fn scroll(s: AppStateView, row: usize, col: usize) -> AppStateView {
    AppStateView { corner_pos: Position { row, col }, ..s }
}

/// The state after a key that edits the input: a character is appended,
/// Backspace takes the last one away.
pub open spec fn typed(s: AppStateView, key: Key) -> AppStateView {
    match key {
        Key::Char(c) => AppStateView { input: s.input.push(c), ..s },
        Key::Backspace => if s.input.len() > 0 {
            AppStateView { input: s.input.drop_last(), ..s }
        } else {
            s
        },
        _ => s,
    }
}

/// A key in `Normal` mode, on a terminal of the given size.
pub open spec fn normal_step(
    d: CsvModelView,
    s: AppStateView,
    terminal_width: u16,
    terminal_height: u16,
    key: Key,
) -> Step {
    let rel = s.relative_pos;
    let corner = s.corner_pos;
    let area = area_left(terminal_width, SIDE_CHROME);
    let page_rows = area_left(terminal_height, TOP_CHROME);
    let page_cols = columns_fitting(d.cells, corner.col as int, area, 0);
    let page_cols_before = columns_fitting_before(d.cells, corner.col as nat, area, 0);
    if key == Key::Char('e') {
        Step {
            data: d,
            state: AppStateView {
                input: cell_at(d.cells, s.absolute_row(), s.absolute_col()),
                input_mode: InputMode::Editing,
                ..s
            },
            action: ActionView::Continue,
        }
    } else if key == Key::Char('q') {
        go_to(d, s, InputMode::Quiting)
    } else if key == Key::Char('s') {
        if d.saved {
            go_to(d, s, InputMode::Saved)
        } else {
            match d.filename {
                Some(name) => write_as(d, s, name),
                None => go_to(d, s, InputMode::Saving),
            }
        }
    } else if key == Key::Char('a') {
        go_to(d, s, InputMode::Saving)
    } else if key == Key::Left || key == Key::Char('h') {
        Step { state: select(s, rel.row, lowered(rel.col, 1)), ..stay(d, s) }
    } else if key == Key::Right || key == Key::Char('l') {
        Step { state: select(s, rel.row, raised(rel.col, s.absolute_col(), 1)), ..stay(d, s) }
    } else if key == Key::Up || key == Key::Char('k') {
        Step { state: select(s, lowered(rel.row, 1), rel.col), ..stay(d, s) }
    } else if key == Key::Down || key == Key::Char('j') {
        Step { state: select(s, raised(rel.row, s.absolute_row(), 1), rel.col), ..stay(d, s) }
    } else if key == Key::Char('H') {
        Step { state: scroll(s, corner.row, lowered(corner.col, page_cols_before)), ..stay(d, s) }
    } else if key == Key::Char('L') {
        Step {
            state: scroll(s, corner.row, raised(corner.col, s.absolute_col(), page_cols)),
            ..stay(d, s)
        }
    } else if key == Key::Char('K') {
        Step { state: scroll(s, lowered(corner.row, page_rows), corner.col), ..stay(d, s) }
    } else if key == Key::Char('J') {
        Step {
            state: scroll(s, raised(corner.row, s.absolute_row(), page_rows), corner.col),
            ..stay(d, s)
        }
    } else if key == Key::Char('r') {
        go_to(d, s, InputMode::SelectingRow)
    } else if key == Key::Char('c') {
        go_to(d, s, InputMode::SelectingCol)
    } else {
        stay(d, s)
    }
}

/// A key in `Editing` mode.
pub open spec fn editing_step(d: CsvModelView, s: AppStateView, key: Key) -> Step {
    match key {
        Key::Enter => Step {
            data: CsvModelView {
                cells: written(d.cells, s.absolute_row() as nat, s.absolute_col() as nat, s.input),
                saved: false,
                ..d
            },
            state: AppStateView { input: Seq::empty(), input_mode: InputMode::Normal, ..s },
            action: ActionView::Continue,
        },
        Key::Esc => Step {
            data: d,
            state: AppStateView { input: Seq::empty(), input_mode: InputMode::Normal, ..s },
            action: ActionView::Continue,
        },
        _ => Step { state: typed(s, key), ..stay(d, s) },
    }
}

/// A key while a file name is typed, in `Saving` mode or in `QuitSaving`
/// mode with no name stored.
pub open spec fn naming_step(d: CsvModelView, s: AppStateView, key: Key) -> Step {
    match key {
        Key::Enter => write_as(
            CsvModelView { filename: Some(s.input), ..d },
            AppStateView { input: Seq::empty(), ..s },
            s.input,
        ),
        Key::Esc => Step {
            data: d,
            state: AppStateView { input: Seq::empty(), input_mode: InputMode::Normal, ..s },
            action: ActionView::Continue,
        },
        _ => Step { state: typed(s, key), ..stay(d, s) },
    }
}

/// A key in `Quiting` mode.
pub open spec fn quiting_step(d: CsvModelView, s: AppStateView, key: Key) -> Step {
    if d.saved {
        Step { action: ActionView::Exit, ..stay(d, s) }
    } else if key == Key::Char('y') || key == Key::Char('Y') {
        go_to(d, s, InputMode::QuitSaving)
    } else if key == Key::Char('n') || key == Key::Char('N') {
        Step { action: ActionView::Exit, ..stay(d, s) }
    } else {
        stay(d, s)
    }
}

/// A key in `QuitSaving` mode.
pub open spec fn quit_saving_step(d: CsvModelView, s: AppStateView, key: Key) -> Step {
    match d.filename {
        Some(name) => write_as(d, s, name),
        None => naming_step(d, s, key),
    }
}

/// A key in `SelectingRow` mode.
pub open spec fn selecting_row_step(d: CsvModelView, s: AppStateView, key: Key) -> Step {
    if key == Key::Char('i') {
        go_to(
            CsvModelView {
                cells: row_inserted(d.cells, s.absolute_row() as nat),
                saved: false,
                ..d
            },
            s,
            InputMode::Normal,
        )
    } else if key == Key::Char('r') {
        go_to(
            CsvModelView { cells: row_removed(d.cells, s.absolute_row() as nat), saved: false, ..d },
            s,
            InputMode::Normal,
        )
    } else if key == Key::Esc {
        go_to(d, s, InputMode::Normal)
    } else {
        stay(d, s)
    }
}

/// A key in `SelectingCol` mode.
pub open spec fn selecting_col_step(d: CsvModelView, s: AppStateView, key: Key) -> Step {
    if key == Key::Char('i') {
        go_to(
            CsvModelView {
                cells: col_inserted(d.cells, s.absolute_col() as nat),
                saved: false,
                ..d
            },
            s,
            InputMode::Normal,
        )
    } else if key == Key::Char('r') {
        go_to(
            CsvModelView { cells: col_removed(d.cells, s.absolute_col() as nat), saved: false, ..d },
            s,
            InputMode::Normal,
        )
    } else if key == Key::Esc {
        go_to(d, s, InputMode::Normal)
    } else {
        stay(d, s)
    }
}

/// The whole transition table: what a key does in each mode.
pub open spec fn next_step(
    d: CsvModelView,
    s: AppStateView,
    terminal_width: u16,
    terminal_height: u16,
    key: Key,
) -> Step {
    match s.input_mode {
        InputMode::Normal => normal_step(d, s, terminal_width, terminal_height, key),
        InputMode::Editing => editing_step(d, s, key),
        InputMode::Saving => naming_step(d, s, key),
        InputMode::Saved | InputMode::SavedFailed => go_to(d, s, InputMode::Normal),
        InputMode::Quiting => quiting_step(d, s, key),
        InputMode::QuitSaving => quit_saving_step(d, s, key),
        InputMode::SelectingRow => selecting_row_step(d, s, key),
        InputMode::SelectingCol => selecting_col_step(d, s, key),
    }
}

/// The models after the caller has tried to write the file: a written file
/// leaves the grid saved and shows `Saved`, or goes back to `Quiting` where
/// the save was part of leaving; a failed write leaves the grid changed and
/// shows `SavedFailed`.
pub open spec fn after_save(d: CsvModelView, s: AppStateView, written: bool) -> (
    CsvModelView,
    AppStateView,
) {
    if written {
        (
            CsvModelView { saved: true, ..d },
            AppStateView {
                input_mode: if s.input_mode == InputMode::QuitSaving {
                    InputMode::Quiting
                } else {
                    InputMode::Saved
                },
                ..s
            },
        )
    } else {
        (CsvModelView { saved: false, ..d }, AppStateView { input_mode: InputMode::SavedFailed, ..s })
    }
}

/// Whether `key` is the character `c`.
fn is_char(key: &Key, c: char) -> (yes: bool)
    ensures
        yes == (*key == Key::Char(c)),
{
    match key {
        Key::Char(k) => *k == c,
        _ => false,
    }
}

/// Applies a key that edits the input.
fn type_key(app_state: &mut AppStateModel, key: &Key)
    ensures
        final(app_state)@ == typed(old(app_state)@, *key),
{
    match key {
        Key::Char(c) => {
            app_state.append_char_current_input(*c);
        },
        Key::Backspace => {
            app_state.pop_current_input();
        },
        _ => {},
    }
}

/// A key in `Normal` mode.
fn handle_normal(
    app_data: &mut CsvModel,
    app_state: &mut AppStateModel,
    terminal_width: u16,
    terminal_height: u16,
    key: &Key,
) -> (action: Action)
    ensures
        (Step { data: final(app_data)@, state: final(app_state)@, action: action@ }) == normal_step(
            old(app_data)@,
            old(app_state)@,
            terminal_width,
            terminal_height,
            *key,
        ),
{
    let absolute = app_state.get_absolute_pos();
    if is_char(key, 'e') {
        app_state.set_input_mode(InputMode::Editing);
        app_state.clear_input();
        app_state.append_str_current_input(app_data.get_cell_value(absolute.row, absolute.col));
        assert(Seq::<char>::empty() + cell_at(
            app_data@.cells,
            absolute.row as int,
            absolute.col as int,
        ) =~= cell_at(app_data@.cells, absolute.row as int, absolute.col as int));
    } else if is_char(key, 'q') {
        app_state.set_input_mode(InputMode::Quiting);
    } else if is_char(key, 's') {
        if app_data.is_in_saved_state() {
            app_state.set_input_mode(InputMode::Saved);
        } else {
            match app_data.save_data_to_file() {
                Ok(file) => {
                    return Action::Write(file);
                },
                Err(_) => {
                    app_state.set_input_mode(InputMode::Saving);
                },
            }
        }
    } else if is_char(key, 'a') {
        app_state.set_input_mode(InputMode::Saving);
    } else if *key == Key::Left || is_char(key, 'h') {
        app_state.decrement_relative_pos_col();
    } else if *key == Key::Right || is_char(key, 'l') {
        if absolute.col < usize::MAX {
            app_state.increment_relative_pos_col();
        }
    } else if *key == Key::Up || is_char(key, 'k') {
        app_state.decrement_relative_pos_row();
    } else if *key == Key::Down || is_char(key, 'j') {
        if absolute.row < usize::MAX {
            app_state.increment_relative_pos_row();
        }
    } else if is_char(key, 'H') {
        let page = calculate_prev_grid_columns(
            app_state,
            app_data,
            data_area_width(terminal_width) as usize,
        );
        app_state.remove_from_corner_pos_col(page);
    } else if is_char(key, 'L') {
        let page = calculate_current_grid_columns(
            app_state,
            app_data,
            data_area_width(terminal_width) as usize,
        );
        if page <= usize::MAX - absolute.col {
            app_state.add_to_corner_pos_col(page);
        }
    } else if is_char(key, 'K') {
        app_state.remove_from_corner_pos_row(data_area_height(terminal_height) as usize);
    } else if is_char(key, 'J') {
        let page = data_area_height(terminal_height) as usize;
        if page <= usize::MAX - absolute.row {
            app_state.add_to_corner_pos_row(page);
        }
    } else if is_char(key, 'r') {
        app_state.set_input_mode(InputMode::SelectingRow);
    } else if is_char(key, 'c') {
        app_state.set_input_mode(InputMode::SelectingCol);
    }
    Action::Continue
}

/// A key in `Editing` mode.
fn handle_editing(app_data: &mut CsvModel, app_state: &mut AppStateModel, key: &Key) -> (action:
    Action)
    ensures
        (Step { data: final(app_data)@, state: final(app_state)@, action: action@ })
            == editing_step(old(app_data)@, old(app_state)@, *key),
{
    match key {
        Key::Enter => {
            let absolute = app_state.get_absolute_pos();
            let text = app_state.drain_input();
            app_data.set_cell_value(absolute.row, absolute.col, text);
            app_state.set_input_mode(InputMode::Normal);
        },
        Key::Esc => {
            app_state.clear_input();
            app_state.set_input_mode(InputMode::Normal);
        },
        _ => {
            type_key(app_state, key);
        },
    }
    Action::Continue
}

/// A key while a file name is typed.
fn handle_naming(app_data: &mut CsvModel, app_state: &mut AppStateModel, key: &Key) -> (action:
    Action)
    ensures
        (Step { data: final(app_data)@, state: final(app_state)@, action: action@ }) == naming_step(
            old(app_data)@,
            old(app_state)@,
            *key,
        ),
{
    match key {
        Key::Enter => {
            let name = app_state.drain_input();
            let file = app_data.save_data_as(name.as_str());
            app_data.set_filename(name);
            Action::Write(file)
        },
        Key::Esc => {
            app_state.clear_input();
            app_state.set_input_mode(InputMode::Normal);
            Action::Continue
        },
        _ => {
            type_key(app_state, key);
            Action::Continue
        },
    }
}

/// A key in `Quiting` mode.
fn handle_quiting(app_data: &CsvModel, app_state: &mut AppStateModel, key: &Key) -> (action: Action)
    ensures
        (Step { data: app_data@, state: final(app_state)@, action: action@ }) == quiting_step(
            app_data@,
            old(app_state)@,
            *key,
        ),
{
    if app_data.is_in_saved_state() {
        Action::Exit
    } else if is_char(key, 'y') || is_char(key, 'Y') {
        app_state.set_input_mode(InputMode::QuitSaving);
        Action::Continue
    } else if is_char(key, 'n') || is_char(key, 'N') {
        Action::Exit
    } else {
        Action::Continue
    }
}

/// A key in `QuitSaving` mode.
fn handle_quit_saving(app_data: &mut CsvModel, app_state: &mut AppStateModel, key: &Key) -> (action:
    Action)
    ensures
        (Step { data: final(app_data)@, state: final(app_state)@, action: action@ })
            == quit_saving_step(old(app_data)@, old(app_state)@, *key),
{
    match app_data.save_data_to_file() {
        Ok(file) => Action::Write(file),
        Err(_) => handle_naming(app_data, app_state, key),
    }
}

/// A key in `SelectingRow` mode.
fn handle_selecting_row(app_data: &mut CsvModel, app_state: &mut AppStateModel, key: &Key) -> (action:
    Action)
    ensures
        (Step { data: final(app_data)@, state: final(app_state)@, action: action@ })
            == selecting_row_step(old(app_data)@, old(app_state)@, *key),
{
    let row = app_state.get_absolute_pos().row;
    if is_char(key, 'i') {
        app_data.insert_row(row);
        app_data.set_saved(false);
        app_state.set_input_mode(InputMode::Normal);
    } else if is_char(key, 'r') {
        app_data.remove_row(row);
        app_data.set_saved(false);
        app_state.set_input_mode(InputMode::Normal);
    } else if *key == Key::Esc {
        app_state.set_input_mode(InputMode::Normal);
    }
    Action::Continue
}

/// A key in `SelectingCol` mode.
fn handle_selecting_col(app_data: &mut CsvModel, app_state: &mut AppStateModel, key: &Key) -> (action:
    Action)
    ensures
        (Step { data: final(app_data)@, state: final(app_state)@, action: action@ })
            == selecting_col_step(old(app_data)@, old(app_state)@, *key),
{
    let col = app_state.get_absolute_pos().col;
    if is_char(key, 'i') {
        app_data.insert_col(col);
        app_data.set_saved(false);
        app_state.set_input_mode(InputMode::Normal);
    } else if is_char(key, 'r') {
        app_data.remove_col(col);
        app_data.set_saved(false);
        app_state.set_input_mode(InputMode::Normal);
    } else if *key == Key::Esc {
        app_state.set_input_mode(InputMode::Normal);
    }
    Action::Continue
}

/// Handles one key press on a terminal of the given size: changes the two
/// models as the transition table says and tells the caller what to do.
pub fn handle_key(
    app_data: &mut CsvModel,
    app_state: &mut AppStateModel,
    terminal_width: u16,
    terminal_height: u16,
    key: Key,
) -> (action: Action)
    ensures
        (Step { data: final(app_data)@, state: final(app_state)@, action: action@ }) == next_step(
            old(app_data)@,
            old(app_state)@,
            terminal_width,
            terminal_height,
            key,
        ),
{
    let mode = *app_state.get_input_mode();
    match mode {
        InputMode::Normal => handle_normal(app_data, app_state, terminal_width, terminal_height, &key),
        InputMode::Editing => handle_editing(app_data, app_state, &key),
        InputMode::Saving => handle_naming(app_data, app_state, &key),
        InputMode::Saved | InputMode::SavedFailed => {
            app_state.set_input_mode(InputMode::Normal);
            Action::Continue
        },
        InputMode::Quiting => handle_quiting(app_data, app_state, &key),
        InputMode::QuitSaving => handle_quit_saving(app_data, app_state, &key),
        InputMode::SelectingRow => handle_selecting_row(app_data, app_state, &key),
        InputMode::SelectingCol => handle_selecting_col(app_data, app_state, &key),
    }
}

/// Takes in what came of writing the file that a step asked for.
pub fn save_finished(app_data: &mut CsvModel, app_state: &mut AppStateModel, written: bool)
    ensures
        (final(app_data)@, final(app_state)@) == after_save(
            old(app_data)@,
            old(app_state)@,
            written,
        ),
{
    if written {
        app_data.set_saved(true);
        let mode = *app_state.get_input_mode();
        if mode == InputMode::QuitSaving {
            app_state.set_input_mode(InputMode::Quiting);
        } else {
            app_state.set_input_mode(InputMode::Saved);
        }
    } else {
        app_data.set_saved(false);
        app_state.set_input_mode(InputMode::SavedFailed);
    }
}

/// The program ends only from `Quiting` mode, and with changes not yet
/// saved only on the key `n` or `N`.
pub proof fn lemma_exit_is_confirmed(
    d: CsvModelView,
    s: AppStateView,
    terminal_width: u16,
    terminal_height: u16,
    key: Key,
)
    requires
        next_step(d, s, terminal_width, terminal_height, key).action == ActionView::Exit,
    ensures
        s.input_mode == InputMode::Quiting,
        d.saved || key == Key::Char('n') || key == Key::Char('N'),
        next_step(d, s, terminal_width, terminal_height, key).data == d,
{
}

/// No key moves the selected cell out of reach: after any key the cell
/// that corner and relative position name is still addressable, and the
/// relative position is lower than before by one at most on either axis.
pub proof fn lemma_step_keeps_addressable(
    d: CsvModelView,
    s: AppStateView,
    terminal_width: u16,
    terminal_height: u16,
    key: Key,
)
    requires
        s.addressable(),
    ensures
        next_step(d, s, terminal_width, terminal_height, key).state.addressable(),
        next_step(d, s, terminal_width, terminal_height, key).state.relative_pos.row + 1
            >= s.relative_pos.row,
        next_step(d, s, terminal_width, terminal_height, key).state.relative_pos.col + 1
            >= s.relative_pos.col,
{
}

} // verus!
