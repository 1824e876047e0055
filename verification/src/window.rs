//! The windowing math: how much of the terminal is left for cells, how many
//! whole columns fit in it, and what a frame shows.

use vstd::prelude::*;
use vstd::string::StringExecFns;
use crate::app_state_model::AppStateModel;
use crate::csv_model::CsvModel;
use crate::grid::{
    col_width, lemma_col_width_past_rows, max_row_len, segment, MIN_COL_WIDTH,
};
use crate::utils_model::{InputMode, Position, RunningMode, Size};

verus! {

/// Terminal columns taken by the two borders and the column of row numbers.
pub const SIDE_CHROME: u16 = 8;

/// Terminal rows taken by the status line, the input box, the two borders
/// and the line of column numbers.
pub const TOP_CHROME: u16 = 7;

/// What is left of `total` after `chrome` is taken away, and never below 0.
pub open spec fn area_left(total: u16, chrome: u16) -> nat {
    if total > chrome {
        (total - chrome) as nat
    } else {
        0
    }
}

/// The terminal columns left for cells.
pub fn data_area_width(terminal_width: u16) -> (width: u16)
    ensures
        width == area_left(terminal_width, SIDE_CHROME),
{
    if terminal_width > SIDE_CHROME {
        terminal_width - SIDE_CHROME
    } else {
        0
    }
}

/// The terminal rows left for cells.
pub fn data_area_height(terminal_height: u16) -> (height: u16)
    ensures
        height == area_left(terminal_height, TOP_CHROME),
{
    if terminal_height > TOP_CHROME {
        terminal_height - TOP_CHROME
    } else {
        0
    }
}

/// How many whole columns fit: starting at column `col` with `used` cells
/// already taken, a column is counted while its width and one separator
/// cell, added to what is taken, stay under `area`.
pub open spec fn columns_fitting(g: Seq<Seq<Seq<char>>>, col: int, area: nat, used: nat) -> nat
    decreases area - used,
{
    if used + col_width(g, col) + 1 < area {
        1 + columns_fitting(g, col + 1, area, used + col_width(g, col) + 1)
    } else {
        0
    }
}

/// How many columns the page to the left holds: counted like
/// `columns_fitting`, but walking from `col` towards column 0, which is
/// itself never counted.
pub open spec fn columns_fitting_before(g: Seq<Seq<Seq<char>>>, col: nat, area: nat, used: nat) -> nat
    decreases col,
{
    if used + col_width(g, col as int) + 1 < area && col > 0 {
        1 + columns_fitting_before(g, (col - 1) as nat, area, used + col_width(g, col as int) + 1)
    } else {
        0
    }
}

/// The width of column `corner + offset`, also where that index is past the
/// machine's integers.
fn width_at(app_data: &CsvModel, corner: usize, offset: usize) -> (w: usize)
    ensures
        w == col_width(app_data@.cells, corner + offset),
{
    if offset <= usize::MAX - corner {
        app_data.get_col_max_width(corner + offset)
    } else {
        let data = app_data._get_data();
        proof {
            assert forall|r: int| 0 <= r < data.deep_view().len() implies (
            #[trigger] data.deep_view()[r]).len() <= corner + offset by {
                assert(data.deep_view()[r].len() == data[r].len());
            }
            lemma_col_width_past_rows(app_data@.cells, corner + offset);
        }
        MIN_COL_WIDTH
    }
}

/// The number of whole columns, from the window's corner on, that fit in
/// `area_width` terminal cells.
pub fn calculate_current_grid_columns(
    app_state: &AppStateModel,
    app_data: &CsvModel,
    area_width: usize,
) -> (num_cols: usize)
    ensures
        num_cols == columns_fitting(
            app_data@.cells,
            app_state@.corner_pos.col as int,
            area_width as nat,
            0,
        ),
{
    let corner = app_state.get_corner_pos().col;
    let mut num_cols: usize = 0;
    let mut total_widths: usize = 0;
    loop
        invariant
            total_widths <= area_width,
            num_cols <= total_widths,
            columns_fitting(app_data@.cells, corner as int, area_width as nat, 0) == num_cols
                + columns_fitting(
                app_data@.cells,
                corner + num_cols,
                area_width as nat,
                total_widths as nat,
            ),
        ensures
            num_cols == columns_fitting(app_data@.cells, corner as int, area_width as nat, 0),
        decreases area_width - total_widths,
    {
        let w = width_at(app_data, corner, num_cols);
        let room = area_width - total_widths;
        if room >= 2 && w <= room - 2 {
            total_widths = total_widths + w + 1;
            num_cols = num_cols + 1;
        } else {
            break ;
        }
    }
    num_cols
}

/// The number of columns that the page to the left of the window holds.
pub fn calculate_prev_grid_columns(
    app_state: &AppStateModel,
    app_data: &CsvModel,
    area_width: usize,
) -> (num_cols: usize)
    ensures
        num_cols == columns_fitting_before(
            app_data@.cells,
            app_state@.corner_pos.col as nat,
            area_width as nat,
            0,
        ),
{
    let corner = app_state.get_corner_pos().col;
    let mut num_cols: usize = 0;
    let mut total_widths: usize = 0;
    let mut current_col: usize = corner;
    loop
        invariant
            total_widths <= area_width,
            current_col + num_cols == corner,
            columns_fitting_before(app_data@.cells, corner as nat, area_width as nat, 0)
                == num_cols + columns_fitting_before(
                app_data@.cells,
                current_col as nat,
                area_width as nat,
                total_widths as nat,
            ),
        ensures
            num_cols == columns_fitting_before(app_data@.cells, corner as nat, area_width as nat, 0),
        decreases current_col,
    {
        let w = app_data.get_col_max_width(current_col);
        let room = area_width - total_widths;
        if room >= 2 && w <= room - 2 && current_col > 0 {
            total_widths = total_widths + w + 1;
            num_cols = num_cols + 1;
            current_col = current_col - 1;
        } else {
            break ;
        }
    }
    num_cols
}

/// The size of the window on a terminal of the given size, in cells of the
/// grid.
pub open spec fn window_size(
    g: Seq<Seq<Seq<char>>>,
    corner_col: int,
    terminal_width: u16,
    terminal_height: u16,
) -> (nat, nat) {
    (
        columns_fitting(g, corner_col, area_left(terminal_width, SIDE_CHROME), 0),
        area_left(terminal_height, TOP_CHROME),
    )
}

/// The size of the window: as many columns as fit from the corner on, and
/// as many rows as the terminal has left.
pub fn calculate_grid_size(
    app_state: &AppStateModel,
    app_data: &CsvModel,
    terminal_width: u16,
    terminal_height: u16,
) -> (size: Size)
    ensures
        (size.width as nat, size.height as nat) == window_size(
            app_data@.cells,
            app_state@.corner_pos.col as int,
            terminal_width,
            terminal_height,
        ),
{
    Size {
        width: calculate_current_grid_columns(
            app_state,
            app_data,
            data_area_width(terminal_width) as usize,
        ),
        height: data_area_height(terminal_height) as usize,
    }
}

/// The display widths of the `count` columns from `corner_col` on.
pub fn get_column_widths(app_data: &CsvModel, corner_col: usize, count: usize) -> (widths: Vec<
    usize,
>)
    ensures
        widths.len() == count,
        forall|i: int|
            0 <= i < count ==> (#[trigger] widths[i]) == col_width(app_data@.cells, corner_col + i),
{
    let mut widths: Vec<usize> = Vec::new();
    let mut i: usize = 0;
    while i < count
        invariant
            i <= count,
            widths.len() == i,
            forall|k: int|
                0 <= k < i ==> (#[trigger] widths[k]) == col_width(
                    app_data@.cells,
                    corner_col + k,
                ),
        decreases count - i,
    {
        widths.push(width_at(app_data, corner_col, i));
        i += 1;
    }
    widths
}

/// All that a renderer is given to draw one frame.
#[derive(Debug)]
pub struct RenderDescriptor {
    pub visible_segment: Vec<Vec<String>>,
    pub viewport_size: Size,
    pub full_grid_size: Size,
    pub per_column_widths: Vec<usize>,
    pub corner_position: Position,
    pub relative_position: Position,
    pub input_mode: InputMode,
    pub running_mode: RunningMode,
    pub input_buffer_text: String,
    pub filename: Option<String>,
    pub saved_flag: bool,
}

/// A copy of a file name, if there is one.
fn copy_name(name: &Option<String>) -> (copy: Option<String>)
    ensures
        copy == *name,
{
    match name {
        Some(text) => Some(text.clone()),
        None => None,
    }
}

/// What a frame shows on a terminal of the given size: the window's size,
/// the cells in it and the widths of its columns, with the state that the
/// status line and the input box show.
pub fn describe_frame(
    app_data: &CsvModel,
    app_state: &AppStateModel,
    terminal_width: u16,
    terminal_height: u16,
) -> (frame: RenderDescriptor)
    ensures
        (frame.viewport_size.width as nat, frame.viewport_size.height as nat) == window_size(
            app_data@.cells,
            app_state@.corner_pos.col as int,
            terminal_width,
            terminal_height,
        ),
        frame.visible_segment.deep_view() == segment(
            app_data@.cells,
            app_state@.corner_pos.row as nat,
            app_state@.corner_pos.col as nat,
            frame.viewport_size.height as nat,
            frame.viewport_size.width as nat,
        ),
        frame.full_grid_size.width == max_row_len(app_data@.cells),
        frame.full_grid_size.height == app_data@.cells.len(),
        frame.per_column_widths.len() == frame.viewport_size.width,
        forall|i: int|
            0 <= i < frame.viewport_size.width ==> (#[trigger] frame.per_column_widths[i])
                == col_width(app_data@.cells, app_state@.corner_pos.col + i),
        frame.corner_position == app_state@.corner_pos,
        frame.relative_position == app_state@.relative_pos,
        frame.input_mode == app_state@.input_mode,
        frame.running_mode == app_state@.running_mode,
        frame.input_buffer_text@ == app_state@.input,
        match frame.filename {
            Some(name) => app_data@.filename == Some(name@),
            None => app_data@.filename is None,
        },
        frame.saved_flag == app_data@.saved,
{
    let viewport_size = calculate_grid_size(app_state, app_data, terminal_width, terminal_height);
    let corner_position = app_state.get_corner_pos();
    let input_buffer_text = String::from_str(app_state.get_input());
    RenderDescriptor {
        visible_segment: app_data.get_data_segment(&corner_position, &viewport_size),
        viewport_size,
        full_grid_size: app_data.get_data_size(),
        per_column_widths: get_column_widths(app_data, corner_position.col, viewport_size.width),
        corner_position,
        relative_position: app_state.get_relative_pos(),
        input_mode: *app_state.get_input_mode(),
        running_mode: *app_state.get_running_mode(),
        input_buffer_text,
        filename: copy_name(app_data.get_filename()),
        saved_flag: app_data.is_in_saved_state(),
    }
}

} // verus!
