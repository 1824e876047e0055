//! The editor's model in one piece: the cells, the file they belong to, the
//! selected cell counted in pages, the mode and the input.

use vstd::prelude::*;
use vstd::string::StringExecFns;
use crate::csv_model::{
    csv_records, read_records, target_path, FileRead, FileWrite, LoadError, SaveError,
};
use crate::grid::{
    cell_at, col_inserted, col_removed, col_width, csv_text, max_row_len, row_inserted,
    row_removed, trimmed, written,
};
use crate::text::{ends_with, pop_char, push_char};
use crate::utils_model::{InputMode, InsertMode, Position, Size};

verus! {

/// What a `DefaultAppModel` stands for.
pub ghost struct DefaultAppView {
    pub input: Seq<char>,
    pub input_mode: InputMode,
    pub cells: Seq<Seq<Seq<char>>>,
    pub pos: Position,
    pub saved: bool,
    pub filename: Option<Seq<char>>,
    pub page_pos: Position,
    pub page_size: Size,
}

impl DefaultAppView {
    /// The row of the selected cell in the grid: the rows of the pages before
    /// it, and its row on its page.
    pub open spec fn absolute_row(self) -> int {
        self.page_size.height * self.page_pos.row + self.pos.row
    }

    /// The column of the selected cell in the grid.
    pub open spec fn absolute_col(self) -> int {
        self.page_size.width * self.page_pos.col + self.pos.col
    }
}

/// The selected cell, counted in pages, kept so that its absolute
/// coordinates fit the machine's integers.
#[derive(Debug)]
struct PagedPlace {
    pos: Position,
    page_pos: Position,
    page_size: Size,
}

impl PagedPlace {
    #[verifier::type_invariant]
    closed spec fn inv(&self) -> bool {
        self.page_size.height * self.page_pos.row + self.pos.row <= usize::MAX
            && self.page_size.width * self.page_pos.col + self.pos.col <= usize::MAX
    }
}

#[derive(Debug)]
pub struct DefaultAppModel {
    /// Current value of the input box
    input: String,
    /// Current input mode
    input_mode: InputMode,
    data: Vec<Vec<String>>,
    saved: bool,
    filename: Option<String>,
    place: PagedPlace,
}

impl View for DefaultAppModel {
    type V = DefaultAppView;

    closed spec fn view(&self) -> DefaultAppView {
        DefaultAppView {
            input: self.input@,
            input_mode: self.input_mode,
            cells: self.data.deep_view(),
            pos: self.place.pos,
            saved: self.saved,
            filename: match self.filename {
                Some(name) => Some(name@),
                None => None,
            },
            page_pos: self.place.page_pos,
            page_size: self.place.page_size,
        }
    }
}

/// The model at start: no cells, no file name, nothing typed, the first
/// cell of the first page selected, pages of no size.
pub open spec fn initial_view() -> DefaultAppView {
    DefaultAppView {
        input: Seq::empty(),
        input_mode: InputMode::Normal,
        cells: Seq::empty(),
        pos: Position { row: 0, col: 0 },
        saved: true,
        filename: None,
        page_pos: Position { row: 0, col: 0 },
        page_size: Size { width: 0, height: 0 },
    }
}

impl Default for DefaultAppModel {
    fn default() -> (app: DefaultAppModel)
        ensures
            app@ == initial_view(),
    {
        let app = DefaultAppModel {
            input: String::new(),
            input_mode: InputMode::Normal,
            data: Vec::new(),
            saved: true,
            filename: None,
            place: PagedPlace {
                pos: Position { row: 0, col: 0 },
                page_pos: Position { row: 0, col: 0 },
                page_size: Size { width: 0, height: 0 },
            },
        };
        assert(app.data.deep_view() =~= Seq::empty());
        app
    }
}

impl DefaultAppModel {
    pub fn get_filename(&self) -> (name: &Option<String>)
        ensures
            match *name {
                Some(text) => self@.filename == Some(text@),
                None => self@.filename is None,
            },
    {
        &self.filename
    }

    pub fn get_current_pos(&self) -> (pos: &Position)
        ensures
            *pos == self@.pos,
    {
        &self.place.pos
    }

    /// The selected cell's coordinates in the grid.
    pub fn get_absolute_pos(&self) -> (pos: Position)
        ensures
            pos.row == self@.absolute_row(),
            pos.col == self@.absolute_col(),
    {
        proof {
            use_type_invariant(&self.place);
        }
        Position {
            row: self.place.page_size.height * self.place.page_pos.row + self.place.pos.row,
            col: self.place.page_size.width * self.place.page_pos.col + self.place.pos.col,
        }
    }

    pub fn increment_current_pos_row(&mut self)
        requires
            old(self)@.absolute_row() < usize::MAX,
        ensures
            final(self)@ == (DefaultAppView {
                pos: Position { row: (old(self)@.pos.row + 1) as usize, col: old(self)@.pos.col },
                ..old(self)@
            }),
            final(self)@.pos.row == old(self)@.pos.row + 1,
    {
        proof {
            use_type_invariant(&self.place);
        }
        self.place.pos.row += 1;
    }

    pub fn decrement_current_pos_row(&mut self)
        ensures
            final(self)@ == (DefaultAppView {
                pos: Position {
                    row: if old(self)@.pos.row > 0 {
                        (old(self)@.pos.row - 1) as usize
                    } else {
                        0
                    },
                    col: old(self)@.pos.col,
                },
                ..old(self)@
            }),
    {
        proof {
            use_type_invariant(&self.place);
        }
        if self.place.pos.row > 0 {
            self.place.pos.row -= 1;
        }
    }

    pub fn increment_current_pos_col(&mut self)
        requires
            old(self)@.absolute_col() < usize::MAX,
        ensures
            final(self)@ == (DefaultAppView {
                pos: Position { row: old(self)@.pos.row, col: (old(self)@.pos.col + 1) as usize },
                ..old(self)@
            }),
            final(self)@.pos.col == old(self)@.pos.col + 1,
    {
        proof {
            use_type_invariant(&self.place);
        }
        self.place.pos.col += 1;
    }

    pub fn decrement_current_pos_col(&mut self)
        ensures
            final(self)@ == (DefaultAppView {
                pos: Position {
                    row: old(self)@.pos.row,
                    col: if old(self)@.pos.col > 0 {
                        (old(self)@.pos.col - 1) as usize
                    } else {
                        0
                    },
                },
                ..old(self)@
            }),
    {
        proof {
            use_type_invariant(&self.place);
        }
        if self.place.pos.col > 0 {
            self.place.pos.col -= 1;
        }
    }

    pub fn get_current_page_pos(&self) -> (pos: &Position)
        ensures
            *pos == self@.page_pos,
    {
        &self.place.page_pos
    }

    pub fn increment_current_page_pos_row(&mut self)
        requires
            old(self)@.absolute_row() + old(self)@.page_size.height <= usize::MAX,
            old(self)@.page_pos.row < usize::MAX,
        ensures
            final(self)@ == (DefaultAppView {
                page_pos: Position {
                    row: (old(self)@.page_pos.row + 1) as usize,
                    col: old(self)@.page_pos.col,
                },
                ..old(self)@
            }),
            final(self)@.page_pos.row == old(self)@.page_pos.row + 1,
    {
        proof {
            use_type_invariant(&self.place);
            assert(self.place.page_size.height * (self.place.page_pos.row + 1)
                == self.place.page_size.height * self.place.page_pos.row
                + self.place.page_size.height) by (nonlinear_arith);
        }
        self.place.page_pos.row += 1;
    }

    pub fn decrement_current_page_pos_row(&mut self)
        ensures
            final(self)@ == (DefaultAppView {
                page_pos: Position {
                    row: if old(self)@.page_pos.row > 0 {
                        (old(self)@.page_pos.row - 1) as usize
                    } else {
                        0
                    },
                    col: old(self)@.page_pos.col,
                },
                ..old(self)@
            }),
    {
        proof {
            use_type_invariant(&self.place);
            if self.place.page_pos.row > 0 {
                assert(self.place.page_size.height * (self.place.page_pos.row - 1)
                    <= self.place.page_size.height * self.place.page_pos.row)
                    by (nonlinear_arith);
            }
        }
        if self.place.page_pos.row > 0 {
            self.place.page_pos.row -= 1;
        }
    }

    pub fn increment_current_page_pos_col(&mut self)
        requires
            old(self)@.absolute_col() + old(self)@.page_size.width <= usize::MAX,
            old(self)@.page_pos.col < usize::MAX,
        ensures
            final(self)@ == (DefaultAppView {
                page_pos: Position {
                    row: old(self)@.page_pos.row,
                    col: (old(self)@.page_pos.col + 1) as usize,
                },
                ..old(self)@
            }),
            final(self)@.page_pos.col == old(self)@.page_pos.col + 1,
    {
        proof {
            use_type_invariant(&self.place);
            assert(self.place.page_size.width * (self.place.page_pos.col + 1)
                == self.place.page_size.width * self.place.page_pos.col
                + self.place.page_size.width) by (nonlinear_arith);
        }
        self.place.page_pos.col += 1;
    }

    pub fn decrement_current_page_pos_col(&mut self)
        ensures
            final(self)@ == (DefaultAppView {
                page_pos: Position {
                    row: old(self)@.page_pos.row,
                    col: if old(self)@.page_pos.col > 0 {
                        (old(self)@.page_pos.col - 1) as usize
                    } else {
                        0
                    },
                },
                ..old(self)@
            }),
    {
        proof {
            use_type_invariant(&self.place);
            if self.place.page_pos.col > 0 {
                assert(self.place.page_size.width * (self.place.page_pos.col - 1)
                    <= self.place.page_size.width * self.place.page_pos.col) by (nonlinear_arith);
            }
        }
        if self.place.page_pos.col > 0 {
            self.place.page_pos.col -= 1;
        }
    }

    pub fn append_str_current_input(&mut self, string_value: String)
        ensures
            final(self)@ == (DefaultAppView {
                input: old(self)@.input + string_value@,
                ..old(self)@
            }),
    {
        self.input.append(string_value.as_str());
    }

    pub fn append_char_current_input(&mut self, char_value: char)
        ensures
            final(self)@ == (DefaultAppView {
                input: old(self)@.input.push(char_value),
                ..old(self)@
            }),
    {
        push_char(&mut self.input, char_value);
    }

    pub fn pop_current_input(&mut self) -> (last: Option<char>)
        ensures
            old(self)@.input.len() == 0 ==> last is None && final(self)@ == old(self)@,
            old(self)@.input.len() > 0 ==> last == Some(old(self)@.input.last()) && final(self)@
                == (DefaultAppView { input: old(self)@.input.drop_last(), ..old(self)@ }),
    {
        pop_char(&mut self.input)
    }

    /// Hands out what was typed and leaves the input empty.
    pub fn drain_input(&mut self) -> (typed: String)
        ensures
            typed@ == old(self)@.input,
            final(self)@ == (DefaultAppView { input: Seq::empty(), ..old(self)@ }),
    {
        let mut typed = String::new();
        core::mem::swap(&mut self.input, &mut typed);
        typed
    }

    pub fn clear_input(&mut self)
        ensures
            final(self)@ == (DefaultAppView { input: Seq::empty(), ..old(self)@ }),
    {
        self.input = String::new();
    }

    /// Writes what was typed into the selected cell; the grid then counts
    /// as changed and the input is empty.
    pub fn set_input_to_current_pos(&mut self)
        ensures
            final(self)@ == (DefaultAppView {
                input: Seq::empty(),
                cells: written(
                    old(self)@.cells,
                    old(self)@.absolute_row() as nat,
                    old(self)@.absolute_col() as nat,
                    old(self)@.input,
                ),
                saved: false,
                ..old(self)@
            }),
    {
        let current_input = self.drain_input();
        self.add_value_to_cell(current_input);
        self.saved = false;
    }

    pub fn get_input(&self) -> (typed: &str)
        ensures
            typed@ == self@.input,
    {
        self.input.as_str()
    }

    pub fn get_data(&self) -> (data: &Vec<Vec<String>>)
        ensures
            data.deep_view() == self@.cells,
    {
        &self.data
    }

    pub fn is_in_saved_state(&self) -> (saved: bool)
        ensures
            saved == self@.saved,
    {
        self.saved
    }

    pub fn set_saved(&mut self, is_saved: bool)
        ensures
            final(self)@ == (DefaultAppView { saved: is_saved, ..old(self)@ }),
    {
        self.saved = is_saved;
    }

    pub fn get_input_mode(&self) -> (mode: &InputMode)
        ensures
            *mode == self@.input_mode,
    {
        &self.input_mode
    }

    pub fn set_input_node(&mut self, input_node: InputMode)
        ensures
            final(self)@ == (DefaultAppView { input_mode: input_node, ..old(self)@ }),
    {
        self.input_mode = input_node;
    }

    /// Takes what was typed as the file name and leaves the input empty.
    pub fn set_filename_to_input(&mut self)
        ensures
            final(self)@ == (DefaultAppView {
                input: Seq::empty(),
                filename: Some(old(self)@.input),
                ..old(self)@
            }),
    {
        let current_input = self.drain_input();
        self.filename = Some(current_input);
    }

    /// Appends the text of the cell at `(row, col)` to the input.
    pub fn set_cell_value_current_input(&mut self, row: usize, col: usize)
        ensures
            final(self)@ == (DefaultAppView {
                input: old(self)@.input + cell_at(old(self)@.cells, row as int, col as int),
                ..old(self)@
            }),
    {
        let ghost before = self.input@;
        self.input.append(crate::grid_ops::get_cell_value(&self.data, row, col));
        assert(before + Seq::<char>::empty() =~= before);
    }

    /// The model that holds the records of a file read from `filename`.
    pub fn load_file_into_app(filename: String, file: FileRead) -> (res: Result<
        DefaultAppModel,
        LoadError,
    >)
        ensures
            match file {
                FileRead::Missing => res is Err && res->Err_0 == LoadError::Missing,
                FileRead::Unreadable => res is Err && res->Err_0 == LoadError::Unreadable,
                FileRead::Contents(bytes) => match csv_records(bytes@, 44u8) {
                    Some(rows) => res is Ok && res->Ok_0@ == (DefaultAppView {
                        cells: rows,
                        filename: Some(filename@),
                        ..initial_view()
                    }),
                    None => res is Err && res->Err_0 == LoadError::Malformed,
                },
            },
    {
        match file {
            FileRead::Missing => Err(LoadError::Missing),
            FileRead::Unreadable => Err(LoadError::Unreadable),
            FileRead::Contents(bytes) => match read_records(&bytes, 44u8) {
                Ok(rows) => {
                    let mut app = DefaultAppModel::default();
                    app.filename = Some(filename);
                    app.data = rows;
                    Ok(app)
                },
                Err(_) => Err(LoadError::Malformed),
            },
        }
    }

    /// While a row or a column is selected, puts one in at the selected
    /// cell or takes that one out; in any other mode does nothing.
    pub fn insert_remove_row_col(&mut self, insert_mode: InsertMode)
        ensures
            final(self)@ == (DefaultAppView {
                cells: match (old(self)@.input_mode, insert_mode) {
                    (InputMode::SelectingCol, InsertMode::Adding) => col_inserted(
                        old(self)@.cells,
                        old(self)@.absolute_col() as nat,
                    ),
                    (InputMode::SelectingCol, InsertMode::Removing) => col_removed(
                        old(self)@.cells,
                        old(self)@.absolute_col() as nat,
                    ),
                    (InputMode::SelectingRow, InsertMode::Adding) => row_inserted(
                        old(self)@.cells,
                        old(self)@.absolute_row() as nat,
                    ),
                    (InputMode::SelectingRow, InsertMode::Removing) => row_removed(
                        old(self)@.cells,
                        old(self)@.absolute_row() as nat,
                    ),
                    _ => old(self)@.cells,
                },
                ..old(self)@
            }),
    {
        let absolute = self.get_absolute_pos();
        match self.input_mode {
            InputMode::SelectingCol => {
                match insert_mode {
                    InsertMode::Adding => {
                        self.insert_col(absolute.col);
                    },
                    InsertMode::Removing => {
                        self.remove_col(absolute.col);
                    },
                }
            },
            InputMode::SelectingRow => {
                match insert_mode {
                    InsertMode::Adding => {
                        self.insert_row(absolute.row);
                    },
                    InsertMode::Removing => {
                        self.remove_row(absolute.row);
                    },
                }
            },
            _ => {},
        }
    }

    pub fn insert_row(&mut self, row_pos: usize)
        ensures
            final(self)@ == (DefaultAppView {
                cells: row_inserted(old(self)@.cells, row_pos as nat),
                ..old(self)@
            }),
    {
        crate::grid_ops::insert_row(&mut self.data, row_pos);
    }

    pub fn get_max_row_length(&self) -> (m: usize)
        ensures
            m == max_row_len(self@.cells),
    {
        crate::grid_ops::get_max_row_length(&self.data)
    }

    pub fn remove_row(&mut self, row_pos: usize)
        ensures
            final(self)@ == (DefaultAppView {
                cells: row_removed(old(self)@.cells, row_pos as nat),
                ..old(self)@
            }),
    {
        crate::grid_ops::remove_row(&mut self.data, row_pos);
    }

    pub fn insert_col(&mut self, col_pos: usize)
        ensures
            final(self)@ == (DefaultAppView {
                cells: col_inserted(old(self)@.cells, col_pos as nat),
                ..old(self)@
            }),
    {
        crate::grid_ops::insert_col(&mut self.data, col_pos);
    }

    pub fn remove_col(&mut self, col_pos: usize)
        ensures
            final(self)@ == (DefaultAppView {
                cells: col_removed(old(self)@.cells, col_pos as nat),
                ..old(self)@
            }),
    {
        crate::grid_ops::remove_col(&mut self.data, col_pos);
    }

    /// Writes `input` into the selected cell and trims.
    pub fn add_value_to_cell(&mut self, input: String)
        ensures
            final(self)@ == (DefaultAppView {
                cells: written(
                    old(self)@.cells,
                    old(self)@.absolute_row() as nat,
                    old(self)@.absolute_col() as nat,
                    input@,
                ),
                ..old(self)@
            }),
    {
        let absolute = self.get_absolute_pos();
        crate::grid_ops::set_cell_value(&mut self.data, absolute.row, absolute.col, input);
    }

    pub fn get_max_col_width(&self, col: usize) -> (w: usize)
        ensures
            w == col_width(self@.cells, col as int),
    {
        crate::grid_ops::get_col_max_width(&self.data, col)
    }

    pub fn remove_unneeded_rows(&mut self)
        ensures
            final(self)@ == (DefaultAppView { cells: trimmed(old(self)@.cells), ..old(self)@ }),
    {
        crate::grid_ops::remove_unneeded_rows(&mut self.data);
    }

    /// The file that saving writes; `NoFilename` where no name is stored.
    pub fn save_data_to_file(&self) -> (res: Result<FileWrite, SaveError>)
        ensures
            match self@.filename {
                Some(name) => res is Ok && res->Ok_0.path@ == target_path(name)
                    && res->Ok_0.contents@ == csv_text(self@.cells, ','),
                None => res is Err && res->Err_0 == SaveError::NoFilename,
            },
    {
        match &self.filename {
            Some(name) => {
                let mut path = name.clone();
                if !ends_with(name.as_str(), ".csv") {
                    path.append(".csv");
                }
                Ok(FileWrite { path, contents: self.create_csv_string() })
            },
            None => Err(SaveError::NoFilename),
        }
    }

    pub fn create_csv_string(&self) -> (out: String)
        ensures
            out@ == csv_text(self@.cells, ','),
    {
        crate::grid_ops::create_csv_string(&self.data, ',')
    }
}

} // verus!
