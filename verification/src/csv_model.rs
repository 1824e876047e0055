//! The grid store: the cells, the name of the file they belong to and
//! whether they have changed since they were last written.

use vstd::prelude::*;
use vstd::string::StringExecFns;
use crate::grid::{
    cell_at, col_inserted, col_removed, col_width, csv_text, lemma_col_width, len_in_row,
    max_row_len,
    row_inserted, row_removed, segment, written, MIN_COL_WIDTH,
};
use crate::text::{ends_with, has_suffix};
use crate::utils_model::{Position, Size};

verus! {

/// The character that parts the fields of a line.
#[derive(Debug, PartialEq, Eq, Clone, Copy, Structural)]
pub enum CsvDelimiter {
    Comma,
    Tab,
    Semicolon,
    Space,
}

impl CsvDelimiter {
    /// The delimiter as a character.
    pub open spec fn spec_char(self) -> char {
        match self {
            CsvDelimiter::Comma => ',',
            CsvDelimiter::Tab => '\t',
            CsvDelimiter::Semicolon => ';',
            CsvDelimiter::Space => ' ',
        }
    }

    /// The delimiter as the byte that stands for it in a file.
    pub open spec fn spec_byte(self) -> u8 {
        match self {
            CsvDelimiter::Comma => 44u8,
            CsvDelimiter::Tab => 9u8,
            CsvDelimiter::Semicolon => 59u8,
            CsvDelimiter::Space => 32u8,
        }
    }

    pub fn as_char(&self) -> (c: char)
        ensures
            c == self.spec_char(),
    {
        match self {
            CsvDelimiter::Comma => ',',
            CsvDelimiter::Tab => '\t',
            CsvDelimiter::Semicolon => ';',
            CsvDelimiter::Space => ' ',
        }
    }

    pub fn as_byte(&self) -> (b: u8)
        ensures
            b == self.spec_byte(),
    {
        match self {
            CsvDelimiter::Comma => 44u8,
            CsvDelimiter::Tab => 9u8,
            CsvDelimiter::Semicolon => 59u8,
            CsvDelimiter::Space => 32u8,
        }
    }
}

/// Why a file could not be loaded.
#[derive(Debug, PartialEq, Eq, Clone, Copy, Structural)]
pub enum LoadError {
    /// There is no such file.
    Missing,
    /// The file is there but could not be read.
    Unreadable,
    /// The parser refused a record.
    Malformed,
}

/// Why the grid could not be saved.
#[derive(Debug, PartialEq, Eq, Clone, Copy, Structural)]
pub enum SaveError {
    /// No file name is stored and none was given.
    NoFilename,
    /// The file could not be written.
    WriteFailed,
}

/// What came of reading a file from disk.
#[derive(Debug)]
pub enum FileRead {
    Missing,
    Unreadable,
    Contents(Vec<u8>),
}

/// A file to be written: where, and what.
#[derive(Debug)]
pub struct FileWrite {
    pub path: String,
    pub contents: String,
}

/// The extension that a saved file's name ends with.
pub open spec fn file_extension() -> Seq<char> {
    ".csv"@
}

/// The name a file is written under: `name` itself where it ends with the
/// extension, else `name` with the extension appended.
pub open spec fn target_path(name: Seq<char>) -> Seq<char> {
    if has_suffix(name, file_extension()) {
        name
    } else {
        name + file_extension()
    }
}

/// `csv::Error`, the error of the `csv` crate's reader: carried from the
/// reader to the place where it becomes a `LoadError`, and never looked into.
#[verifier::external_type_specification]
#[verifier::external_body]
pub struct ExCsvError(csv::Error);

/// The records that the `csv` crate's reader finds in `contents`, read
/// without a header line, with `delimiter` between fields and every record
/// as long as the first; `None` where the reader reports an error.
pub uninterp spec fn csv_records(contents: Seq<u8>, delimiter: u8) -> Option<Seq<Seq<Seq<char>>>>;

/// Runs a `csv::Reader`, built by `csv::ReaderBuilder` with `has_headers(false)`
/// and the given `delimiter`, over `contents`, and collects the fields of each
/// record that `records()` yields; stops at the first error. The result is
/// what `csv_records` names. Believed of the `csv` crate, not proved.
#[verifier::external_body]
pub(crate) fn read_records(contents: &Vec<u8>, delimiter: u8) -> (res: Result<Vec<Vec<String>>, csv::Error>)
    ensures
        match res {
            Ok(rows) => csv_records(contents@, delimiter) == Some(rows.deep_view()),
            Err(_) => csv_records(contents@, delimiter) is None,
        },
{
    let mut reader = csv::ReaderBuilder::new().has_headers(false).delimiter(delimiter).from_reader(
        contents.as_slice(),
    );
    let mut rows: Vec<Vec<String>> = Vec::new();
    for record in reader.records() {
        rows.push(record?.iter().map(String::from).collect());
    }
    Ok(rows)
}

/// What a `CsvModel` stands for.
pub ghost struct CsvModelView {
    pub cells: Seq<Seq<Seq<char>>>,
    pub saved: bool,
    pub filename: Option<Seq<char>>,
    pub delimiter: CsvDelimiter,
}

#[derive(Debug)]
pub struct CsvModel {
    data: Vec<Vec<String>>,
    saved: bool,
    filename: Option<String>,
    delimiter: CsvDelimiter,
}

impl View for CsvModel {
    type V = CsvModelView;

    closed spec fn view(&self) -> CsvModelView {
        CsvModelView {
            cells: self.data.deep_view(),
            saved: self.saved,
            filename: match self.filename {
                Some(name) => Some(name@),
                None => None,
            },
            delimiter: self.delimiter,
        }
    }
}

/// The grid without cells or file name, to be written with `delimiter`.
pub open spec fn empty_model(delimiter: CsvDelimiter) -> CsvModelView {
    CsvModelView { cells: Seq::empty(), saved: true, filename: None, delimiter }
}

/// What comes of loading a file read from `filename`: a file that was not
/// there or could not be read gives that error, contents that the parser
/// refuses give `Malformed`, and else the grid holds the parser's records
/// as they are, under that name, with nothing to save.
pub open spec fn load_outcome(filename: Seq<char>, file: FileRead, delimiter: CsvDelimiter) -> Result<
    CsvModelView,
    LoadError,
> {
    match file {
        FileRead::Missing => Err(LoadError::Missing),
        FileRead::Unreadable => Err(LoadError::Unreadable),
        FileRead::Contents(bytes) => match csv_records(bytes@, delimiter.spec_byte()) {
            Some(rows) => Ok(
                CsvModelView { cells: rows, saved: true, filename: Some(filename), delimiter },
            ),
            None => Err(LoadError::Malformed),
        },
    }
}

impl Default for CsvModel {
    /// An empty grid with no file name, comma-delimited, with nothing to save.
    fn default() -> (model: CsvModel)
        ensures
            model@ == empty_model(CsvDelimiter::Comma),
    {
        let model = CsvModel {
            data: Vec::new(),
            saved: true,
            filename: None,
            delimiter: CsvDelimiter::Comma,
        };
        assert(model.data.deep_view() =~= Seq::empty());
        model
    }
}

impl CsvModel {
    /// An empty grid with no file name, to be written with `delimiter`.
    pub fn default_with_delimiter(delimiter: &CsvDelimiter) -> (model: CsvModel)
        ensures
            model@ == empty_model(*delimiter),
    {
        let model = CsvModel { data: Vec::new(), saved: true, filename: None, delimiter: *delimiter };
        assert(model.data.deep_view() =~= Seq::empty());
        model
    }

    /// The grid that holds `rows` as they are, named `filename`, unchanged
    /// since it was read.
    pub fn from_rows(filename: String, rows: Vec<Vec<String>>, delimiter: &CsvDelimiter) -> (model:
        CsvModel)
        ensures
            model@ == (CsvModelView {
                cells: rows.deep_view(),
                saved: true,
                filename: Some(filename@),
                delimiter: *delimiter,
            }),
    {
        CsvModel { data: rows, saved: true, filename: Some(filename), delimiter: *delimiter }
    }

    /// The grid held in a file that was read from `filename`.
    pub fn load_file(filename: String, file: FileRead, delimiter: &CsvDelimiter) -> (res: Result<
        CsvModel,
        LoadError,
    >)
        ensures
            match load_outcome(filename@, file, *delimiter) {
                Ok(model) => res is Ok && res->Ok_0@ == model,
                Err(error) => res is Err && res->Err_0 == error,
            },
    {
        match file {
            FileRead::Missing => Err(LoadError::Missing),
            FileRead::Unreadable => Err(LoadError::Unreadable),
            FileRead::Contents(bytes) => match read_records(&bytes, delimiter.as_byte()) {
                Ok(rows) => Ok(CsvModel::from_rows(filename, rows, delimiter)),
                Err(_) => Err(LoadError::Malformed),
            },
        }
    }

    pub fn get_filename(&self) -> (name: &Option<String>)
        ensures
            match *name {
                Some(text) => self@.filename == Some(text@),
                None => self@.filename is None,
            },
    {
        &self.filename
    }

    pub fn set_filename(&mut self, filename: String)
        ensures
            final(self)@ == (CsvModelView { filename: Some(filename@), ..old(self)@ }),
    {
        self.filename = Some(filename);
    }

    pub fn get_delimiter(&self) -> (delimiter: CsvDelimiter)
        ensures
            delimiter == self@.delimiter,
    {
        self.delimiter
    }

    pub fn _get_data(&self) -> (data: &Vec<Vec<String>>)
        ensures
            data.deep_view() == self@.cells,
    {
        &self.data
    }

    pub fn is_in_saved_state(&self) -> (saved: bool)
        ensures
            saved == self@.saved,
    {
        self.saved
    }

    pub fn set_saved(&mut self, is_saved: bool)
        ensures
            final(self)@ == (CsvModelView { saved: is_saved, ..old(self)@ }),
    {
        self.saved = is_saved;
    }

    /// The number of rows.
    pub fn row_count(&self) -> (n: usize)
        ensures
            n == self@.cells.len(),
    {
        self.data.len()
    }

    /// The number of columns: the length of the longest row.
    pub fn col_count(&self) -> (n: usize)
        ensures
            n == max_row_len(self@.cells),
    {
        crate::grid_ops::get_max_row_length(&self.data)
    }

    /// The extent of the grid: as wide as its longest row, as high as it
    /// has rows.
    pub fn get_data_size(&self) -> (size: Size)
        ensures
            size.width == max_row_len(self@.cells),
            size.height == self@.cells.len(),
    {
        Size { width: self.col_count(), height: self.row_count() }
    }

    /// Puts a row of empty cells in at `row_pos`, where that is the index of
    /// a row; else does nothing.
    pub fn insert_row(&mut self, row_pos: usize)
        ensures
            final(self)@ == (CsvModelView {
                cells: row_inserted(old(self)@.cells, row_pos as nat),
                ..old(self)@
            }),
    {
        crate::grid_ops::insert_row(&mut self.data, row_pos);
    }

    /// Takes row `row_pos` out, where there is one; else does nothing.
    pub fn remove_row(&mut self, row_pos: usize)
        ensures
            final(self)@ == (CsvModelView {
                cells: row_removed(old(self)@.cells, row_pos as nat),
                ..old(self)@
            }),
    {
        crate::grid_ops::remove_row(&mut self.data, row_pos);
    }

    /// Puts an empty cell in at `col_pos` of every row longer than `col_pos`.
    pub fn insert_col(&mut self, col_pos: usize)
        ensures
            final(self)@ == (CsvModelView {
                cells: col_inserted(old(self)@.cells, col_pos as nat),
                ..old(self)@
            }),
    {
        crate::grid_ops::insert_col(&mut self.data, col_pos);
    }

    /// Takes the cell at `col_pos` out of every row longer than `col_pos`.
    pub fn remove_col(&mut self, col_pos: usize)
        ensures
            final(self)@ == (CsvModelView {
                cells: col_removed(old(self)@.cells, col_pos as nat),
                ..old(self)@
            }),
    {
        crate::grid_ops::remove_col(&mut self.data, col_pos);
    }

    /// Copies of the cells in the window of size `grid_size` whose top-left
    /// cell is `corner_pos`, clipped where the grid ends.
    pub fn get_data_segment(&self, corner_pos: &Position, grid_size: &Size) -> (part: Vec<
        Vec<String>,
    >)
        ensures
            part.deep_view() == segment(
                self@.cells,
                corner_pos.row as nat,
                corner_pos.col as nat,
                grid_size.height as nat,
                grid_size.width as nat,
            ),
    {
        crate::grid_ops::get_data_segment(&self.data, corner_pos, grid_size)
    }

    /// Writes `input` at `(row, col)`: the grid grows until the cell
    /// exists, is trimmed after the write, and counts as changed.
    pub fn set_cell_value(&mut self, row: usize, col: usize, input: String)
        ensures
            final(self)@ == (CsvModelView {
                cells: written(old(self)@.cells, row as nat, col as nat, input@),
                saved: false,
                ..old(self)@
            }),
    {
        crate::grid_ops::set_cell_value(&mut self.data, row, col, input);
        self.saved = false;
    }

    /// The text at `(row, col)`; empty where the grid has no such cell.
    pub fn get_cell_value(&self, row: usize, col: usize) -> (text: &str)
        ensures
            text@ == cell_at(self@.cells, row as int, col as int),
    {
        crate::grid_ops::get_cell_value(&self.data, row, col)
    }

    /// The display width of column `col`: the length of its longest cell,
    /// and `MIN_COL_WIDTH` where no cell is longer than that.
    pub fn get_col_max_width(&self, col: usize) -> (w: usize)
        ensures
            w == col_width(self@.cells, col as int),
            w >= MIN_COL_WIDTH,
            forall|r: int|
                0 <= r < self@.cells.len() ==> len_in_row(#[trigger] self@.cells[r], col as int)
                    <= w,
            w == MIN_COL_WIDTH || exists|r: int|
                0 <= r < self@.cells.len() && len_in_row(#[trigger] self@.cells[r], col as int)
                    == w,
    {
        proof {
            lemma_col_width(self@.cells, col as int);
        }
        crate::grid_ops::get_col_max_width(&self.data, col)
    }

    /// The trim pass: cuts the grid down to the bounding box of its
    /// non-empty cells.
    pub fn remove_unneeded_rows(&mut self)
        ensures
            final(self)@ == (CsvModelView {
                cells: crate::grid::trimmed(old(self)@.cells),
                ..old(self)@
            }),
    {
        crate::grid_ops::remove_unneeded_rows(&mut self.data);
    }

    /// The text of the grid as it is written to a file.
    pub fn create_csv_string(&self) -> (out: String)
        ensures
            out@ == csv_text(self@.cells, self@.delimiter.spec_char()),
    {
        crate::grid_ops::create_csv_string(&self.data, self.delimiter.as_char())
    }

    /// The file that saving under `name` writes.
    pub fn save_data_as(&self, name: &str) -> (file: FileWrite)
        ensures
            file.path@ == target_path(name@),
            file.contents@ == csv_text(self@.cells, self@.delimiter.spec_char()),
    {
        let mut path = String::from_str(name);
        if !ends_with(name, ".csv") {
            path.append(".csv");
        }
        FileWrite { path, contents: self.create_csv_string() }
    }

    /// The file that saving writes, under the stored name; `NoFilename`
    /// where none is stored.
    pub fn save_data_to_file(&self) -> (res: Result<FileWrite, SaveError>)
        ensures
            match self@.filename {
                Some(name) => res is Ok && res->Ok_0.path@ == target_path(name)
                    && res->Ok_0.contents@ == csv_text(self@.cells, self@.delimiter.spec_char()),
                None => res is Err && res->Err_0 == SaveError::NoFilename,
            },
    {
        match &self.filename {
            Some(name) => Ok(self.save_data_as(name.as_str())),
            None => Err(SaveError::NoFilename),
        }
    }

    /// Records what came of writing the file: a written file leaves the
    /// grid saved, a failed write leaves the flag as it was and is an error.
    pub fn finish_save(&mut self, written: bool) -> (res: Result<(), SaveError>)
        ensures
            written ==> res is Ok && final(self)@ == (CsvModelView { saved: true, ..old(self)@ }),
            !written ==> res == Err::<(), SaveError>(SaveError::WriteFailed) && final(self)@ == old(
                self,
            )@,
    {
        if written {
            self.saved = true;
            Ok(())
        } else {
            Err(SaveError::WriteFailed)
        }
    }
}

} // verus!
