//! The grid operations on the bare `Vec<Vec<String>>`, each proved against
//! the model in `grid`.

use vstd::prelude::*;
use vstd::string::StringExecFns;
use crate::grid::{
    cell_at, clipped_row, col_inserted, col_removed, col_width, content_cols, content_rows,
    csv_lines, csv_text, grown, joined_fields, lemma_col_width, len_in_row, lesser, max_row_len,
    row_extent, row_inserted, row_removed, row_segment, segment, trimmed, written,
    MIN_COL_WIDTH,
};
use crate::text::push_char;
use crate::utils_model::{Position, Size};

verus! {

/// One more than the index of the last non-empty cell of `row`, or 0.
pub fn filled_len(row: &Vec<String>) -> (k: usize)
    ensures
        k == row_extent(row.deep_view()),
{
    let mut k: usize = row.len();
    assert(row.deep_view().take(k as int) =~= row.deep_view());
    while k > 0 && row[k - 1].as_str().is_empty()
        invariant
            k <= row.len(),
            row_extent(row.deep_view()) == row_extent(row.deep_view().take(k as int)),
        decreases k,
    {
        assert(row.deep_view().take(k as int).drop_last() =~= row.deep_view().take(k - 1));
        k -= 1;
    }
    k
}

/// One more than the index of the last row that holds text, or 0.
pub fn filled_rows(data: &Vec<Vec<String>>) -> (n: usize)
    ensures
        n == content_rows(data.deep_view()),
{
    let mut n: usize = data.len();
    assert(data.deep_view().take(n as int) =~= data.deep_view());
    while n > 0 && filled_len(&data[n - 1]) == 0
        invariant
            n <= data.len(),
            content_rows(data.deep_view()) == content_rows(data.deep_view().take(n as int)),
        decreases n,
    {
        assert(data.deep_view().take(n as int).drop_last() =~= data.deep_view().take(n - 1));
        n -= 1;
    }
    n
}

/// One more than the largest column index of a non-empty cell, or 0.
pub fn filled_cols(data: &Vec<Vec<String>>) -> (m: usize)
    ensures
        m == content_cols(data.deep_view()),
{
    let mut m: usize = 0;
    let mut i: usize = 0;
    while i < data.len()
        invariant
            i <= data.len(),
            m == content_cols(data.deep_view().take(i as int)),
        decreases data.len() - i,
    {
        let here = filled_len(&data[i]);
        assert(data.deep_view().take(i + 1).drop_last() =~= data.deep_view().take(i as int));
        if here > m {
            m = here;
        }
        i += 1;
    }
    assert(data.deep_view().take(i as int) =~= data.deep_view());
    m
}

/// The trim pass: cuts the grid down to the bounding box of its non-empty
/// cells.
pub fn remove_unneeded_rows(data: &mut Vec<Vec<String>>)
    ensures
        final(data).deep_view() == trimmed(old(data).deep_view()),
{
    let ghost before = data.deep_view();
    let rows = filled_rows(data);
    let cols = filled_cols(data);
    proof {
        crate::grid::lemma_content_rows(before);
    }
    data.truncate(rows);
    let mut i: usize = 0;
    while i < data.len()
        invariant
            i <= data.len(),
            data.len() == rows,
            rows == content_rows(before),
            cols == content_cols(before),
            rows <= before.len(),
            forall|r: int| 0 <= r < i ==> (#[trigger] data[r]).deep_view() == clipped_row(before[r], cols as nat),
            forall|r: int| i <= r < rows ==> (#[trigger] data[r]).deep_view() == before[r],
        decreases data.len() - i,
    {
        let ghost row_before = data[i as int].deep_view();
        data[i].truncate(cols);
        assert(data[i as int].deep_view() =~= clipped_row(row_before, cols as nat));
        i += 1;
    }
    assert(data.deep_view() =~= trimmed(before));
}

/// The text at `(row, col)`; empty where the grid has no such cell.
pub fn get_cell_value(data: &Vec<Vec<String>>, row: usize, col: usize) -> (text: &str)
    ensures
        text@ == cell_at(data.deep_view(), row as int, col as int),
{
    if row < data.len() && col < data[row].len() {
        data[row][col].as_str()
    } else {
        proof {
            reveal_strlit("");
            assert(""@ =~= Seq::<char>::empty());
        }
        ""
    }
}

/// Writes `input` at `(row, col)`, growing the grid as far as needed, then
/// trims.
pub fn set_cell_value(data: &mut Vec<Vec<String>>, row: usize, col: usize, input: String)
    ensures
        final(data).deep_view() == written(old(data).deep_view(), row as nat, col as nat, input@),
{
    let ghost before = data.deep_view();
    while data.len() <= row
        invariant
            before.len() <= row ==> data.len() <= row + 1,
            before.len() <= row ==> data.deep_view() == before + Seq::new(
                (data.len() - before.len()) as nat,
                |i: int| Seq::<Seq<char>>::empty(),
            ),
            before.len() <= row ==> data.len() >= before.len(),
            before.len() > row ==> data.deep_view() == before,
        decreases row + 1 - data.len(),
    {
        let ghost prev = data.deep_view();
        data.push(Vec::new());
        assert(data.deep_view() =~~= prev.push(Seq::<Seq<char>>::empty()));
        assert(data.deep_view() =~= before + Seq::new(
            (data.len() - before.len()) as nat,
            |i: int| Seq::<Seq<char>>::empty(),
        ));
    }
    let ghost rows = data.deep_view();
    while data[row].len() <= col
        invariant
            row < data.len(),
            data.len() == rows.len(),
            rows[row as int].len() <= col ==> data[row as int].len() <= col + 1,
            forall|r: int| 0 <= r < data.len() && r != row ==> (#[trigger] data[r]).deep_view() == rows[r],
            rows[row as int].len() <= col ==> data[row as int].len() >= rows[row as int].len(),
            rows[row as int].len() <= col ==> data[row as int].deep_view() == rows[row as int] + Seq::new(
                (data[row as int].len() - rows[row as int].len()) as nat,
                |i: int| Seq::<char>::empty(),
            ),
            rows[row as int].len() > col ==> data[row as int].deep_view() == rows[row as int],
        decreases col + 1 - data[row as int].len(),
    {
        let ghost prev = data[row as int].deep_view();
        data[row].push(String::new());
        assert(data[row as int].deep_view() =~= prev.push(Seq::<char>::empty()));
        assert(data[row as int].deep_view() =~= rows[row as int] + Seq::new(
            (data[row as int].len() - rows[row as int].len()) as nat,
            |i: int| Seq::<char>::empty(),
        ));
    }
    assert(data.deep_view() =~~= grown(before, row as nat, col as nat));
    let ghost big = data.deep_view();
    data[row][col] = input;
    assert(data.deep_view() =~~= big.update(row as int, big[row as int].update(col as int, input@)));
    remove_unneeded_rows(data);
}

/// The length of the longest row.
pub fn get_max_row_length(data: &Vec<Vec<String>>) -> (m: usize)
    ensures
        m == max_row_len(data.deep_view()),
{
    let mut m: usize = 0;
    let mut i: usize = 0;
    while i < data.len()
        invariant
            i <= data.len(),
            m == max_row_len(data.deep_view().take(i as int)),
        decreases data.len() - i,
    {
        assert(data.deep_view().take(i + 1).drop_last() =~= data.deep_view().take(i as int));
        if m < data[i].len() {
            m = data[i].len();
        }
        i += 1;
    }
    assert(data.deep_view().take(i as int) =~= data.deep_view());
    m
}

/// The display width of column `col`: the length of its longest cell, and
/// `MIN_COL_WIDTH` where no cell is longer than that.
pub fn get_col_max_width(data: &Vec<Vec<String>>, col: usize) -> (w: usize)
    ensures
        w == col_width(data.deep_view(), col as int),
        w >= MIN_COL_WIDTH,
        forall|r: int|
            0 <= r < data.len() ==> len_in_row(#[trigger] data.deep_view()[r], col as int) <= w,
        w == MIN_COL_WIDTH || exists|r: int|
            0 <= r < data.len() && len_in_row(#[trigger] data.deep_view()[r], col as int) == w,
{
    proof {
        lemma_col_width(data.deep_view(), col as int);
    }
    let mut w: usize = MIN_COL_WIDTH;
    let mut i: usize = 0;
    while i < data.len()
        invariant
            i <= data.len(),
            w == col_width(data.deep_view().take(i as int), col as int),
        decreases data.len() - i,
    {
        assert(data.deep_view().take(i + 1).drop_last() =~= data.deep_view().take(i as int));
        if col < data[i].len() {
            let here = data[i][col].as_str().as_bytes().len();
            if here > w {
                w = here;
            }
        }
        i += 1;
    }
    assert(data.deep_view().take(i as int) =~= data.deep_view());
    w
}

/// Puts a row of empty cells in at `row_pos`, where that is the index of a
/// row; else does nothing.
pub fn insert_row(data: &mut Vec<Vec<String>>, row_pos: usize)
    ensures
        final(data).deep_view() == row_inserted(old(data).deep_view(), row_pos as nat),
{
    if row_pos < data.len() {
        let ghost before = data.deep_view();
        let width = get_max_row_length(data);
        let mut row: Vec<String> = Vec::new();
        while row.len() < width
            invariant
                row.len() <= width,
                forall|i: int| 0 <= i < row.len() ==> (#[trigger] row[i])@ == Seq::<char>::empty(),
            decreases width - row.len(),
        {
            row.push(String::new());
        }
        assert(row.deep_view() =~= Seq::new(width as nat, |i: int| Seq::<char>::empty()));
        data.insert(row_pos, row);
        assert(data.deep_view() =~= row_inserted(before, row_pos as nat));
    }
}

/// Takes row `row_pos` out, where there is one; else does nothing.
pub fn remove_row(data: &mut Vec<Vec<String>>, row_pos: usize)
    ensures
        final(data).deep_view() == row_removed(old(data).deep_view(), row_pos as nat),
{
    if row_pos < data.len() {
        let ghost before = data.deep_view();
        data.remove(row_pos);
        assert(data.deep_view() =~= row_removed(before, row_pos as nat));
    }
}

/// Puts an empty cell in at `col_pos` of every row longer than `col_pos`.
pub fn insert_col(data: &mut Vec<Vec<String>>, col_pos: usize)
    ensures
        final(data).deep_view() == col_inserted(old(data).deep_view(), col_pos as nat),
{
    let ghost before = data.deep_view();
    let mut i: usize = 0;
    while i < data.len()
        invariant
            i <= data.len(),
            data.len() == before.len(),
            forall|r: int| 0 <= r < i ==> (#[trigger] data[r]).deep_view() == col_inserted(before, col_pos as nat)[r],
            forall|r: int| i <= r < data.len() ==> (#[trigger] data[r]).deep_view() == before[r],
        decreases data.len() - i,
    {
        if col_pos < data[i].len() {
            let ghost row_before = data[i as int].deep_view();
            data[i].insert(col_pos, String::new());
            assert(data[i as int].deep_view() =~= row_before.insert(col_pos as int, Seq::<char>::empty()));
        }
        i += 1;
    }
    assert(data.deep_view() =~= col_inserted(before, col_pos as nat));
}

/// Takes the cell at `col_pos` out of every row longer than `col_pos`.
pub fn remove_col(data: &mut Vec<Vec<String>>, col_pos: usize)
    ensures
        final(data).deep_view() == col_removed(old(data).deep_view(), col_pos as nat),
{
    let ghost before = data.deep_view();
    let mut i: usize = 0;
    while i < data.len()
        invariant
            i <= data.len(),
            data.len() == before.len(),
            forall|r: int| 0 <= r < i ==> (#[trigger] data[r]).deep_view() == col_removed(before, col_pos as nat)[r],
            forall|r: int| i <= r < data.len() ==> (#[trigger] data[r]).deep_view() == before[r],
        decreases data.len() - i,
    {
        if col_pos < data[i].len() {
            let ghost row_before = data[i as int].deep_view();
            data[i].remove(col_pos);
            assert(data[i as int].deep_view() =~= row_before.remove(col_pos as int));
        }
        i += 1;
    }
    assert(data.deep_view() =~= col_removed(before, col_pos as nat));
}

/// Copies of the cells of `row` from column `col` on, at most `width`.
pub fn get_row_segment(row: &Vec<String>, col: usize, width: usize) -> (cells: Vec<String>)
    ensures
        cells.deep_view() == row_segment(row.deep_view(), col as nat, width as nat),
{
    let lo = if col < row.len() {
        col
    } else {
        row.len()
    };
    let hi = if width < row.len() - lo {
        lo + width
    } else {
        row.len()
    };
    let mut cells: Vec<String> = Vec::new();
    let mut c: usize = lo;
    while c < hi
        invariant
            lo <= c <= hi <= row.len(),
            cells.deep_view() == row.deep_view().subrange(lo as int, c as int),
        decreases hi - c,
    {
        let ghost prev = cells.deep_view();
        cells.push(row[c].clone());
        assert(cells.deep_view() =~= prev.push(row[c as int]@));
        assert(cells.deep_view() =~= row.deep_view().subrange(lo as int, c + 1));
        c += 1;
    }
    assert(lo == lesser(col as int, row.len() as int));
    assert(hi == lesser(col + width, row.len() as int));
    cells
}

/// Copies of the cells in the window of size `grid_size` whose top-left
/// cell is `corner_pos`, clipped where the grid ends.
pub fn get_data_segment(data: &Vec<Vec<String>>, corner_pos: &Position, grid_size: &Size) -> (part:
    Vec<Vec<String>>)
    ensures
        part.deep_view() == segment(
            data.deep_view(),
            corner_pos.row as nat,
            corner_pos.col as nat,
            grid_size.height as nat,
            grid_size.width as nat,
        ),
{
    let lo = if corner_pos.row < data.len() {
        corner_pos.row
    } else {
        data.len()
    };
    let hi = if grid_size.height < data.len() - lo {
        lo + grid_size.height
    } else {
        data.len()
    };
    let mut part: Vec<Vec<String>> = Vec::new();
    let mut r: usize = lo;
    while r < hi
        invariant
            lo <= r <= hi <= data.len(),
            part.len() == r - lo,
            forall|i: int| 0 <= i < part.len() ==> (#[trigger] part[i]).deep_view() == row_segment(
                data.deep_view()[lo + i],
                corner_pos.col as nat,
                grid_size.width as nat,
            ),
        decreases hi - r,
    {
        let cells = get_row_segment(&data[r], corner_pos.col, grid_size.width);
        part.push(cells);
        r += 1;
    }
    assert(lo == lesser(corner_pos.row as int, data.len() as int));
    assert(hi == lesser(corner_pos.row + grid_size.height, data.len() as int));
    assert(part.deep_view() =~= segment(
        data.deep_view(),
        corner_pos.row as nat,
        corner_pos.col as nat,
        grid_size.height as nat,
        grid_size.width as nat,
    ));
    part
}

/// The text of the grid: one line per row, the fields parted by `delimiter`,
/// every line padded with empty fields to the longest row's length.
pub fn create_csv_string(data: &Vec<Vec<String>>, delimiter: char) -> (out: String)
    ensures
        out@ == csv_text(data.deep_view(), delimiter),
{
    let width = get_max_row_length(data);
    let mut out = String::new();
    let mut r: usize = 0;
    while r < data.len()
        invariant
            r <= data.len(),
            out@ == csv_lines(data.deep_view(), delimiter, width as nat, r as nat),
        decreases data.len() - r,
    {
        let ghost done = out@;
        let ghost row = data.deep_view()[r as int];
        let mut c: usize = 0;
        while c < width
            invariant
                c <= width,
                r < data.len(),
                row == data.deep_view()[r as int],
                out@ == done + joined_fields(row, delimiter, c as nat),
            decreases width - c,
        {
            let ghost line = joined_fields(row, delimiter, c as nat);
            if c > 0 {
                push_char(&mut out, delimiter);
            }
            if c < data[r].len() {
                out.append(data[r][c].as_str());
            }
            assert(out@ =~= done + joined_fields(row, delimiter, (c + 1) as nat));
            c += 1;
        }
        push_char(&mut out, '\n');
        assert(out@ =~= csv_lines(data.deep_view(), delimiter, width as nat, (r + 1) as nat));
        r += 1;
    }
    out
}

} // verus!
