//! The sparse grid: rows of text cells of unequal length.
//!
//! The mathematical model of a grid is a sequence of rows, each a sequence of
//! cells, each a sequence of characters. A cell that does not exist reads as
//! the empty text. The functions here work on the bare `Vec<Vec<String>>`;
//! the editor's models wrap them.

use vstd::prelude::*;
use vstd::utf8::encode_utf8;

verus! {

/// The text read at `(row, col)`: the cell where it exists, else empty.
pub open spec fn cell_at(g: Seq<Seq<Seq<char>>>, row: int, col: int) -> Seq<char> {
    if 0 <= row < g.len() && 0 <= col < g[row].len() {
        g[row][col]
    } else {
        Seq::empty()
    }
}

/// One more than the index of the last non-empty cell of `row`, or 0.
pub open spec fn row_extent(row: Seq<Seq<char>>) -> nat
    decreases row.len(),
{
    if row.len() == 0 {
        0
    } else if row.last().len() > 0 {
        row.len()
    } else {
        row_extent(row.drop_last())
    }
}

/// One more than the index of the last row that holds a non-empty cell, or 0.
pub open spec fn content_rows(g: Seq<Seq<Seq<char>>>) -> nat
    decreases g.len(),
{
    if g.len() == 0 {
        0
    } else if row_extent(g.last()) > 0 {
        g.len()
    } else {
        content_rows(g.drop_last())
    }
}

/// One more than the largest column index of a non-empty cell, or 0.
pub open spec fn content_cols(g: Seq<Seq<Seq<char>>>) -> nat
    decreases g.len(),
{
    if g.len() == 0 {
        0
    } else {
        let rest = content_cols(g.drop_last());
        let here = row_extent(g.last());
        if here > rest {
            here
        } else {
            rest
        }
    }
}

/// `row` cut down to at most `width` cells.
pub open spec fn clipped_row(row: Seq<Seq<char>>, width: nat) -> Seq<Seq<char>> {
    if row.len() <= width {
        row
    } else {
        row.take(width as int)
    }
}

/// The grid cut down to the bounding box of its non-empty cells.
pub open spec fn trimmed(g: Seq<Seq<Seq<char>>>) -> Seq<Seq<Seq<char>>> {
    Seq::new(content_rows(g), |r: int| clipped_row(g[r], content_cols(g)))
}

/// The length of the longest row.
pub open spec fn max_row_len(g: Seq<Seq<Seq<char>>>) -> nat
    decreases g.len(),
{
    if g.len() == 0 {
        0
    } else {
        let rest = max_row_len(g.drop_last());
        if g.last().len() > rest {
            g.last().len()
        } else {
            rest
        }
    }
}

/// The grid with empty rows appended until `row` exists, and that row with
/// empty cells appended until `col` exists.
pub open spec fn grown(g: Seq<Seq<Seq<char>>>, row: nat, col: nat) -> Seq<Seq<Seq<char>>> {
    let rows = if g.len() > row {
        g
    } else {
        g + Seq::new((row + 1 - g.len()) as nat, |i: int| Seq::<Seq<char>>::empty())
    };
    let target = rows[row as int];
    let padded = if target.len() > col {
        target
    } else {
        target + Seq::new((col + 1 - target.len()) as nat, |i: int| Seq::<char>::empty())
    };
    rows.update(row as int, padded)
}

/// The grid after `text` is written at `(row, col)`: grown until the cell
/// exists, the cell replaced, the result trimmed.
pub open spec fn written(g: Seq<Seq<Seq<char>>>, row: nat, col: nat, text: Seq<char>) -> Seq<
    Seq<Seq<char>>,
> {
    let big = grown(g, row, col);
    trimmed(big.update(row as int, big[row as int].update(col as int, text)))
}

/// The smaller of two numbers.
pub open spec fn lesser(a: int, b: int) -> int {
    if a <= b {
        a
    } else {
        b
    }
}

/// The cells of `row` from column `col` on, at most `width` of them.
pub open spec fn row_segment(row: Seq<Seq<char>>, col: nat, width: nat) -> Seq<Seq<char>> {
    row.subrange(lesser(col as int, row.len() as int), lesser((col + width) as int, row.len() as int))
}

/// The window of `height` rows and `width` columns whose top-left cell is
/// `(row, col)`, clipped where the grid ends: rows past the last one are
/// left out, and each row gives the cells it has.
pub open spec fn segment(g: Seq<Seq<Seq<char>>>, row: nat, col: nat, height: nat, width: nat) -> Seq<
    Seq<Seq<char>>,
> {
    let lo = lesser(row as int, g.len() as int);
    let hi = lesser((row + height) as int, g.len() as int);
    Seq::new((hi - lo) as nat, |i: int| row_segment(g[lo + i], col, width))
}

/// The length of a cell as the column widths count it: its bytes in UTF-8.
pub open spec fn cell_len(cell: Seq<char>) -> nat {
    encode_utf8(cell).len()
}

/// The length of the cell of `row` in column `col`, 0 where it has none.
pub open spec fn len_in_row(row: Seq<Seq<char>>, col: int) -> nat {
    if 0 <= col < row.len() {
        cell_len(row[col])
    } else {
        0
    }
}

/// The narrowest a column is ever shown.
pub const MIN_COL_WIDTH: usize = 5;

/// The display width of column `col`: the longest cell in it, and at least
/// `MIN_COL_WIDTH`.
pub open spec fn col_width(g: Seq<Seq<Seq<char>>>, col: int) -> nat
    decreases g.len(),
{
    if g.len() == 0 {
        MIN_COL_WIDTH as nat
    } else {
        let rest = col_width(g.drop_last(), col);
        let here = len_in_row(g.last(), col);
        if here > rest {
            here
        } else {
            rest
        }
    }
}

/// The grid with a row of empty cells, as long as the longest row, put in
/// at index `at`; unchanged where `at` is not the index of a row.
pub open spec fn row_inserted(g: Seq<Seq<Seq<char>>>, at: nat) -> Seq<Seq<Seq<char>>> {
    if at < g.len() {
        g.insert(at as int, Seq::new(max_row_len(g), |i: int| Seq::<char>::empty()))
    } else {
        g
    }
}

/// The grid without row `at`; unchanged where `at` is not the index of a row.
pub open spec fn row_removed(g: Seq<Seq<Seq<char>>>, at: nat) -> Seq<Seq<Seq<char>>> {
    if at < g.len() {
        g.remove(at as int)
    } else {
        g
    }
}

/// The grid with an empty cell put in at column `at` of every row that is
/// longer than `at`; shorter rows stay as they are.
pub open spec fn col_inserted(g: Seq<Seq<Seq<char>>>, at: nat) -> Seq<Seq<Seq<char>>> {
    Seq::new(
        g.len(),
        |r: int|
            if at < g[r].len() {
                g[r].insert(at as int, Seq::<char>::empty())
            } else {
                g[r]
            },
    )
}

/// The grid without the cell at column `at` of every row that is longer than
/// `at`; shorter rows stay as they are.
pub open spec fn col_removed(g: Seq<Seq<Seq<char>>>, at: nat) -> Seq<Seq<Seq<char>>> {
    Seq::new(
        g.len(),
        |r: int|
            if at < g[r].len() {
                g[r].remove(at as int)
            } else {
                g[r]
            },
    )
}

/// Field `i` of a written line: the cell, or empty padding past the row's end.
pub open spec fn field(row: Seq<Seq<char>>, i: int) -> Seq<char> {
    if 0 <= i < row.len() {
        row[i]
    } else {
        Seq::empty()
    }
}

/// The first `n` fields of `row`, with `delimiter` between neighbours.
pub open spec fn joined_fields(row: Seq<Seq<char>>, delimiter: char, n: nat) -> Seq<char>
    decreases n,
{
    if n == 0 {
        Seq::empty()
    } else if n == 1 {
        field(row, 0)
    } else {
        joined_fields(row, delimiter, (n - 1) as nat).push(delimiter) + field(row, n - 1)
    }
}

/// The first `n` rows as lines of `width` fields, each ended by a newline.
pub open spec fn csv_lines(g: Seq<Seq<Seq<char>>>, delimiter: char, width: nat, n: nat) -> Seq<char>
    decreases n,
{
    if n == 0 {
        Seq::empty()
    } else {
        csv_lines(g, delimiter, width, (n - 1) as nat) + joined_fields(
            g[n - 1],
            delimiter,
            width,
        ).push('\n')
    }
}

/// The text of the whole grid: one line per row, every line with as many
/// fields as the longest row has cells. Nothing is quoted or escaped.
pub open spec fn csv_text(g: Seq<Seq<Seq<char>>>, delimiter: char) -> Seq<char> {
    csv_lines(g, delimiter, max_row_len(g), g.len())
}

/// What `row_extent` computes: every cell from it on is empty, and the cell
/// just before it is not.
pub proof fn lemma_row_extent(row: Seq<Seq<char>>)
    ensures
        row_extent(row) <= row.len(),
        forall|c: int| row_extent(row) <= c < row.len() ==> (#[trigger] row[c]).len() == 0,
        row_extent(row) > 0 ==> row[row_extent(row) - 1].len() > 0,
    decreases row.len(),
{
    if row.len() > 0 && row.last().len() == 0 {
        lemma_row_extent(row.drop_last());
        assert forall|c: int| row_extent(row) <= c < row.len() implies (#[trigger] row[c]).len()
            == 0 by {
            if c < row.len() - 1 {
                assert(row.drop_last()[c] == row[c]);
            }
        }
        if row_extent(row) > 0 {
            assert(row.drop_last()[row_extent(row) - 1] == row[row_extent(row) - 1]);
        }
    }
}

/// `row_extent` is the only number with the two properties above.
pub proof fn lemma_row_extent_is(row: Seq<Seq<char>>, k: nat)
    requires
        k <= row.len(),
        forall|c: int| k <= c < row.len() ==> (#[trigger] row[c]).len() == 0,
        k > 0 ==> row[k - 1].len() > 0,
    ensures
        row_extent(row) == k,
    decreases row.len(),
{
    if row.len() > 0 {
        if row.last().len() > 0 {
            assert(k == row.len());
        } else {
            assert(k < row.len());
            assert forall|c: int| k <= c < row.drop_last().len() implies (
            #[trigger] row.drop_last()[c]).len() == 0 by {
                assert(row.drop_last()[c] == row[c]);
            }
            lemma_row_extent_is(row.drop_last(), k);
        }
    }
}

/// What `content_rows` computes: no row from it on holds text, and the row
/// just before it does.
pub proof fn lemma_content_rows(g: Seq<Seq<Seq<char>>>)
    ensures
        content_rows(g) <= g.len(),
        forall|r: int| content_rows(g) <= r < g.len() ==> row_extent(#[trigger] g[r]) == 0,
        content_rows(g) > 0 ==> row_extent(g[content_rows(g) - 1]) > 0,
    decreases g.len(),
{
    if g.len() > 0 && row_extent(g.last()) == 0 {
        lemma_content_rows(g.drop_last());
        assert forall|r: int| content_rows(g) <= r < g.len() implies row_extent(#[trigger] g[r])
            == 0 by {
            if r < g.len() - 1 {
                assert(g.drop_last()[r] == g[r]);
            }
        }
        if content_rows(g) > 0 {
            assert(g.drop_last()[content_rows(g) - 1] == g[content_rows(g) - 1]);
        }
    }
}

/// `content_rows` is the only number with the two properties above.
pub proof fn lemma_content_rows_is(g: Seq<Seq<Seq<char>>>, n: nat)
    requires
        n <= g.len(),
        forall|r: int| n <= r < g.len() ==> row_extent(#[trigger] g[r]) == 0,
        n > 0 ==> row_extent(g[n - 1]) > 0,
    ensures
        content_rows(g) == n,
    decreases g.len(),
{
    if g.len() > 0 {
        if row_extent(g.last()) > 0 {
            assert(n == g.len());
        } else {
            assert(n < g.len());
            assert forall|r: int| n <= r < g.drop_last().len() implies row_extent(
                #[trigger] g.drop_last()[r],
            ) == 0 by {
                assert(g.drop_last()[r] == g[r]);
            }
            lemma_content_rows_is(g.drop_last(), n);
        }
    }
}

/// What `content_cols` computes: it bounds every row's extent, and some row
/// reaches it unless it is 0.
pub proof fn lemma_content_cols(g: Seq<Seq<Seq<char>>>)
    ensures
        forall|r: int| 0 <= r < g.len() ==> row_extent(#[trigger] g[r]) <= content_cols(g),
        content_cols(g) > 0 ==> exists|r: int|
            0 <= r < g.len() && row_extent(#[trigger] g[r]) == content_cols(g),
    decreases g.len(),
{
    if g.len() > 0 {
        let rest = g.drop_last();
        lemma_content_cols(rest);
        assert forall|r: int| 0 <= r < g.len() implies row_extent(#[trigger] g[r])
            <= content_cols(g) by {
            if r < g.len() - 1 {
                assert(rest[r] == g[r]);
            }
        }
        if content_cols(g) > 0 {
            if row_extent(g.last()) > content_cols(rest) {
                assert(row_extent(g[g.len() - 1]) == content_cols(g));
            } else {
                let r = choose|r: int|
                    0 <= r < rest.len() && row_extent(#[trigger] rest[r]) == content_cols(rest);
                assert(rest[r] == g[r]);
            }
        }
    }
}

/// `content_cols` is the only number with the two properties above.
pub proof fn lemma_content_cols_is(g: Seq<Seq<Seq<char>>>, m: nat)
    requires
        forall|r: int| 0 <= r < g.len() ==> row_extent(#[trigger] g[r]) <= m,
        m > 0 ==> exists|r: int| 0 <= r < g.len() && row_extent(#[trigger] g[r]) == m,
    ensures
        content_cols(g) == m,
{
    lemma_content_cols(g);
    if m > 0 {
        let r = choose|r: int| 0 <= r < g.len() && row_extent(#[trigger] g[r]) == m;
        assert(row_extent(g[r]) <= content_cols(g));
    }
    if content_cols(g) > 0 {
        let r = choose|r: int|
            0 <= r < g.len() && row_extent(#[trigger] g[r]) == content_cols(g);
        assert(row_extent(g[r]) <= m);
    }
}

/// Trimming removes empty cells only: every coordinate reads as before.
pub proof fn lemma_trim_keeps_cells(g: Seq<Seq<Seq<char>>>, row: int, col: int)
    ensures
        cell_at(trimmed(g), row, col) == cell_at(g, row, col),
{
    lemma_content_rows(g);
    lemma_content_cols(g);
    if 0 <= row < g.len() && 0 <= col < g[row].len() {
        lemma_row_extent(g[row]);
        if row >= content_rows(g) || col >= content_cols(g) {
            assert(row_extent(g[row]) <= col);
            assert(g[row][col].len() == 0);
            assert(g[row][col] =~= Seq::<char>::empty());
        }
    }
}

/// The extent of a trimmed grid is its size: the last row holds text, and
/// the longest row ends in text.
pub proof fn lemma_trimmed_extent(g: Seq<Seq<Seq<char>>>)
    ensures
        trimmed(g).len() == content_rows(g),
        content_rows(trimmed(g)) == content_rows(g),
        content_cols(trimmed(g)) == content_cols(g),
        max_row_len(trimmed(g)) == content_cols(g),
        forall|r: int| 0 <= r < trimmed(g).len() ==> (#[trigger] trimmed(g)[r]).len()
            <= content_cols(g),
{
    let t = trimmed(g);
    let rows = content_rows(g);
    let cols = content_cols(g);
    lemma_content_rows(g);
    lemma_content_cols(g);
    assert forall|r: int| 0 <= r < t.len() implies row_extent(#[trigger] t[r]) == row_extent(
        g[r],
    ) by {
        lemma_row_extent(g[r]);
        lemma_row_extent_is(t[r], row_extent(g[r]));
    }
    lemma_content_rows_is(t, rows);
    if cols > 0 {
        let r = choose|r: int| 0 <= r < g.len() && row_extent(#[trigger] g[r]) == cols;
        assert(r < rows);
        assert(row_extent(t[r]) == cols);
    }
    lemma_content_cols_is(t, cols);
    lemma_max_row_len(t);
    if cols > 0 {
        let r = choose|r: int| 0 <= r < g.len() && row_extent(#[trigger] g[r]) == cols;
        lemma_row_extent(t[r]);
        assert(t[r].len() == cols);
    }
    if max_row_len(t) > 0 {
        let r = choose|r: int| 0 <= r < t.len() && (#[trigger] t[r]).len() == max_row_len(t);
        assert(t[r].len() <= cols);
    }
}

/// Trimming twice gives what trimming once gives.
pub proof fn lemma_trim_idempotent(g: Seq<Seq<Seq<char>>>)
    ensures
        trimmed(trimmed(g)) == trimmed(g),
{
    lemma_trimmed_extent(g);
    assert(trimmed(trimmed(g)) =~= trimmed(g));
}

/// What `max_row_len` computes: it bounds every row's length, and some row
/// has it unless it is 0.
pub proof fn lemma_max_row_len(g: Seq<Seq<Seq<char>>>)
    ensures
        forall|r: int| 0 <= r < g.len() ==> (#[trigger] g[r]).len() <= max_row_len(g),
        max_row_len(g) > 0 ==> exists|r: int|
            0 <= r < g.len() && (#[trigger] g[r]).len() == max_row_len(g),
    decreases g.len(),
{
    if g.len() > 0 {
        let rest = g.drop_last();
        lemma_max_row_len(rest);
        assert forall|r: int| 0 <= r < g.len() implies (#[trigger] g[r]).len() <= max_row_len(
            g,
        ) by {
            if r < g.len() - 1 {
                assert(rest[r] == g[r]);
            }
        }
        if max_row_len(g) > 0 {
            if g.last().len() > max_row_len(rest) {
                assert(g[g.len() - 1].len() == max_row_len(g));
            } else {
                let r = choose|r: int|
                    0 <= r < rest.len() && (#[trigger] rest[r]).len() == max_row_len(rest);
                assert(rest[r] == g[r]);
            }
        }
    }
}

/// What `col_width` computes: it is at least `MIN_COL_WIDTH` and at least
/// every cell's length in the column, and it is one of those numbers.
pub proof fn lemma_col_width(g: Seq<Seq<Seq<char>>>, col: int)
    ensures
        col_width(g, col) >= MIN_COL_WIDTH,
        forall|r: int| 0 <= r < g.len() ==> len_in_row(#[trigger] g[r], col) <= col_width(g, col),
        col_width(g, col) == MIN_COL_WIDTH || exists|r: int|
            0 <= r < g.len() && len_in_row(#[trigger] g[r], col) == col_width(g, col),
    decreases g.len(),
{
    if g.len() > 0 {
        let rest = g.drop_last();
        lemma_col_width(rest, col);
        assert forall|r: int| 0 <= r < g.len() implies len_in_row(#[trigger] g[r], col)
            <= col_width(g, col) by {
            if r < g.len() - 1 {
                assert(rest[r] == g[r]);
            }
        }
        if col_width(g, col) != MIN_COL_WIDTH {
            if len_in_row(g.last(), col) > col_width(rest, col) {
                assert(len_in_row(g[g.len() - 1], col) == col_width(g, col));
            } else {
                let r = choose|r: int|
                    0 <= r < rest.len() && len_in_row(#[trigger] rest[r], col) == col_width(
                        rest,
                        col,
                    );
                assert(rest[r] == g[r]);
            }
        }
    }
}

/// A read after a write: the written coordinate gives the written text,
/// every other coordinate, in or out of the grid, reads as before.
pub proof fn lemma_write_then_read(
    g: Seq<Seq<Seq<char>>>,
    row: nat,
    col: nat,
    text: Seq<char>,
    r: int,
    c: int,
)
    ensures
        cell_at(written(g, row, col, text), r, c) == if r == row && c == col {
            text
        } else {
            cell_at(g, r, c)
        },
{
    let big = grown(g, row, col);
    let set = big.update(row as int, big[row as int].update(col as int, text));
    lemma_trim_keeps_cells(set, r, c);
    if !(r == row && c == col) {
        assert(cell_at(set, r, c) =~= cell_at(g, r, c));
    }
}

/// One write of a run of writes: the coordinate and the text.
pub struct CellWrite {
    pub row: nat,
    pub col: nat,
    pub text: Seq<char>,
}

/// The grid after the writes of `writes`, made in order.
pub open spec fn after_writes(g: Seq<Seq<Seq<char>>>, writes: Seq<CellWrite>) -> Seq<Seq<Seq<char>>>
    decreases writes.len(),
{
    if writes.len() == 0 {
        g
    } else {
        written(
            after_writes(g, writes.drop_last()),
            writes.last().row,
            writes.last().col,
            writes.last().text,
        )
    }
}

/// The text of the last write of `writes` to `(r, c)`, or what the grid held
/// there where no write went to it.
pub open spec fn latest_text(g: Seq<Seq<Seq<char>>>, writes: Seq<CellWrite>, r: int, c: int) -> Seq<
    char,
>
    decreases writes.len(),
{
    if writes.len() == 0 {
        cell_at(g, r, c)
    } else if writes.last().row == r && writes.last().col == c {
        writes.last().text
    } else {
        latest_text(g, writes.drop_last(), r, c)
    }
}

/// After any run of writes every coordinate reads the most recent text
/// written to it.
pub proof fn lemma_reads_follow_writes(
    g: Seq<Seq<Seq<char>>>,
    writes: Seq<CellWrite>,
    r: int,
    c: int,
)
    ensures
        cell_at(after_writes(g, writes), r, c) == latest_text(g, writes, r, c),
    decreases writes.len(),
{
    if writes.len() > 0 {
        lemma_reads_follow_writes(g, writes.drop_last(), r, c);
        lemma_write_then_read(
            after_writes(g, writes.drop_last()),
            writes.last().row,
            writes.last().col,
            writes.last().text,
            r,
            c,
        );
    }
}

/// A written grid is trimmed: trimming it again changes nothing, and its
/// size is the extent of its text.
pub proof fn lemma_written_is_trimmed(g: Seq<Seq<Seq<char>>>, row: nat, col: nat, text: Seq<char>)
    ensures
        trimmed(written(g, row, col, text)) == written(g, row, col, text),
        written(g, row, col, text).len() == content_rows(written(g, row, col, text)),
        max_row_len(written(g, row, col, text)) == content_cols(written(g, row, col, text)),
{
    let big = grown(g, row, col);
    let set = big.update(row as int, big[row as int].update(col as int, text));
    lemma_trim_idempotent(set);
    lemma_trimmed_extent(set);
}

/// Rows at the two ends: inserting or removing at the index one past the
/// last row changes nothing; inserting at 0 in a grid with rows puts the new
/// empty row first; removing at 0 drops the first row.
pub proof fn lemma_row_edits_at_the_ends(g: Seq<Seq<Seq<char>>>)
    ensures
        row_inserted(g, g.len()) == g,
        row_removed(g, g.len()) == g,
        g.len() > 0 ==> row_inserted(g, 0).len() == g.len() + 1 && row_inserted(g, 0)[0]
            == Seq::new(max_row_len(g), |i: int| Seq::<char>::empty()) && row_inserted(
            g,
            0,
        ).subrange(1, (g.len() + 1) as int) == g,
        g.len() > 0 ==> row_removed(g, 0) == g.subrange(1, g.len() as int),
        g.len() == 0 ==> row_inserted(g, 0) == g && row_removed(g, 0) == g,
{
    if g.len() > 0 {
        assert(row_inserted(g, 0).subrange(1, (g.len() + 1) as int) =~= g);
        assert(row_removed(g, 0) =~= g.subrange(1, g.len() as int));
    }
}

/// A column that no row reaches is as narrow as a column can be.
pub proof fn lemma_col_width_past_rows(g: Seq<Seq<Seq<char>>>, col: int)
    requires
        forall|r: int| 0 <= r < g.len() ==> (#[trigger] g[r]).len() <= col,
    ensures
        col_width(g, col) == MIN_COL_WIDTH,
    decreases g.len(),
{
    if g.len() > 0 {
        assert forall|r: int| 0 <= r < g.drop_last().len() implies (#[trigger] g.drop_last()[r]).len()
            <= col by {
            assert(g.drop_last()[r] == g[r]);
        }
        lemma_col_width_past_rows(g.drop_last(), col);
        assert(g.last() == g[g.len() - 1]);
    }
}

} // verus!
