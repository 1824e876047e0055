//! The written text read plainly: cut at every newline into lines and at
//! every delimiter into fields, with no quoting. This is the reading under
//! which the writer, which never quotes, is shown to lose nothing; it says
//! nothing of how a parser with quoting reads the same text.

use vstd::prelude::*;
use crate::grid::{
    cell_at, csv_lines, csv_text, field, joined_fields, lemma_max_row_len, max_row_len,
};

verus! {

/// `text` holds no `c`.
pub open spec fn free_of(text: Seq<char>, c: char) -> bool {
    forall|i: int| 0 <= i < text.len() ==> text[i] != c
}

/// No cell of `g` holds `c`.
pub open spec fn cells_free_of(g: Seq<Seq<Seq<char>>>, c: char) -> bool {
    forall|r: int, k: int| 0 <= r < g.len() && 0 <= k < g[r].len() ==> free_of(#[trigger] g[r][k], c)
}

/// `text` cut at every `sep`: the pieces before, between and after them.
pub open spec fn pieces(text: Seq<char>, sep: char) -> Seq<Seq<char>>
    decreases text.len(),
{
    if text.len() == 0 {
        seq![Seq::<char>::empty()]
    } else {
        let before = pieces(text.drop_last(), sep);
        if text.last() == sep {
            before.push(Seq::empty())
        } else {
            before.update(before.len() - 1, before.last().push(text.last()))
        }
    }
}

/// The rows read from `text`: its lines, each ended by a newline, cut into
/// fields at every `delimiter`.
pub open spec fn plain_rows(text: Seq<char>, delimiter: char) -> Seq<Seq<Seq<char>>> {
    let lines = pieces(text, '\n').drop_last();
    Seq::new(lines.len(), |i: int| pieces(lines[i], delimiter))
}

/// Cutting gives at least one piece.
pub proof fn lemma_pieces_len(text: Seq<char>, sep: char)
    ensures
        pieces(text, sep).len() >= 1,
    decreases text.len(),
{
    if text.len() > 0 {
        lemma_pieces_len(text.drop_last(), sep);
    }
}

/// Text without a separator, appended, lengthens the last piece.
pub proof fn lemma_pieces_append(a: Seq<char>, b: Seq<char>, sep: char)
    requires
        free_of(b, sep),
    ensures
        pieces(a, sep).len() >= 1,
        pieces(a + b, sep) == pieces(a, sep).update(
            pieces(a, sep).len() - 1,
            pieces(a, sep).last() + b,
        ),
    decreases b.len(),
{
    lemma_pieces_len(a, sep);
    let p = pieces(a, sep);
    if b.len() == 0 {
        assert(a + b =~= a);
        assert(p.last() + b =~= p.last());
        assert(p.update(p.len() - 1, p.last() + b) =~= p);
    } else {
        lemma_pieces_append(a, b.drop_last(), sep);
        assert((a + b).drop_last() =~= a + b.drop_last());
        assert((a + b).last() == b.last());
        assert(b[b.len() - 1] != sep);
        assert((p.last() + b.drop_last()).push(b.last()) =~= p.last() + b);
        assert(pieces(a + b, sep) =~= p.update(p.len() - 1, p.last() + b));
    }
}

/// A separator, appended, starts a new and empty piece.
pub proof fn lemma_pieces_push_sep(a: Seq<char>, sep: char)
    ensures
        pieces(a.push(sep), sep) == pieces(a, sep).push(Seq::empty()),
{
    assert(a.push(sep).drop_last() =~= a);
}

/// Joined fields that hold no delimiter are cut back into the same fields.
pub proof fn lemma_joined_fields_cut(row: Seq<Seq<char>>, delimiter: char, n: nat)
    requires
        n >= 1,
        forall|i: int| 0 <= i < n ==> free_of(#[trigger] field(row, i), delimiter),
    ensures
        pieces(joined_fields(row, delimiter, n), delimiter) == Seq::new(
            n,
            |i: int| field(row, i),
        ),
    decreases n,
{
    if n == 1 {
        assert(free_of(field(row, 0), delimiter));
        lemma_pieces_append(Seq::empty(), field(row, 0), delimiter);
        assert(Seq::<char>::empty() + field(row, 0) =~= field(row, 0));
        assert(pieces(joined_fields(row, delimiter, n), delimiter) =~= Seq::new(
            n,
            |i: int| field(row, i),
        ));
    } else {
        let before = joined_fields(row, delimiter, (n - 1) as nat);
        lemma_joined_fields_cut(row, delimiter, (n - 1) as nat);
        lemma_pieces_push_sep(before, delimiter);
        assert(free_of(field(row, n - 1), delimiter));
        lemma_pieces_append(before.push(delimiter), field(row, n - 1), delimiter);
        assert(Seq::<char>::empty() + field(row, n - 1) =~= field(row, n - 1));
        assert(pieces(joined_fields(row, delimiter, n), delimiter) =~= Seq::new(
            n,
            |i: int| field(row, i),
        ));
    }
}

/// Joined fields hold a character only if a field or the delimiter does.
pub proof fn lemma_joined_fields_free(row: Seq<Seq<char>>, delimiter: char, n: nat, c: char)
    requires
        delimiter != c,
        forall|i: int| 0 <= i < n ==> free_of(#[trigger] field(row, i), c),
    ensures
        free_of(joined_fields(row, delimiter, n), c),
    decreases n,
{
    if n == 1 {
        assert(free_of(field(row, 0), c));
    } else if n > 1 {
        lemma_joined_fields_free(row, delimiter, (n - 1) as nat, c);
        assert(free_of(field(row, n - 1), c));
    }
}

/// Written lines that hold no newline of their own are cut back into the
/// same lines, with an empty piece after the last newline.
pub proof fn lemma_lines_cut(g: Seq<Seq<Seq<char>>>, delimiter: char, width: nat, n: nat)
    requires
        n <= g.len(),
        forall|i: int| 0 <= i < n ==> free_of(#[trigger] joined_fields(g[i], delimiter, width), '\n'),
    ensures
        pieces(csv_lines(g, delimiter, width, n), '\n') == Seq::new(
            n,
            |i: int| joined_fields(g[i], delimiter, width),
        ).push(Seq::empty()),
    decreases n,
{
    if n == 0 {
        assert(pieces(csv_lines(g, delimiter, width, n), '\n') =~= Seq::new(
            n,
            |i: int| joined_fields(g[i], delimiter, width),
        ).push(Seq::empty()));
    } else {
        let before = csv_lines(g, delimiter, width, (n - 1) as nat);
        let line = joined_fields(g[n - 1], delimiter, width);
        lemma_lines_cut(g, delimiter, width, (n - 1) as nat);
        lemma_pieces_append(before, line, '\n');
        lemma_pieces_push_sep(before + line, '\n');
        assert(csv_lines(g, delimiter, width, n) =~= (before + line).push('\n'));
        assert(Seq::<char>::empty() + line =~= line);
        assert(pieces(csv_lines(g, delimiter, width, n), '\n') =~= Seq::new(
            n,
            |i: int| joined_fields(g[i], delimiter, width),
        ).push(Seq::empty()));
    }
}

/// Save, then read plainly: where no cell holds the delimiter or a newline,
/// the written text has one row for each row of the grid, and every
/// coordinate reads from it what it reads from the grid. So each cell with
/// text comes back as it was, and the fields that pad short rows come back
/// empty.
pub proof fn lemma_written_text_reads_back(g: Seq<Seq<Seq<char>>>, delimiter: char, r: int, c: int)
    requires
        delimiter != '\n',
        cells_free_of(g, delimiter),
        cells_free_of(g, '\n'),
    ensures
        plain_rows(csv_text(g, delimiter), delimiter).len() == g.len(),
        cell_at(plain_rows(csv_text(g, delimiter), delimiter), r, c) == cell_at(g, r, c),
{
    let width = max_row_len(g);
    let text = csv_text(g, delimiter);
    assert forall|i: int, k: int| 0 <= i < g.len() && 0 <= k < width implies free_of(
        #[trigger] field(g[i], k),
        '\n',
    ) && free_of(field(g[i], k), delimiter) by {
        if k < g[i].len() {
            assert(free_of(g[i][k], '\n'));
            assert(free_of(g[i][k], delimiter));
        }
    }
    assert forall|i: int| 0 <= i < g.len() implies free_of(
        #[trigger] joined_fields(g[i], delimiter, width),
        '\n',
    ) by {
        lemma_joined_fields_free(g[i], delimiter, width, '\n');
    }
    lemma_lines_cut(g, delimiter, width, g.len());
    let lines = pieces(text, '\n').drop_last();
    assert(lines =~= Seq::new(g.len(), |i: int| joined_fields(g[i], delimiter, width)));
    let rows = plain_rows(text, delimiter);
    if 0 <= r < g.len() {
        lemma_max_row_len(g);
        assert(g[r].len() <= width);
        if width >= 1 {
            lemma_joined_fields_cut(g[r], delimiter, width);
            assert(rows[r] == Seq::new(width, |i: int| field(g[r], i)));
        } else {
            assert(rows[r] == seq![Seq::<char>::empty()]);
        }
        assert(cell_at(rows, r, c) =~= cell_at(g, r, c));
    }
}

} // verus!
