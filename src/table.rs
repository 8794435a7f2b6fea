use vstd::prelude::*;
use vstd::string::*;

verus! {

/// The text that stands for a native null cell.
pub open spec fn null_token() -> Seq<char> {
    seq!['N', 'U', 'L', 'L']
}

/// How one cell is rendered: its text, or the null token for a null cell.
pub open spec fn cell_text(c: Option<String>) -> Seq<char> {
    match c {
        Some(s) => s@,
        None => null_token(),
    }
}

/// `parts` joined with `sep` between each two neighbours.
pub open spec fn joined(parts: Seq<Seq<char>>, sep: Seq<char>) -> Seq<char>
    decreases parts.len(),
{
    if parts.len() == 0 {
        Seq::empty()
    } else if parts.len() == 1 {
        parts[0]
    } else {
        joined(parts.drop_last(), sep) + sep + parts.last()
    }
}

/// The rendered cells of row `row` of a row-major table with `cols` columns.
pub open spec fn row_cells(cells: Seq<Option<String>>, cols: nat, row: nat) -> Seq<Seq<char>> {
    Seq::new(cols, |j: int| cell_text(cells[row * cols + j]))
}

/// The text of data rows `1..=rows` of a row-major table whose row 0 is the
/// header: cells joined by `delim`, rows joined by a newline.
pub open spec fn table_text(cells: Seq<Option<String>>, rows: nat, cols: nat, delim: Seq<char>) -> Seq<char> {
    joined(
        Seq::new(rows, |i: int| joined(row_cells(cells, cols, (i + 1) as nat), delim)),
        seq!['\n'],
    )
}

/// A null cell renders as the null token, which is never empty: a null is
/// never read back as an empty field, and never as a present empty value.
pub proof fn lemma_null_never_empty(cells: Seq<Option<String>>, cols: nat, row: nat, col: nat)
    requires
        col < cols,
        cells[(row * cols + col) as int] is None,
    ensures
        row_cells(cells, cols, row)[col as int] == null_token(),
        row_cells(cells, cols, row)[col as int].len() > 0,
{
    assert(row_cells(cells, cols, row)[col as int] == cell_text(cells[(row * cols + col) as int]));
}

proof fn lemma_row_index(row: nat, col: nat, rows: nat, cols: nat)
    requires
        1 <= row <= rows,
        col < cols,
    ensures
        row * cols <= row * cols + col < (rows + 1) * cols,
{
    assert(row * cols + col < (rows + 1) * cols) by (nonlinear_arith)
        requires
            row <= rows,
            col < cols,
    ;
}

/// Renders the data rows of a result table as text. `cells` is the flat,
/// row-major array the engine hands out: `rows + 1` rows of `cols` cells,
/// row 0 being the header, which is skipped. A null cell renders as `NULL`,
/// so that it never reads as an empty value.
pub fn dump_table(cells: &Vec<Option<String>>, rows: usize, cols: usize, delimiter: &str) -> (r: String)
    requires
        cells@.len() == (rows + 1) * cols,
    ensures
        r@ == table_text(cells@, rows as nat, cols as nat, delimiter@),
{
    let ghost row_texts = Seq::new(rows as nat, |i: int| joined(row_cells(cells@, cols as nat, (i + 1) as nat), delimiter@));
    let mut out = String::new();
    let n = cells.len();
    let mut row: usize = 0;
    while row < rows
        invariant
            n == cells@.len(),
            cells@.len() == (rows + 1) * cols,
            row <= rows,
            row_texts == Seq::new(rows as nat, |i: int| joined(row_cells(cells@, cols as nat, (i + 1) as nat), delimiter@)),
            out@ == joined(row_texts.take(row as int), seq!['\n']),
        decreases rows + 1 - row,
    {
        let ghost before = out@;
        if row > 0 {
            out.append("\n");
        }
        let ghost row_parts = row_cells(cells@, cols as nat, (row + 1) as nat);
        let mut line = String::new();
        let mut col: usize = 0;
        while col < cols
            invariant
                n == cells@.len(),
                cells@.len() == (rows + 1) * cols,
                row < rows,
                col <= cols,
                row_parts == row_cells(cells@, cols as nat, (row + 1) as nat),
                line@ == joined(row_parts.take(col as int), delimiter@),
            decreases cols - col,
        {
            proof {
                lemma_row_index((row + 1) as nat, col as nat, rows as nat, cols as nat);
            }
            if col > 0 {
                line.append(delimiter);
            }
            let idx: usize = (row + 1) * cols + col;
            match &cells[idx] {
                Some(s) => line.append(s.as_str()),
                None => {
                    proof {
                        reveal_strlit("NULL");
                    }
                    line.append("NULL");
                },
            }
            proof {
                let t = row_parts.take(col as int + 1);
                assert(t.drop_last() =~= row_parts.take(col as int));
            }
            col = col + 1;
        }
        proof {
            assert(row_parts.take(cols as int) =~= row_parts);
            let t = row_texts.take(row as int + 1);
            assert(t.drop_last() =~= row_texts.take(row as int));
            reveal_strlit("\n");
        }
        out.append(line.as_str());
        row = row + 1;
    }
    proof {
        assert(row_texts.take(rows as int) =~= row_texts);
    }
    out
}

} // verus!
