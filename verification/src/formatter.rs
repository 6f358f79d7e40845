//! Output formatting for command-line tools: an aligned text table.
use vstd::prelude::*;
use vstd::string::*;
use vstd::utf8::{encode_scalar, encode_utf8};

verus! {

/// Output mode selected by the caller.
#[derive(Clone, Copy, PartialEq, Eq, Structural, Debug)]
pub enum OutputFormat {
    Table,
    Json,
}

/// Trait that types implement to render themselves as a human-readable table.
pub trait TableDisplay {
    fn headers() -> Vec<&'static str>;

    fn row(&self) -> Vec<String>;
}

/// Length of a text in bytes of UTF-8, as `str::len` counts it.
pub open spec fn byte_len(s: Seq<char>) -> nat {
    (encode_utf8(s).len() as usize) as nat
}

/// Width of column `i`: the longest of its header and of the cells that the
/// rows have in that column, in bytes.
pub open spec fn col_width(headers: Seq<Seq<char>>, rows: Seq<Seq<Seq<char>>>, i: int) -> nat
    decreases rows.len(),
{
    if rows.len() == 0 {
        byte_len(headers[i])
    } else {
        let prev = col_width(headers, rows.drop_last(), i);
        let r = rows.last();
        if i < r.len() && byte_len(r[i]) > prev {
            byte_len(r[i])
        } else {
            prev
        }
    }
}

/// The widths of all columns, one per header.
pub open spec fn col_widths(headers: Seq<Seq<char>>, rows: Seq<Seq<Seq<char>>>) -> Seq<nat> {
    Seq::new(headers.len(), |i: int| col_width(headers, rows, i))
}

/// `n` copies of `c`.
pub open spec fn repeat_char(c: char, n: nat) -> Seq<char> {
    Seq::new(n, |_i: int| c)
}

/// A cell left-aligned in a field of `w` characters: spaces are added until
/// the text is `w` characters long; longer text is kept whole.
pub open spec fn pad(s: Seq<char>, w: nat) -> Seq<char> {
    if s.len() < w {
        s + repeat_char(' ', (w - s.len()) as nat)
    } else {
        s
    }
}

/// Cells paired with column widths, padded; cells or widths beyond the
/// shorter of the two are dropped.
pub open spec fn padded(cells: Seq<Seq<char>>, widths: Seq<nat>) -> Seq<Seq<char>> {
    let n = if cells.len() < widths.len() { cells.len() } else { widths.len() };
    Seq::new(n, |i: int| pad(cells[i], widths[i]))
}

/// `parts` joined with `sep` between consecutive parts.
pub open spec fn join(parts: Seq<Seq<char>>, sep: Seq<char>) -> Seq<char>
    decreases parts.len(),
{
    if parts.len() == 0 {
        seq![]
    } else if parts.len() == 1 {
        parts[0]
    } else {
        join(parts.drop_last(), sep) + sep + parts.last()
    }
}

/// The separator between columns: two spaces.
pub open spec fn column_sep() -> Seq<char> {
    seq![' ', ' ']
}

/// The line printed after the separator when there are no rows.
pub open spec fn no_data_line() -> Seq<char> {
    seq!['(', 'n', 'o', ' ', 'd', 'a', 't', 'a', ')']
}

/// The lines of the table: the padded headers, a line of dashes as wide as
/// each column, one line per row, and `(no data)` when there are no rows.
pub open spec fn table_lines(headers: Seq<Seq<char>>, rows: Seq<Seq<Seq<char>>>) -> Seq<Seq<char>> {
    let w = col_widths(headers, rows);
    seq![
        join(padded(headers, w), column_sep()),
        join(Seq::new(w.len(), |i: int| repeat_char('-', w[i])), column_sep()),
    ] + Seq::new(rows.len(), |k: int| join(padded(rows[k], w), column_sep())) + if rows.len() == 0 {
        seq![no_data_line()]
    } else {
        seq![]
    }
}

/// The views of a list of texts.
pub open spec fn strs_view(v: Seq<String>) -> Seq<Seq<char>> {
    v.map_values(|s: String| s@)
}

/// The views of a list of rows.
pub open spec fn rows_view(v: Seq<Vec<String>>) -> Seq<Seq<Seq<char>>> {
    v.map_values(|r: Vec<String>| strs_view(r@))
}

/// The views of a list of widths.
pub open spec fn widths_view(v: Seq<usize>) -> Seq<nat> {
    v.map_values(|w: usize| w as nat)
}

proof fn lemma_join_step(parts: Seq<Seq<char>>, sep: Seq<char>, i: int)
    requires
        0 <= i < parts.len(),
    ensures
        join(parts.take(i + 1), sep) == if i == 0 {
            parts[0]
        } else {
            join(parts.take(i), sep) + sep + parts[i]
        },
{
    let t = parts.take(i + 1);
    if i > 0 {
        assert(t.drop_last() =~= parts.take(i));
    }
}

/// Appends `n` copies of the one-character text `c`.
fn push_repeat(out: &mut String, c: &str, n: usize)
    requires
        c@.len() == 1,
    ensures
        final(out)@ == old(out)@ + repeat_char(c@[0], n as nat),
{
    let mut k: usize = 0;
    while k < n
        invariant
            c@.len() == 1,
            k <= n,
            out@ == old(out)@ + repeat_char(c@[0], k as nat),
        decreases n - k,
    {
        out.append(c);
        k = k + 1;
        assert(out@ =~= old(out)@ + repeat_char(c@[0], k as nat));
    }
}

/// Appends `cell` left-aligned in a field of `w` characters.
fn push_padded(out: &mut String, cell: &str, w: usize)
    ensures
        final(out)@ == old(out)@ + pad(cell@, w as nat),
{
    proof {
        reveal_strlit(" ");
    }
    out.append(cell);
    let n = cell.unicode_len();
    if n < w {
        push_repeat(out, " ", w - n);
        assert(final(out)@ =~= old(out)@ + pad(cell@, w as nat));
    } else {
        assert(final(out)@ =~= old(out)@ + pad(cell@, w as nat));
    }
}

/// One line of the table: the cells padded to the column widths and
/// separated by two spaces.
fn render_cells(cells: &Vec<String>, widths: &Vec<usize>) -> (s: String)
    ensures
        s@ == join(padded(strs_view(cells@), widths_view(widths@)), column_sep()),
{
    proof {
        reveal_strlit("  ");
        assert("  "@ =~= column_sep());
    }
    let n = if cells.len() < widths.len() { cells.len() } else { widths.len() };
    let ghost parts = padded(strs_view(cells@), widths_view(widths@));
    let mut out = String::new();
    let mut i: usize = 0;
    assert(parts.take(0) =~= seq![]);
    while i < n
        invariant
            n == parts.len(),
            n <= cells.len(),
            n <= widths.len(),
            parts == padded(strs_view(cells@), widths_view(widths@)),
            "  "@ == column_sep(),
            i <= n,
            out@ == join(parts.take(i as int), column_sep()),
        decreases n - i,
    {
        proof {
            lemma_join_step(parts, column_sep(), i as int);
        }
        if i > 0 {
            out.append("  ");
        }
        push_padded(&mut out, cells[i].as_str(), widths[i]);
        proof {
            assert(parts[i as int] == pad(cells@[i as int]@, widths@[i as int] as nat));
            if i == 0 {
                assert(out@ =~= parts[0]);
            } else {
                assert(out@ =~= join(parts.take(i as int), column_sep()) + column_sep() + parts[i as int]);
            }
        }
        i = i + 1;
    }
    assert(parts.take(n as int) =~= parts);
    out
}

/// The separator line: a run of dashes as wide as each column, separated by
/// two spaces.
fn render_dashes(widths: &Vec<usize>) -> (s: String)
    ensures
        s@ == join(
            Seq::new(widths@.len(), |i: int| repeat_char('-', widths_view(widths@)[i])),
            column_sep(),
        ),
{
    proof {
        reveal_strlit("  ");
        reveal_strlit("-");
        assert("  "@ =~= column_sep());
        assert("-"@ =~= seq!['-']);
    }
    let n = widths.len();
    let ghost parts = Seq::new(widths@.len(), |i: int| repeat_char('-', widths_view(widths@)[i]));
    let mut out = String::new();
    let mut i: usize = 0;
    assert(parts.take(0) =~= seq![]);
    while i < n
        invariant
            n == widths.len(),
            n == parts.len(),
            parts == Seq::new(widths@.len(), |i: int| repeat_char('-', widths_view(widths@)[i])),
            "  "@ == column_sep(),
            "-"@ == seq!['-'],
            i <= n,
            out@ == join(parts.take(i as int), column_sep()),
        decreases n - i,
    {
        proof {
            lemma_join_step(parts, column_sep(), i as int);
        }
        if i > 0 {
            out.append("  ");
        }
        let ghost before = out@;
        push_repeat(&mut out, "-", widths[i]);
        proof {
            assert(out@ =~= before + parts[i as int]);
            if i == 0 {
                assert(out@ =~= parts[0]);
            } else {
                assert(out@ =~= join(parts.take(i as int), column_sep()) + column_sep() + parts[i as int]);
            }
        }
        i = i + 1;
    }
    assert(parts.take(n as int) =~= parts);
    out
}

proof fn lemma_col_width_step(h: Seq<Seq<char>>, rows: Seq<Seq<Seq<char>>>, k: int, j: int)
    requires
        0 <= k < rows.len(),
    ensures
        col_width(h, rows.take(k + 1), j) == {
            let prev = col_width(h, rows.take(k), j);
            if j < rows[k].len() && byte_len(rows[k][j]) > prev {
                byte_len(rows[k][j])
            } else {
                prev
            }
        },
{
    assert(rows.take(k + 1).drop_last() =~= rows.take(k));
    assert(rows.take(k + 1).last() == rows[k]);
}

/// Column widths: each header's byte length, widened to the longest cell
/// that a row has in that column.
fn compute_widths(headers: &Vec<String>, rows: &Vec<Vec<String>>) -> (w: Vec<usize>)
    ensures
        widths_view(w@) == col_widths(strs_view(headers@), rows_view(rows@)),
{
    let ghost h = strs_view(headers@);
    let ghost rv = rows_view(rows@);
    let mut widths: Vec<usize> = Vec::new();
    let mut j: usize = 0;
    assert(rv.take(0) =~= seq![]);
    while j < headers.len()
        invariant
            h == strs_view(headers@),
            rv == rows_view(rows@),
            rv.take(0) == Seq::<Seq<Seq<char>>>::empty(),
            j <= headers.len(),
            widths@.len() == j,
            forall|t: int| 0 <= t < j ==> #[trigger] widths@[t] as nat == col_width(h, rv.take(0), t),
        decreases headers.len() - j,
    {
        widths.push(headers[j].as_str().len());
        j = j + 1;
    }
    let mut k: usize = 0;
    while k < rows.len()
        invariant
            h == strs_view(headers@),
            rv == rows_view(rows@),
            k <= rows.len(),
            widths@.len() == headers@.len(),
            forall|t: int| 0 <= t < widths@.len() ==> #[trigger] widths@[t] as nat == col_width(h, rv.take(k as int), t),
        decreases rows.len() - k,
    {
        let row = &rows[k];
        let ghost before = widths@;
        let mut i: usize = 0;
        while i < row.len()
            invariant
                h == strs_view(headers@),
                rv == rows_view(rows@),
                k < rows.len(),
                row == rows@[k as int],
                i <= row.len(),
                widths@.len() == headers@.len(),
                before.len() == headers@.len(),
                forall|t: int| 0 <= t < widths@.len() ==> #[trigger] before[t] as nat == col_width(h, rv.take(k as int), t),
                forall|t: int| 0 <= t < widths@.len() && t >= i ==> #[trigger] widths@[t] == before[t],
                forall|t: int| 0 <= t < widths@.len() && t < i ==> #[trigger] widths@[t] as nat == col_width(h, rv.take(k + 1), t),
            decreases row.len() - i,
        {
            proof {
                lemma_col_width_step(h, rv, k as int, i as int);
            }
            if i < widths.len() {
                let l = row[i].as_str().len();
                if l > widths[i] {
                    widths.set(i, l);
                }
            }
            i = i + 1;
        }
        proof {
            assert forall|t: int| 0 <= t < widths@.len() implies #[trigger] widths@[t] as nat == col_width(h, rv.take(k + 1), t) by {
                lemma_col_width_step(h, rv, k as int, t);
            }
        }
        k = k + 1;
    }
    assert(rv.take(rows.len() as int) =~= rv);
    assert(widths_view(widths@) =~= col_widths(h, rv));
    widths
}

/// Renders `rows` as an aligned text table under `headers`: the header line,
/// a separator of dashes, one line per row, and `(no data)` when there are
/// no rows. Columns are as wide as their longest text in bytes, separated
/// by two spaces; cells beyond the headers are dropped.
pub fn render_table(headers: &Vec<&str>, rows: &Vec<Vec<String>>) -> (lines: Vec<String>)
    ensures
        strs_view(lines@) == table_lines(headers@.map_values(|s: &str| s@), rows_view(rows@)),
{
    let mut header_texts: Vec<String> = Vec::new();
    let mut j: usize = 0;
    while j < headers.len()
        invariant
            j <= headers.len(),
            header_texts@.len() == j,
            forall|t: int| 0 <= t < j ==> #[trigger] header_texts@[t]@ == headers@[t]@,
        decreases headers.len() - j,
    {
        header_texts.push(String::from_str(headers[j]));
        j = j + 1;
    }
    let ghost h = strs_view(header_texts@);
    assert(h =~= headers@.map_values(|s: &str| s@));
    let ghost rv = rows_view(rows@);
    let widths = compute_widths(&header_texts, rows);
    let ghost w = col_widths(h, rv);
    let mut lines: Vec<String> = Vec::new();
    lines.push(render_cells(&header_texts, &widths));
    lines.push(render_dashes(&widths));
    let mut k: usize = 0;
    while k < rows.len()
        invariant
            rv == rows_view(rows@),
            widths_view(widths@) == w,
            w == col_widths(h, rv),
            k <= rows.len(),
            lines@.len() == k + 2,
            lines@[0]@ == join(padded(h, w), column_sep()),
            lines@[1]@ == join(Seq::new(w.len(), |i: int| repeat_char('-', w[i])), column_sep()),
            forall|t: int| 0 <= t < k ==> #[trigger] lines@[t + 2]@ == join(padded(rv[t], w), column_sep()),
        decreases rows.len() - k,
    {
        lines.push(render_cells(&rows[k], &widths));
        k = k + 1;
    }
    if rows.len() == 0 {
        proof {
            reveal_strlit("(no data)");
        }
        lines.push(String::from_str("(no data)"));
        assert("(no data)"@ =~= no_data_line());
    }
    proof {
        let tl = table_lines(h, rv);
        assert(widths_view(widths@).len() == w.len());
        assert(Seq::new(widths@.len(), |i: int| repeat_char('-', widths_view(widths@)[i])) =~= Seq::new(
            w.len(),
            |i: int| repeat_char('-', w[i]),
        ));
        assert(padded(strs_view(header_texts@), widths_view(widths@)) == padded(h, w));
        assert(strs_view(lines@).len() == tl.len());
        assert forall|t: int| 0 <= t < tl.len() implies #[trigger] strs_view(lines@)[t] == tl[t] by {
            if t >= 2 && t < rows.len() + 2 {
                assert(lines@[(t - 2) + 2]@ == join(padded(rv[t - 2], w), column_sep()));
            }
        }
        assert(strs_view(lines@) =~= tl);
    }
    lines
}

proof fn lemma_join_same_shape(a: Seq<Seq<char>>, b: Seq<Seq<char>>, sep: Seq<char>)
    requires
        a.len() == b.len(),
        forall|i: int| 0 <= i < a.len() ==> #[trigger] a[i].len() == b[i].len(),
    ensures
        join(a, sep).len() == join(b, sep).len(),
    decreases a.len(),
{
    if a.len() > 1 {
        lemma_join_same_shape(a.drop_last(), b.drop_last(), sep);
    }
}

proof fn lemma_col_width_bounds(h: Seq<Seq<char>>, rows: Seq<Seq<Seq<char>>>, i: int)
    ensures
        col_width(h, rows, i) >= byte_len(h[i]),
        forall|k: int|
            0 <= k < rows.len() && i < rows[k].len() ==> col_width(h, rows, i) >= byte_len(
                #[trigger] rows[k][i],
            ),
    decreases rows.len(),
{
    if rows.len() > 0 {
        let init = rows.drop_last();
        lemma_col_width_bounds(h, init, i);
        assert forall|k: int| 0 <= k < rows.len() && i < rows[k].len() implies col_width(h, rows, i)
            >= byte_len(#[trigger] rows[k][i]) by {
            if k < rows.len() - 1 {
                assert(init[k] == rows[k]);
            }
        }
    }
}

/// A text whose UTF-8 encoding fits in memory, as that of every `String` does.
pub open spec fn fits_memory(s: Seq<char>) -> bool {
    encode_utf8(s).len() <= usize::MAX
}

proof fn lemma_encoding_not_shorter(s: Seq<char>)
    ensures
        encode_utf8(s).len() >= s.len(),
    decreases s.len(),
{
    if s.len() > 0 {
        lemma_encoding_not_shorter(s.drop_first());
        let c = s[0] as u32;
        assert(encode_scalar(c).len() >= 1);
    }
}

proof fn lemma_byte_len_bounds_chars(s: Seq<char>)
    requires
        fits_memory(s),
    ensures
        byte_len(s) >= s.len(),
{
    lemma_encoding_not_shorter(s);
}

/// The table is aligned: when every row has a cell under every header, the
/// header line, the separator and every row line have the same number of
/// characters, each column padded to its width. (A column is as wide as its
/// longest text in bytes, which is never less than its length in characters.)
pub proof fn lemma_table_aligned(headers: Seq<Seq<char>>, rows: Seq<Seq<Seq<char>>>)
    requires
        forall|i: int| 0 <= i < headers.len() ==> fits_memory(#[trigger] headers[i]),
        forall|k: int, i: int|
            0 <= k < rows.len() && 0 <= i < rows[k].len() ==> fits_memory(#[trigger] rows[k][i]),
        forall|k: int| 0 <= k < rows.len() ==> #[trigger] rows[k].len() >= headers.len(),
    ensures
        table_lines(headers, rows)[1].len() == table_lines(headers, rows)[0].len(),
        forall|k: int|
            0 <= k < rows.len() ==> #[trigger] table_lines(headers, rows)[k + 2].len() == table_lines(
                headers,
                rows,
            )[0].len(),
{
    let w = col_widths(headers, rows);
    let hp = padded(headers, w);
    let dashes = Seq::new(w.len(), |i: int| repeat_char('-', w[i]));
    assert forall|i: int| 0 <= i < hp.len() implies #[trigger] hp[i].len() == dashes[i].len() by {
        lemma_col_width_bounds(headers, rows, i);
        lemma_byte_len_bounds_chars(headers[i]);
    }
    lemma_join_same_shape(hp, dashes, column_sep());
    assert forall|k: int| 0 <= k < rows.len() implies #[trigger] table_lines(headers, rows)[k + 2].len()
        == table_lines(headers, rows)[0].len() by {
        let rp = padded(rows[k], w);
        assert forall|i: int| 0 <= i < rp.len() implies #[trigger] rp[i].len() == hp[i].len() by {
            lemma_col_width_bounds(headers, rows, i);
            lemma_byte_len_bounds_chars(headers[i]);
            lemma_byte_len_bounds_chars(rows[k][i]);
        }
        lemma_join_same_shape(rp, hp, column_sep());
        assert(table_lines(headers, rows)[k + 2] == join(rp, column_sep()));
    }
}

} // verus!
