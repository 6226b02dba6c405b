use vstd::prelude::*;
use vstd::string::{StrSliceExecFns, StringExecFns};

use crate::utils::{Pad, spaces};

verus! {

/// The texts of a square grid, as character sequences: `grid_view(texts)[i][j]`
/// is the text of row `i`, column `j`.
pub open spec fn grid_view<const N: usize>(texts: &[[String; N]; N]) -> Seq<Seq<Seq<char>>> {
    Seq::new(N as nat, |i: int| Seq::new(N as nat, |j: int| texts[i][j]@))
}

/// The length of the longest text in column `j` among the first `k` rows.
pub open spec fn widest_upto(t: Seq<Seq<Seq<char>>>, j: int, k: int) -> nat
    decreases k,
{
    if k <= 0 {
        0
    } else {
        let w = widest_upto(t, j, k - 1);
        let l = t[k - 1][j].len();
        if l > w {
            l
        } else {
            w
        }
    }
}

/// The width of column `j`: the length of its longest text.
pub open spec fn column_width(t: Seq<Seq<Seq<char>>>, j: int) -> nat {
    widest_upto(t, j, t.len() as int)
}

/// The text of row `i`, column `j`, centred in the column's width: half of
/// the missing spaces before it, rounded down, and the rest after it.
pub open spec fn centred_cell(t: Seq<Seq<Seq<char>>>, i: int, j: int) -> Seq<char> {
    let d = (column_width(t, j) - t[i][j].len()) as nat;
    spaces(d / 2) + t[i][j] + spaces(d / 2 + d % 2)
}

/// The first `k` centred cells of row `i`, each followed by one space.
pub open spec fn cells_upto(t: Seq<Seq<Seq<char>>>, i: int, k: int) -> Seq<char>
    decreases k,
{
    if k <= 0 {
        Seq::empty()
    } else {
        cells_upto(t, i, k - 1) + centred_cell(t, i, k - 1) + seq![' ']
    }
}

/// `s` without its trailing spaces.
pub open spec fn trim_end_spaces(s: Seq<char>) -> Seq<char>
    decreases s.len(),
{
    if s.len() > 0 && s.last() == ' ' {
        trim_end_spaces(s.drop_last())
    } else {
        s
    }
}

/// `s` without its leading spaces.
pub open spec fn trim_start_spaces(s: Seq<char>) -> Seq<char>
    decreases s.len(),
{
    if s.len() > 0 && s[0] == ' ' {
        trim_start_spaces(s.subrange(1, s.len() as int))
    } else {
        s
    }
}

/// `s` without its leading and trailing spaces.
pub open spec fn trim_spaces(s: Seq<char>) -> Seq<char> {
    trim_start_spaces(trim_end_spaces(s))
}

/// The display line of row `i`: its centred cells separated by single spaces,
/// with leading and trailing spaces removed.
pub open spec fn display_row(t: Seq<Seq<Seq<char>>>, i: int) -> Seq<char> {
    trim_spaces(cells_upto(t, i, t[i].len() as int))
}

/// The bracket that opens row `i` of `n`.
pub open spec fn row_open(i: int, n: int) -> char {
    if i == 0 {
        '⎡'
    } else if i == n - 1 {
        '⎣'
    } else {
        '⎢'
    }
}

/// The bracket that closes row `i` of `n`.
pub open spec fn row_close(i: int, n: int) -> char {
    if i == 0 {
        '⎤'
    } else if i == n - 1 {
        '⎦'
    } else {
        '⎥'
    }
}

/// A line break, then the first `k` rows, each bracketed and ended by a line
/// break.
pub open spec fn lines_upto(t: Seq<Seq<Seq<char>>>, k: int) -> Seq<char>
    decreases k,
{
    if k <= 0 {
        seq!['\n']
    } else {
        lines_upto(t, k - 1) + seq![row_open(k - 1, t.len() as int)] + display_row(t, k - 1) + seq![
            row_close(k - 1, t.len() as int),
            '\n',
        ]
    }
}

/// The whole display text of a grid.
pub open spec fn grid_display(t: Seq<Seq<Seq<char>>>) -> Seq<char> {
    lines_upto(t, t.len() as int)
}

/// `s` without its leading and trailing spaces.
fn trim_text(s: &String) -> (r: String)
    ensures
        r@ == trim_spaces(s@),
{
    let ghost v = s@;
    let n = s.as_str().unicode_len();
    let mut e: usize = n;
    assert(v.subrange(0, n as int) =~= v);
    while e > 0 && s.as_str().get_char(e - 1) == ' '
        invariant
            e <= n,
            n == v.len(),
            v == s@,
            trim_end_spaces(v.subrange(0, e as int)) == trim_end_spaces(v),
        decreases e,
    {
        assert(v.subrange(0, e as int).drop_last() =~= v.subrange(0, e - 1));
        e = e - 1;
    }
    assert(trim_end_spaces(v.subrange(0, e as int)) == v.subrange(0, e as int));
    let mut b: usize = 0;
    assert(v.subrange(b as int, e as int) =~= v.subrange(0, e as int));
    while b < e && s.as_str().get_char(b) == ' '
        invariant
            b <= e <= n,
            n == v.len(),
            v == s@,
            trim_start_spaces(v.subrange(b as int, e as int)) == trim_spaces(v),
        decreases e - b,
    {
        let ghost u = v.subrange(b as int, e as int);
        assert(u.subrange(1, u.len() as int) =~= v.subrange(b + 1, e as int));
        b = b + 1;
    }
    assert(trim_start_spaces(v.subrange(b as int, e as int)) == v.subrange(b as int, e as int));
    String::from_str(s.as_str().substring_char(b, e))
}

/// No text of column `j` among the first `k` rows is longer than
/// `widest_upto(t, j, k)`.
proof fn lemma_widest_bounds(t: Seq<Seq<Seq<char>>>, j: int, k: int, i: int)
    requires
        0 <= i < k,
    ensures
        t[i][j].len() <= widest_upto(t, j, k),
    decreases k,
{
    if i < k - 1 {
        lemma_widest_bounds(t, j, k - 1, i);
    }
}

/// The width of column `j`.
fn column_width_of<const N: usize>(texts: &[[String; N]; N], j: usize) -> (r: usize)
    requires
        j < N,
    ensures
        r == column_width(grid_view(texts), j as int),
{
    let ghost t = grid_view(texts);
    let mut w: usize = 0;
    let mut i: usize = 0;
    while i < N
        invariant
            i <= N,
            j < N,
            t == grid_view(texts),
            w == widest_upto(t, j as int, i as int),
        decreases N - i,
    {
        let l = texts[i][j].as_str().unicode_len();
        assert(t[i as int][j as int] == texts[i as int][j as int]@);
        if l > w {
            w = l;
        }
        i = i + 1;
    }
    w
}

/// The display line of row `i`, given the width of every column.
fn row_text<const N: usize>(texts: &[[String; N]; N], i: usize, widths: &Vec<usize>) -> (r: String)
    requires
        i < N,
        widths@.len() == N,
        forall|j: int| 0 <= j < N ==> #[trigger] widths@[j] == column_width(grid_view(texts), j),
    ensures
        r@ == display_row(grid_view(texts), i as int),
{
    let ghost t = grid_view(texts);
    let mut line = String::new();
    let mut j: usize = 0;
    while j < N
        invariant
            i < N,
            j <= N,
            t == grid_view(texts),
            widths@.len() == N,
            forall|k: int| 0 <= k < N ==> #[trigger] widths@[k] == column_width(t, k),
            line@ == cells_upto(t, i as int, j as int),
        decreases N - j,
    {
        let text = texts[i][j].clone();
        assert(t[i as int][j as int] == text@);
        proof {
            lemma_widest_bounds(t, j as int, N as int, i as int);
            reveal_strlit(" ");
        }
        let cell = text.pad_c(widths[j]);
        line.append(cell.as_str());
        line.append(" ");
        j = j + 1;
        assert(line@ =~= cells_upto(t, i as int, j as int));
    }
    trim_text(&line)
}

/// The bracket that opens row `i` of `n`.
fn open_text(i: usize, n: usize) -> (r: &'static str)
    requires
        i < n,
    ensures
        r@ == seq![row_open(i as int, n as int)],
{
    proof {
        reveal_strlit("⎡");
        reveal_strlit("⎣");
        reveal_strlit("⎢");
    }
    if i == 0 {
        "⎡"
    } else if i + 1 == n {
        "⎣"
    } else {
        "⎢"
    }
}

/// The bracket that closes row `i` of `n`.
fn close_text(i: usize, n: usize) -> (r: &'static str)
    requires
        i < n,
    ensures
        r@ == seq![row_close(i as int, n as int)],
{
    proof {
        reveal_strlit("⎤");
        reveal_strlit("⎦");
        reveal_strlit("⎥");
    }
    if i == 0 {
        "⎤"
    } else if i + 1 == n {
        "⎦"
    } else {
        "⎥"
    }
}

/// The display text of a square grid of texts: a line break, then one line
/// per row, bracketed, with every column as wide as its widest text and every
/// text centred in its column.
fn grid_text<const N: usize>(texts: &[[String; N]; N]) -> (r: String)
    ensures
        r@ == grid_display(grid_view(texts)),
{
    let ghost t = grid_view(texts);
    let mut widths: Vec<usize> = Vec::new();
    let mut j: usize = 0;
    while j < N
        invariant
            j <= N,
            t == grid_view(texts),
            widths@.len() == j,
            forall|k: int| 0 <= k < j ==> #[trigger] widths@[k] == column_width(t, k),
        decreases N - j,
    {
        widths.push(column_width_of(texts, j));
        j = j + 1;
    }
    proof {
        reveal_strlit("\n");
    }
    let mut out = String::from_str("\n");
    let mut i: usize = 0;
    while i < N
        invariant
            i <= N,
            t == grid_view(texts),
            widths@.len() == N,
            forall|k: int| 0 <= k < N ==> #[trigger] widths@[k] == column_width(t, k),
            out@ == lines_upto(t, i as int),
        decreases N - i,
    {
        let row = row_text(texts, i, &widths);
        out.append(open_text(i, N));
        out.append(row.as_str());
        out.append(close_text(i, N));
        proof {
            reveal_strlit("\n");
        }
        out.append("\n");
        i = i + 1;
        assert(out@ =~= lines_upto(t, i as int));
    }
    out
}

/// The display text of a 4 by 4 grid whose entries print as `texts`.
pub fn grid_text4(texts: &[[String; 4]; 4]) -> (r: String)
    ensures
        r@ == grid_display(grid_view(texts)),
        r@ == seq!['\n', '⎡'] + display_row(grid_view(texts), 0) + seq!['⎤', '\n', '⎢']
            + display_row(grid_view(texts), 1) + seq!['⎥', '\n', '⎢']
            + display_row(grid_view(texts), 2) + seq!['⎥', '\n', '⎣']
            + display_row(grid_view(texts), 3) + seq!['⎦', '\n'],
{
    let r = grid_text(texts);
    proof {
        let t = grid_view(texts);
        reveal_with_fuel(lines_upto, 5);
        assert(grid_display(t) =~= seq!['\n', '⎡'] + display_row(t, 0) + seq!['⎤', '\n', '⎢']
            + display_row(t, 1) + seq!['⎥', '\n', '⎢'] + display_row(t, 2) + seq!['⎥', '\n', '⎣']
            + display_row(t, 3) + seq!['⎦', '\n']);
    }
    r
}

/// The display text of a 3 by 3 grid whose entries print as `texts`.
pub fn grid_text3(texts: &[[String; 3]; 3]) -> (r: String)
    ensures
        r@ == grid_display(grid_view(texts)),
        r@ == seq!['\n', '⎡'] + display_row(grid_view(texts), 0) + seq!['⎤', '\n', '⎢']
            + display_row(grid_view(texts), 1) + seq!['⎥', '\n', '⎣']
            + display_row(grid_view(texts), 2) + seq!['⎦', '\n'],
{
    let r = grid_text(texts);
    proof {
        let t = grid_view(texts);
        reveal_with_fuel(lines_upto, 4);
        assert(grid_display(t) =~= seq!['\n', '⎡'] + display_row(t, 0) + seq!['⎤', '\n', '⎢']
            + display_row(t, 1) + seq!['⎥', '\n', '⎣'] + display_row(t, 2) + seq!['⎦', '\n']);
    }
    r
}

} // verus!
