//! Row and column arithmetic for a flat collection laid out in rows of a fixed capacity.
//!
//! Everything here is a pure function of two numbers: `n`, the length of the
//! collection, and `c`, the maximum number of cells in a row. Nothing is cached,
//! so there is nothing that can drift out of step with the collection.

use vstd::prelude::*;
use vstd::arithmetic::div_mod::{
    lemma_fundamental_div_mod, lemma_fundamental_div_mod_converse, lemma_mod_pos_bound,
    lemma_multiply_divide_lt,
};

verus! {

/// Number of rows that `n` images occupy at `c` images per row: the ceiling of `n / c`.
pub open spec fn num_rows(n: nat, c: nat) -> nat
    recommends
        c >= 1,
{
    if n % c == 0 {
        n / c
    } else {
        n / c + 1
    }
}

/// Flat index of the first image of row `row`.
pub open spec fn first_index(row: nat, c: nat) -> nat {
    row * c
}

/// Number of images in row `row`. Meaningful for `row < num_rows(n, c)` only.
pub open spec fn count(row: nat, n: nat, c: nat) -> nat
    recommends
        c >= 1,
        row < num_rows(n, c),
{
    if n - first_index(row, c) < c {
        (n - first_index(row, c)) as nat
    } else {
        c
    }
}

/// Whether `(row, col)` names a cell of the grid.
pub open spec fn is_cell(row: nat, col: nat, n: nat, c: nat) -> bool {
    row < num_rows(n, c) && col < count(row, n, c)
}

/// Flat index of the image shown in cell `(row, col)`.
pub open spec fn flat_index(row: nat, col: nat, c: nat) -> nat {
    first_index(row, c) + col
}

/// Row in which the image with flat index `i` is shown.
pub open spec fn row_of(i: nat, c: nat) -> nat
    recommends
        c >= 1,
{
    i / c
}

/// Column in which the image with flat index `i` is shown.
pub open spec fn col_of(i: nat, c: nat) -> nat
    recommends
        c >= 1,
{
    i % c
}

/// The flat indices of row `row`, in column order.
pub open spec fn row_cells(row: nat, n: nat, c: nat) -> Seq<nat> {
    Seq::new(count(row, n, c), |col: int| flat_index(row, col as nat, c))
}

/// The flat indices of the first `rows` rows, row by row.
pub open spec fn cells_of_rows(rows: nat, n: nat, c: nat) -> Seq<nat>
    decreases rows,
{
    if rows == 0 {
        Seq::empty()
    } else {
        cells_of_rows((rows - 1) as nat, n, c) + row_cells((rows - 1) as nat, n, c)
    }
}

/// The flat indices of the whole grid, row by row.
pub open spec fn all_cells(n: nat, c: nat) -> Seq<nat> {
    cells_of_rows(num_rows(n, c), n, c)
}

/// `num_rows(n, c)` is the ceiling of `n / c`: the least number of rows of `c`
/// cells that hold `n` images. An empty collection has no rows.
pub proof fn lemma_num_rows_is_ceiling(n: nat, c: nat)
    requires
        c >= 1,
    ensures
        num_rows(n, c) * c >= n,
        n > 0 ==> (num_rows(n, c) - 1) * c < n,
        n > 0 ==> num_rows(n, c) >= 1,
        num_rows(n, c) <= n,
        num_rows(0, c) == 0,
{
    let q: int = (n / c) as int;
    let r: int = (n % c) as int;
    lemma_fundamental_div_mod(n as int, c as int);
    lemma_mod_pos_bound(n as int, c as int);
    assert(q * c == c * q) by (nonlinear_arith);
    assert((q + 1) * c == q * c + c) by (nonlinear_arith);
    assert((q - 1) * c == q * c - c) by (nonlinear_arith);
    lemma_fundamental_div_mod(0, c as int);
    lemma_mod_pos_bound(0, c as int);
    assert(0int % (c as int) == 0 && 0int / (c as int) == 0) by {
        lemma_fundamental_div_mod_converse(0, c as int, 0, 0);
    }
    if n > 0 && r == 0 {
        assert(q >= 1) by (nonlinear_arith)
            requires
                q * c == n,
                n > 0,
                c >= 1,
        ;
    }
    assert(q * c >= q) by (nonlinear_arith)
        requires
            q >= 0,
            c >= 1,
    ;
}

/// Any number of rows that holds all `n` images is at least `num_rows(n, c)`.
pub proof fn lemma_num_rows_is_least(n: nat, c: nat, rows: nat)
    requires
        c >= 1,
        rows * c >= n,
    ensures
        rows >= num_rows(n, c),
{
    lemma_num_rows_is_ceiling(n, c);
    if n > 0 && rows < num_rows(n, c) {
        assert(rows * c <= (num_rows(n, c) - 1) * c) by (nonlinear_arith)
            requires
                rows <= num_rows(n, c) - 1,
                c >= 1,
        ;
    }
}

/// The collection has a row `row` exactly if that row's first image is an
/// image of the collection.
pub proof fn lemma_row_exists_iff_first_index_in_collection(row: nat, n: nat, c: nat)
    requires
        c >= 1,
    ensures
        row < num_rows(n, c) <==> first_index(row, c) < n,
{
    lemma_num_rows_is_ceiling(n, c);
    let rows: int = num_rows(n, c) as int;
    if row < rows {
        assert(row * c <= (rows - 1) * c) by (nonlinear_arith)
            requires
                row <= rows - 1,
                c >= 1,
        ;
    } else {
        assert(rows * c <= row * c) by (nonlinear_arith)
            requires
                rows <= row,
                c >= 1,
        ;
    }
}

/// Every row but the last is full; the last holds what is left, at least one
/// image and at most `c`.
pub proof fn lemma_row_counts(row: nat, n: nat, c: nat)
    requires
        c >= 1,
        row < num_rows(n, c),
    ensures
        first_index(row, c) < n,
        first_index(row, c) + count(row, n, c) <= n,
        1 <= count(row, n, c) <= c,
        row < num_rows(n, c) - 1 ==> count(row, n, c) == c,
        row == num_rows(n, c) - 1 ==> count(row, n, c) == n - c * (num_rows(n, c) - 1),
{
    let rows: int = num_rows(n, c) as int;
    lemma_num_rows_is_ceiling(n, c);
    assert(n > 0) by {
        if n == 0 {
            assert(num_rows(0, c) == 0);
        }
    }
    assert(row * c <= (rows - 1) * c) by (nonlinear_arith)
        requires
            row <= rows - 1,
            c >= 1,
    ;
    if row < rows - 1 {
        assert((row + 1) * c <= (rows - 1) * c) by (nonlinear_arith)
            requires
                row + 1 <= rows - 1,
                c >= 1,
        ;
        assert((row + 1) * c == row * c + c) by (nonlinear_arith);
    } else {
        assert(rows * c == (rows - 1) * c + c) by (nonlinear_arith);
        assert(c * (rows - 1) == (rows - 1) * c) by (nonlinear_arith);
    }
}

/// Every cell maps to a flat index below `n`, and the row and column can be
/// read back from that index.
pub proof fn lemma_cell_to_index_round_trip(row: nat, col: nat, n: nat, c: nat)
    requires
        c >= 1,
        is_cell(row, col, n, c),
    ensures
        flat_index(row, col, c) < n,
        row_of(flat_index(row, col, c), c) == row,
        col_of(flat_index(row, col, c), c) == col,
{
    lemma_row_counts(row, n, c);
    lemma_fundamental_div_mod_converse(
        flat_index(row, col, c) as int,
        c as int,
        row as int,
        col as int,
    );
}

/// Every flat index below `n` is shown in a cell, and that cell maps back to it.
pub proof fn lemma_index_to_cell_round_trip(i: nat, n: nat, c: nat)
    requires
        c >= 1,
        i < n,
    ensures
        is_cell(row_of(i, c), col_of(i, c), n, c),
        flat_index(row_of(i, c), col_of(i, c), c) == i,
{
    let row: nat = row_of(i, c);
    let col: nat = col_of(i, c);
    lemma_fundamental_div_mod(i as int, c as int);
    lemma_mod_pos_bound(i as int, c as int);
    assert(row * c == c * row) by (nonlinear_arith);
    lemma_num_rows_is_ceiling(n, c);
    assert(c * num_rows(n, c) == num_rows(n, c) * c) by (nonlinear_arith);
    lemma_multiply_divide_lt(i as int, c as int, num_rows(n, c) as int);
}

/// No flat index is shown in two cells.
pub proof fn lemma_cells_are_distinct(row1: nat, col1: nat, row2: nat, col2: nat, n: nat, c: nat)
    requires
        c >= 1,
        is_cell(row1, col1, n, c),
        is_cell(row2, col2, n, c),
        flat_index(row1, col1, c) == flat_index(row2, col2, c),
    ensures
        row1 == row2,
        col1 == col2,
{
    lemma_cell_to_index_round_trip(row1, col1, n, c);
    lemma_cell_to_index_round_trip(row2, col2, n, c);
}

/// The first `rows` rows, read row by row, show the flat indices from 0 upwards,
/// each once and in order, up to where row `rows` would begin.
pub proof fn lemma_cells_of_rows(rows: nat, n: nat, c: nat)
    requires
        c >= 1,
        rows <= num_rows(n, c),
    ensures
        rows < num_rows(n, c) ==> cells_of_rows(rows, n, c) == Seq::new(
            first_index(rows, c),
            |i: int| i as nat,
        ),
        rows == num_rows(n, c) ==> cells_of_rows(rows, n, c) == Seq::new(n, |i: int| i as nat),
    decreases rows,
{
    if rows == 0 {
        lemma_num_rows_is_ceiling(n, c);
        assert(0 * c == 0) by (nonlinear_arith);
        assert(cells_of_rows(0, n, c) =~= Seq::new(0, |i: int| i as nat));
    } else {
        let last: nat = (rows - 1) as nat;
        lemma_cells_of_rows(last, n, c);
        lemma_row_counts(last, n, c);
        assert((last + 1) * c == last * c + c) by (nonlinear_arith);
        lemma_num_rows_is_ceiling(n, c);
        assert(c * (num_rows(n, c) - 1) == (num_rows(n, c) - 1) * c) by (nonlinear_arith);
        let upto: nat = first_index(last, c) + count(last, n, c);
        assert(cells_of_rows(rows, n, c) =~= Seq::new(upto, |i: int| i as nat));
    }
}

/// The cells of the grid show every flat index below `n` exactly once and no
/// other index: read row by row they are `0, 1, ..., n - 1`.
pub proof fn lemma_all_cells_enumerate_indices(n: nat, c: nat)
    requires
        c >= 1,
    ensures
        all_cells(n, c) == Seq::new(n, |i: int| i as nat),
        all_cells(n, c).no_duplicates(),
        forall|i: nat|
            #[trigger] all_cells(n, c).to_multiset().count(i) == (if i < n {
                1nat
            } else {
                0nat
            }),
{
    let cells = all_cells(n, c);
    lemma_cells_of_rows(num_rows(n, c), n, c);
    assert(cells.no_duplicates());
    cells.to_multiset_ensures();
    cells.lemma_multiset_has_no_duplicates();
    assert forall|i: nat| #[trigger] cells.to_multiset().count(i) == (if i < n {
        1nat
    } else {
        0nat
    }) by {
        if i < n {
            assert(cells[i as int] == i);
            assert(cells.contains(i));
        } else {
            assert(!cells.contains(i));
        }
    }
}

} // verus!
