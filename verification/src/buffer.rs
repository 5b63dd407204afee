//! Verified data movement between strided views and dense working buffers:
//! the copy steps that the triangular special path relies on, stated over
//! the same offset model as the dispatch plans.

use vstd::prelude::*;
use vstd::arithmetic::mul::{lemma_mul_inequality, lemma_mul_is_distributive_add_other_way};

use crate::layout::MatLayout;

verus! {

/// The largest offset a rank-2 view touches: that of its last element.
pub open spec fn max_offset(l: MatLayout) -> int {
    (l.rows - 1) * l.row_stride + (l.cols - 1) * l.col_stride
}

/// A buffer of `len` elements backs every cell of the view.
pub open spec fn covers(l: MatLayout, len: int) -> bool {
    l.rows > 0 && l.cols > 0 ==> max_offset(l) < len
}

/// Every cell's offset stays within the bound of the last element's offset.
proof fn lemma_offset_in_range(l: MatLayout, i: int, j: int)
    requires
        0 <= i < l.rows,
        0 <= j < l.cols,
    ensures
        0 <= l.offset(i, j) <= max_offset(l),
{
    lemma_mul_inequality(i, l.rows - 1, l.row_stride as int);
    lemma_mul_inequality(j, l.cols - 1, l.col_stride as int);
    lemma_mul_inequality(0, i, l.row_stride as int);
    lemma_mul_inequality(0, j, l.col_stride as int);
}

/// Copies a strided view into a fresh dense row-major buffer, element for
/// element: cell (i, j) of the result holds the value the view stores at
/// its own offset for (i, j).
pub fn gather_dense<T: Copy>(data: &[T], l: &MatLayout) -> (r: Vec<T>)
    requires
        covers(*l, data@.len() as int),
        l.rows * l.cols <= usize::MAX,
    ensures
        r@.len() == l.rows * l.cols,
        forall|i: int, j: int|
            0 <= i < l.rows && 0 <= j < l.cols ==> r@[i * l.cols + j] == data@[
                #[trigger] l.offset(i, j)
            ],
{
    let rows = l.rows;
    let cols = l.cols;
    let data_len = data.len();
    let mut out: Vec<T> = Vec::new();
    let mut i: usize = 0;
    while i < rows
        invariant
            i <= rows,
            rows == l.rows && cols == l.cols,
            data_len == data@.len(),
            covers(*l, data@.len() as int),
            rows * cols <= usize::MAX,
            out@.len() == i * cols,
            forall|r0: int, c0: int|
                0 <= r0 < i && 0 <= c0 < cols ==> out@[r0 * cols + c0] == data@[
                    #[trigger] l.offset(r0, c0)
                ],
        decreases rows - i,
    {
        let mut j: usize = 0;
        proof {
            lemma_mul_inequality(i as int, rows as int, cols as int);
            lemma_mul_inequality(i as int + 1, rows as int, cols as int);
            lemma_mul_is_distributive_add_other_way(cols as int, i as int, 1);
        }
        while j < cols
            invariant
                i < rows,
                j <= cols,
                rows == l.rows && cols == l.cols,
                data_len == data@.len(),
                covers(*l, data@.len() as int),
                rows * cols <= usize::MAX,
                (i + 1) * cols == i * cols + cols,
                i * cols + cols <= rows * cols,
                out@.len() == i * cols + j,
                forall|r0: int, c0: int|
                    0 <= r0 < i && 0 <= c0 < cols ==> out@[r0 * cols + c0] == data@[
                        #[trigger] l.offset(r0, c0)
                    ],
                forall|c0: int|
                    0 <= c0 < j ==> out@[i * cols + c0] == data@[#[trigger] l.offset(i as int, c0)],
            decreases cols - j,
        {
            proof {
                lemma_offset_in_range(*l, i as int, j as int);
                vstd::arithmetic::mul::lemma_mul_basics(l.row_stride as int);
                vstd::arithmetic::mul::lemma_mul_basics(l.col_stride as int);
                lemma_mul_inequality(0, i as int, l.row_stride as int);
                lemma_mul_inequality(0, j as int, l.col_stride as int);
                assert(l.offset(i as int, j as int) < data@.len());
            }
            let off = i * l.row_stride + j * l.col_stride;
            let ghost prev = out@;
            out.push(data[off]);
            proof {
                assert forall|r0: int, c0: int|
                    0 <= r0 < i && 0 <= c0 < cols implies out@[r0 * cols + c0] == data@[
                    #[trigger] l.offset(r0, c0)
                ] by {
                    lemma_mul_inequality(r0 + 1, i as int, cols as int);
                    lemma_mul_is_distributive_add_other_way(cols as int, r0, 1);
                    assert(prev[r0 * cols + c0] == data@[l.offset(r0, c0)]);
                }
                assert forall|c0: int|
                    0 <= c0 < j + 1 implies out@[i * cols + c0] == data@[
                    #[trigger] l.offset(i as int, c0)
                ] by {
                    if c0 < j {
                        assert(prev[i * cols + c0] == data@[l.offset(i as int, c0)]);
                    } else {
                        assert(c0 == j);
                        assert(out@[i * cols + j] == data@[l.offset(i as int, j as int)]);
                    }
                }
            }
            j = j + 1;
        }
        i = i + 1;
    }
    out
}

} // verus!
