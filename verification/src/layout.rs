//! Layout resolution: deciding, from shape and stride inspection alone, the
//! storage order, transpose flag and leading dimension with which a foreign
//! BLAS-style routine must be called so that it touches exactly the memory
//! cells of the caller's strided views.

use vstd::prelude::*;

verus! {

/// Shape and per-axis strides (in elements) of a rank-2 strided view.
///
/// `row_stride` is the distance between vertically adjacent elements,
/// `col_stride` the distance between horizontally adjacent ones.  A view is
/// usable only if at least one axis is contiguous (stride 1); that invariant
/// is checked by the resolvers, never assumed.
#[derive(Clone, Copy, Debug, PartialEq, Eq, Structural)]
pub struct MatLayout {
    pub rows: usize,
    pub cols: usize,
    pub row_stride: usize,
    pub col_stride: usize,
}

/// Shape and stride of a rank-1 strided view.
#[derive(Clone, Copy, Debug, PartialEq, Eq, Structural)]
pub struct VecLayout {
    pub len: usize,
    pub stride: usize,
}

/// Transpose flag handed to the foreign routine.
#[derive(Clone, Copy, Debug, PartialEq, Eq, Structural)]
pub enum Transpose {
    NoTrans,
    Trans,
    ConjTrans,
}

/// Storage order of the computation, derived from the destination view.
#[derive(Clone, Copy, Debug, PartialEq, Eq, Structural)]
pub enum Order {
    RowMajor,
    ColMajor,
}

/// A precondition violation detected before any foreign call is attempted.
#[derive(Clone, Copy, Debug, PartialEq, Eq, Structural)]
pub enum ResolveError {
    /// A view is contiguous in neither axis.
    LayoutError,
    /// Operand shapes are incompatible for the requested operation.
    DimensionMismatch,
}

impl MatLayout {
    /// Memory offset, in elements from the view's origin, of logical
    /// element (i, j).
    pub open spec fn offset(self, i: int, j: int) -> int {
        i * self.row_stride + j * self.col_stride
    }

    /// The contiguity invariant: at least one axis has stride 1.
    pub open spec fn is_contiguous(self) -> bool {
        self.col_stride == 1 || self.row_stride == 1
    }

    /// All dimensions and strides fit the 32-bit integer width of the
    /// foreign ABI.
    pub open spec fn fits_i32(self) -> bool {
        &&& self.rows <= 0x7fff_ffff
        &&& self.cols <= 0x7fff_ffff
        &&& self.row_stride <= 0x7fff_ffff
        &&& self.col_stride <= 0x7fff_ffff
    }

    /// A dense row-major layout, as used for freshly allocated outputs.
    pub open spec fn spec_dense(rows: usize, cols: usize) -> MatLayout {
        MatLayout { rows, cols, row_stride: cols, col_stride: 1 }
    }

    /// Builds the layout of a freshly allocated dense row-major buffer.
    pub fn dense(rows: usize, cols: usize) -> (r: MatLayout)
        ensures
            r == MatLayout::spec_dense(rows, cols),
    {
        MatLayout { rows, cols, row_stride: cols, col_stride: 1 }
    }
}

impl VecLayout {
    /// Length and stride fit the 32-bit integer width of the foreign ABI.
    pub open spec fn fits_i32(self) -> bool {
        self.len <= 0x7fff_ffff && self.stride <= 0x7fff_ffff
    }
}

/// Offset at which a foreign routine that was told `order`, transpose flag
/// `t` and leading dimension `ld` reads logical element (i, j) of an operand:
/// a transposed operand is stored as its own transpose, so its indices are
/// exchanged before the order's index formula applies.
pub open spec fn read_offset(order: Order, t: Transpose, ld: int, i: int, j: int) -> int {
    match order {
        Order::RowMajor => match t {
            Transpose::NoTrans => i * ld + j,
            Transpose::Trans => j * ld + i,
            Transpose::ConjTrans => j * ld + i,
        },
        Order::ColMajor => match t {
            Transpose::NoTrans => i + j * ld,
            Transpose::Trans => j + i * ld,
            Transpose::ConjTrans => j + i * ld,
        },
    }
}

/// The transpose flag of an operand whose contiguous axis agrees with the
/// canonical order: such an operand is passed through untransposed in a
/// row-major computation, and declared transposed in a column-major one.
pub open spec fn spec_same_order(order: Order) -> Transpose {
    match order {
        Order::RowMajor => Transpose::NoTrans,
        Order::ColMajor => Transpose::Trans,
    }
}

/// The transpose flag of an operand whose contiguous axis disagrees with the
/// canonical order.
pub open spec fn spec_other_order(order: Order) -> Transpose {
    match order {
        Order::RowMajor => Transpose::Trans,
        Order::ColMajor => Transpose::NoTrans,
    }
}

/// Storage order chosen from the destination: a contiguous innermost axis
/// means row-major; contiguity in both axes counts as row-major by
/// convention; contiguity in neither is a layout error.
pub open spec fn spec_dest_order(c: MatLayout) -> Result<Order, ResolveError> {
    if c.col_stride == 1 {
        Ok(Order::RowMajor)
    } else if c.row_stride == 1 {
        Ok(Order::ColMajor)
    } else {
        Err(ResolveError::LayoutError)
    }
}

/// Decides the storage order of the computation from the destination view.
pub fn dest_order(c: &MatLayout) -> (r: Result<Order, ResolveError>)
    ensures
        r == spec_dest_order(*c),
{
    if c.col_stride == 1 {
        Ok(Order::RowMajor)
    } else if c.row_stride == 1 {
        Ok(Order::ColMajor)
    } else {
        Err(ResolveError::LayoutError)
    }
}

/// Transpose flag and leading dimension of one source operand, relative to
/// the canonical order: the leading dimension is always the stride of the
/// non-unit axis, never a shape extent, so views into larger backing
/// storage are handled correctly.
pub open spec fn spec_operand_trans(x: MatLayout, order: Order) -> Result<
    (Transpose, usize),
    ResolveError,
> {
    if x.col_stride == 1 {
        Ok((spec_same_order(order), x.row_stride))
    } else if x.row_stride == 1 {
        Ok((spec_other_order(order), x.col_stride))
    } else {
        Err(ResolveError::LayoutError)
    }
}

/// Resolves the transpose flag and leading dimension of a source operand.
pub fn operand_trans(x: &MatLayout, order: Order) -> (r: Result<(Transpose, usize), ResolveError>)
    ensures
        r == spec_operand_trans(*x, order),
{
    if x.col_stride == 1 {
        let flag = match order {
            Order::RowMajor => Transpose::NoTrans,
            Order::ColMajor => Transpose::Trans,
        };
        Ok((flag, x.row_stride))
    } else if x.row_stride == 1 {
        let flag = match order {
            Order::RowMajor => Transpose::Trans,
            Order::ColMajor => Transpose::NoTrans,
        };
        Ok((flag, x.col_stride))
    } else {
        Err(ResolveError::LayoutError)
    }
}

/// A resolved operand is read by the foreign routine at exactly the offsets
/// of the caller's view: for every logical index (i, j), the cell the
/// routine reads for element (i, j) is the cell the view stores it in.
pub proof fn lemma_operand_reads_view(
    x: MatLayout,
    order: Order,
    t: Transpose,
    ld: usize,
    i: int,
    j: int,
)
    requires
        spec_operand_trans(x, order) == Ok::<(Transpose, usize), ResolveError>((t, ld)),
    ensures
        read_offset(order, t, ld as int, i, j) == x.offset(i, j),
{
}

/// The destination of a computation in order `order` with leading dimension
/// `ld` equal to the stride of its non-unit axis is written at exactly the
/// offsets of the caller's view.
pub proof fn lemma_dest_writes_view(c: MatLayout, order: Order, ld: usize, i: int, j: int)
    requires
        spec_dest_order(c) == Ok::<Order, ResolveError>(order),
        ld == spec_dest_ld(c),
    ensures
        read_offset(order, Transpose::NoTrans, ld as int, i, j) == c.offset(i, j),
{
}

/// Leading dimension of an operand that a foreign kernel reads without a
/// transpose flag: the operand must be stored in the computation's own
/// order — its contiguous axis agreeing with it — and the leading dimension
/// is the stride of its non-unit axis, never a shape extent, so sub-views
/// are addressed correctly.  An operand stored the other way around cannot
/// be expressed to such a kernel and is a layout error.
pub open spec fn spec_untransposed_ld(x: MatLayout, order: Order) -> Result<usize, ResolveError> {
    match order {
        Order::RowMajor => if x.col_stride == 1 {
            Ok(x.row_stride)
        } else {
            Err(ResolveError::LayoutError)
        },
        Order::ColMajor => if x.row_stride == 1 {
            Ok(x.col_stride)
        } else {
            Err(ResolveError::LayoutError)
        },
    }
}

/// Resolves the leading dimension of an operand read without a transpose
/// flag.
pub fn untransposed_ld(x: &MatLayout, order: Order) -> (r: Result<usize, ResolveError>)
    ensures
        r == spec_untransposed_ld(*x, order),
{
    match order {
        Order::RowMajor => if x.col_stride == 1 {
            Ok(x.row_stride)
        } else {
            Err(ResolveError::LayoutError)
        },
        Order::ColMajor => if x.row_stride == 1 {
            Ok(x.col_stride)
        } else {
            Err(ResolveError::LayoutError)
        },
    }
}

/// An operand resolved without a transpose flag is read at exactly the
/// offsets of the caller's view.
pub proof fn lemma_untransposed_reads_view(x: MatLayout, order: Order, ld: usize, i: int, j: int)
    requires
        spec_untransposed_ld(x, order) == Ok::<usize, ResolveError>(ld),
    ensures
        read_offset(order, Transpose::NoTrans, ld as int, i, j) == x.offset(i, j),
{
}

/// Leading dimension of the destination: the stride of its non-unit axis.
pub open spec fn spec_dest_ld(c: MatLayout) -> usize {
    if c.col_stride == 1 {
        c.row_stride
    } else {
        c.col_stride
    }
}

/// Reads the destination's leading dimension.
pub fn dest_ld(c: &MatLayout) -> (r: usize)
    requires
        c.is_contiguous(),
    ensures
        r == spec_dest_ld(*c),
{
    if c.col_stride == 1 {
        c.row_stride
    } else {
        c.col_stride
    }
}

/// Checked narrowing of a dimension or stride to the 32-bit foreign ABI.
pub fn dim_to_i32(x: usize) -> (r: i32)
    requires
        x <= 0x7fff_ffff,
    ensures
        r as int == x as int,
{
    x as i32
}

/// Splits a flat index into the (row, column) pair it denotes in a dense
/// row-major rank-2 shape, as needed to report the position of an extreme
/// element found by a flat scan.
pub fn unravel_index2(flat: usize, cols: usize) -> (r: (usize, usize))
    requires
        cols > 0,
    ensures
        flat == r.0 * cols + r.1,
        r.1 < cols,
{
    let row = flat / cols;
    let col = flat % cols;
    proof {
        vstd::arithmetic::div_mod::lemma_fundamental_div_mod(flat as int, cols as int);
        vstd::arithmetic::mul::lemma_mul_is_commutative(row as int, cols as int);
    }
    (row, col)
}

/// Number of elements of a dense shape: the product of its extents.
pub open spec fn spec_prod(dims: Seq<usize>) -> int
    decreases dims.len(),
{
    if dims.len() == 0 {
        1
    } else {
        dims[0] * spec_prod(dims.skip(1))
    }
}

/// The flat position of a multi-index in the dense row-major ordering of a
/// shape: the innermost axis varies fastest.
pub open spec fn spec_flatten(idx: Seq<usize>, dims: Seq<usize>) -> int
    decreases dims.len(),
{
    if dims.len() == 0 {
        0
    } else {
        idx[0] * spec_prod(dims.skip(1)) + spec_flatten(idx.skip(1), dims.skip(1))
    }
}

/// The element count splits off its last extent as a factor.
proof fn lemma_prod_drop_last(dims: Seq<usize>)
    requires
        dims.len() > 0,
    ensures
        spec_prod(dims) == spec_prod(dims.drop_last()) * dims.last(),
    decreases dims.len(),
{
    if dims.len() == 1 {
        assert(dims.drop_last() =~= Seq::<usize>::empty());
        assert(dims.skip(1) =~= Seq::<usize>::empty());
        assert(spec_prod(Seq::<usize>::empty()) == 1);
        vstd::arithmetic::mul::lemma_mul_basics(dims[0] as int);
        assert(spec_prod(dims) == dims[0] * 1);
        assert(spec_prod(dims.drop_last()) * dims.last() == 1 * (dims[0] as int));
    } else {
        lemma_prod_drop_last(dims.skip(1));
        assert(dims.skip(1).drop_last() =~= dims.drop_last().skip(1));
        assert(dims.skip(1).last() == dims.last());
        assert(dims.drop_last()[0] == dims[0]);
        assert(spec_prod(dims) == dims[0] * spec_prod(dims.skip(1)));
        assert(spec_prod(dims.drop_last()) == dims[0] * spec_prod(dims.drop_last().skip(1)));
        vstd::arithmetic::mul::lemma_mul_is_associative(
            dims[0] as int,
            spec_prod(dims.drop_last().skip(1)),
            dims.last() as int,
        );
    }
}

/// Splits a flat index into the multi-index it denotes in a dense row-major
/// shape of any rank, as needed to report the position of an extreme
/// element found by a flat scan: the result indexes within the shape and
/// flattens back to the input.
pub fn unravel_index(flat: usize, dims: &Vec<usize>) -> (r: Vec<usize>)
    requires
        forall|i: int| 0 <= i < dims@.len() ==> dims@[i] > 0,
        flat < spec_prod(dims@),
    ensures
        r@.len() == dims@.len(),
        forall|i: int| 0 <= i < r@.len() ==> r@[i] < dims@[i],
        spec_flatten(r@, dims@) == flat,
{
    let n = dims.len();
    let mut out: Vec<usize> = Vec::new();
    let mut rem = flat;
    let mut k = n;
    proof {
        assert(dims@.take(n as int) =~= dims@);
        assert(dims@.skip(n as int) =~= Seq::<usize>::empty());
        vstd::arithmetic::mul::lemma_mul_basics(rem as int);
    }
    while k > 0
        invariant
            k <= n,
            n == dims@.len(),
            forall|i: int| 0 <= i < dims@.len() ==> dims@[i] > 0,
            out@.len() == n - k,
            forall|i: int| 0 <= i < out@.len() ==> out@[i] < dims@[k + i],
            rem < spec_prod(dims@.take(k as int)),
            rem * spec_prod(dims@.skip(k as int)) + spec_flatten(out@, dims@.skip(k as int))
                == flat,
        decreases k,
    {
        k = k - 1;
        let ghost old_out = out@;
        let ghost rem_old = rem as int;
        let d = dims[k];
        let digit = rem % d;
        let next = rem / d;
        proof {
            let di = d as int;
            let tail = spec_prod(dims@.skip(k as int + 1));
            vstd::arithmetic::div_mod::lemma_fundamental_div_mod(rem_old, di);
            vstd::arithmetic::div_mod::lemma_mod_bound(rem_old, di);
            lemma_prod_drop_last(dims@.take(k as int + 1));
            assert(dims@.take(k as int + 1).drop_last() =~= dims@.take(k as int));
            assert(dims@.take(k as int + 1).last() == dims@[k as int]);
            assert(next < spec_prod(dims@.take(k as int))) by (nonlinear_arith)
                requires
                    rem_old == di * (next as int) + (digit as int),
                    0 <= digit as int,
                    rem_old < spec_prod(dims@.take(k as int)) * di,
                    di > 0,
                    0 <= next as int,
            ;
            assert(dims@.skip(k as int)[0] == dims@[k as int]);
            assert(dims@.skip(k as int).skip(1) =~= dims@.skip(k as int + 1));
            assert(spec_prod(dims@.skip(k as int)) == di * tail);
            assert(rem_old * tail == (next as int) * (di * tail) + (digit as int) * tail)
                by (nonlinear_arith)
                requires
                    rem_old == di * (next as int) + (digit as int),
            ;
        }
        out.insert(0, digit);
        rem = next;
        proof {
            let ghost tail = spec_prod(dims@.skip(k as int + 1));
            assert(out@[0] == digit);
            assert(out@.skip(1) =~= old_out);
            assert(spec_flatten(out@, dims@.skip(k as int)) == digit * tail + spec_flatten(
                old_out,
                dims@.skip(k as int + 1),
            ));
            assert(rem * spec_prod(dims@.skip(k as int)) + spec_flatten(out@, dims@.skip(k as int))
                == rem_old * tail + spec_flatten(old_out, dims@.skip(k as int + 1)));
            assert forall|i: int| 0 <= i < out@.len() implies out@[i] < dims@[k + i] by {
                if i > 0 {
                    assert(out@[i] == old_out[i - 1]);
                }
            }
        }
    }
    proof {
        assert(dims@.take(0) =~= Seq::<usize>::empty());
        assert(dims@.skip(0) =~= dims@);
        vstd::arithmetic::mul::lemma_mul_basics(rem as int);
    }
    out
}

} // verus!
