//! Dispatch plans for the matrix-multiply family: the general multiply, the
//! symmetric / hermitian / triangular variants, and the three output modes
//! (write into a caller buffer, produce a fresh buffer, accumulate scaled).
//!
//! A plan contains everything a foreign call needs except the element
//! pointers and the scalar factors: storage order, transpose flags,
//! dimensions and leading dimensions, all derived from stride inspection and
//! proved to address exactly the caller's memory cells.

use vstd::prelude::*;

use crate::layout::{
    dest_ld, dest_order, dim_to_i32, lemma_dest_writes_view, lemma_operand_reads_view,
    lemma_untransposed_reads_view, operand_trans, read_offset, spec_dest_ld, spec_dest_order,
    spec_operand_trans, spec_untransposed_ld, untransposed_ld, MatLayout, Order, ResolveError,
    Transpose,
};

verus! {

/// Parameter block of one general-multiply foreign call, minus pointers and
/// scalars: compute destination = alpha * op(A) * op(B) + beta * destination,
/// where A is m-by-k, B is k-by-n and the destination is m-by-n.
#[derive(Clone, Copy, Debug, PartialEq, Eq, Structural)]
pub struct GemmParams {
    pub order: Order,
    pub transa: Transpose,
    pub transb: Transpose,
    pub m: i32,
    pub n: i32,
    pub k: i32,
    pub lda: i32,
    pub ldb: i32,
    pub ldc: i32,
}

/// Shapes compose for a general multiply: A is m-by-k, B is k-by-n and the
/// destination is m-by-n.
pub open spec fn gemm_dims_ok(a: MatLayout, b: MatLayout, c: MatLayout) -> bool {
    &&& a.cols == b.rows
    &&& a.rows == c.rows
    &&& b.cols == c.cols
}

/// The resolved general-multiply parameters, or the error reported: shape
/// incompatibilities are detected first, then a destination or operand that
/// is contiguous in neither axis.
pub open spec fn spec_resolve_gemm(a: MatLayout, b: MatLayout, c: MatLayout) -> Result<
    GemmParams,
    ResolveError,
> {
    if !gemm_dims_ok(a, b, c) {
        Err(ResolveError::DimensionMismatch)
    } else {
        match spec_dest_order(c) {
            Err(e) => Err(e),
            Ok(order) => match spec_operand_trans(a, order) {
                Err(e) => Err(e),
                Ok((transa, lda)) => match spec_operand_trans(b, order) {
                    Err(e) => Err(e),
                    Ok((transb, ldb)) => Ok(
                        GemmParams {
                            order,
                            transa,
                            transb,
                            m: a.rows as i32,
                            n: b.cols as i32,
                            k: a.cols as i32,
                            lda: lda as i32,
                            ldb: ldb as i32,
                            ldc: spec_dest_ld(c) as i32,
                        },
                    ),
                },
            },
        }
    }
}

/// A successfully resolved parameter block addresses exactly the caller's
/// views: the foreign routine reads logical element (i, j) of A and of B at
/// those views' own offsets, and writes element (i, j) of the result at the
/// destination view's offset.  No incorrect foreign call can be issued from
/// a resolved plan.
pub proof fn lemma_gemm_params_address_views(
    a: MatLayout,
    b: MatLayout,
    c: MatLayout,
    p: GemmParams,
)
    requires
        a.fits_i32(),
        b.fits_i32(),
        c.fits_i32(),
        spec_resolve_gemm(a, b, c) == Ok::<GemmParams, ResolveError>(p),
    ensures
        p.m == a.rows && p.n == b.cols && p.k == a.cols,
        forall|i: int, j: int|
            #[trigger] read_offset(p.order, p.transa, p.lda as int, i, j) == a.offset(i, j),
        forall|i: int, j: int|
            #[trigger] read_offset(p.order, p.transb, p.ldb as int, i, j) == b.offset(i, j),
        forall|i: int, j: int|
            #[trigger] read_offset(p.order, Transpose::NoTrans, p.ldc as int, i, j) == c.offset(
                i,
                j,
            ),
{
    let order = spec_dest_order(c)->Ok_0;
    let (ta, la) = spec_operand_trans(a, order)->Ok_0;
    let (tb, lb) = spec_operand_trans(b, order)->Ok_0;
    assert(p.transa == ta && p.lda as usize == la);
    assert(p.transb == tb && p.ldb as usize == lb);
    assert(p.ldc as usize == spec_dest_ld(c));
    assert forall|i: int, j: int|
        #[trigger] read_offset(p.order, p.transa, p.lda as int, i, j) == a.offset(i, j) by {
        lemma_operand_reads_view(a, order, p.transa, p.lda as usize, i, j);
    }
    assert forall|i: int, j: int|
        #[trigger] read_offset(p.order, p.transb, p.ldb as int, i, j) == b.offset(i, j) by {
        lemma_operand_reads_view(b, order, p.transb, p.ldb as usize, i, j);
    }
    assert forall|i: int, j: int|
        #[trigger] read_offset(p.order, Transpose::NoTrans, p.ldc as int, i, j) == c.offset(
            i,
            j,
        ) by {
        lemma_dest_writes_view(c, order, p.ldc as usize, i, j);
    }
}

/// Resolves a general multiply against a caller-supplied destination view.
pub fn resolve_gemm(a: &MatLayout, b: &MatLayout, c: &MatLayout) -> (r: Result<
    GemmParams,
    ResolveError,
>)
    requires
        a.fits_i32(),
        b.fits_i32(),
        c.fits_i32(),
    ensures
        r == spec_resolve_gemm(*a, *b, *c),
{
    if !(a.cols == b.rows && a.rows == c.rows && b.cols == c.cols) {
        return Err(ResolveError::DimensionMismatch);
    }
    let order = match dest_order(c) {
        Ok(o) => o,
        Err(e) => { return Err(e) },
    };
    let (transa, lda) = match operand_trans(a, order) {
        Ok(t) => t,
        Err(e) => { return Err(e) },
    };
    let (transb, ldb) = match operand_trans(b, order) {
        Ok(t) => t,
        Err(e) => { return Err(e) },
    };
    let ldc = dest_ld(c);
    Ok(
        GemmParams {
            order,
            transa,
            transb,
            m: dim_to_i32(a.rows),
            n: dim_to_i32(b.cols),
            k: dim_to_i32(a.cols),
            lda: dim_to_i32(lda),
            ldb: dim_to_i32(ldb),
            ldc: dim_to_i32(ldc),
        },
    )
}

/// Resolves a general multiply whose destination is a freshly allocated
/// dense row-major buffer of shape (rows of A, columns of B): the
/// computation is row-major by construction, and the foreign call is made
/// with a zero scale on the destination so the routine treats the fresh
/// buffer as write-only.
pub fn resolve_gemm_fresh(a: &MatLayout, b: &MatLayout) -> (r: Result<GemmParams, ResolveError>)
    requires
        a.fits_i32(),
        b.fits_i32(),
    ensures
        r == spec_resolve_gemm(*a, *b, MatLayout::spec_dense(a.rows, b.cols)),
{
    if a.cols != b.rows {
        return Err(ResolveError::DimensionMismatch);
    }
    let c = MatLayout::dense(a.rows, b.cols);
    resolve_gemm(a, b, &c)
}

/// A fresh dense destination never fails layout resolution: producing a
/// fresh output succeeds exactly when the operand shapes compose and both
/// operands satisfy the contiguity invariant.
pub proof fn lemma_fresh_dest_resolves(a: MatLayout, b: MatLayout)
    requires
        a.cols == b.rows,
        a.is_contiguous(),
        b.is_contiguous(),
    ensures
        spec_resolve_gemm(a, b, MatLayout::spec_dense(a.rows, b.cols)) is Ok,
{
}

/// Which side of the other operand a symmetric, hermitian or triangular
/// matrix multiplies from.
#[derive(Clone, Copy, Debug, PartialEq, Eq, Structural)]
pub enum Side {
    Left,
    Right,
}

/// Which triangle of a symmetric, hermitian or triangular matrix holds its
/// meaningful entries.
#[derive(Clone, Copy, Debug, PartialEq, Eq, Structural)]
pub enum Triangle {
    Upper,
    Lower,
}

/// The structured-matrix variant requested for a special multiply.
#[derive(Clone, Copy, Debug, PartialEq, Eq, Structural)]
pub enum MatrixType {
    Sym,
    Her,
    Tri,
}

/// Scale applied by the foreign routine to the destination's prior value:
/// the additive identity overwrites, the multiplicative identity accumulates,
/// and an explicit value blends.
#[derive(Clone, Copy, Debug, PartialEq, Eq, Structural)]
pub enum BetaKind {
    Zero,
    One,
    Explicit,
}

/// One planned general-multiply foreign call: the resolved parameter block
/// together with the destination-scale convention of the chosen output mode.
#[derive(Clone, Copy, Debug, PartialEq, Eq, Structural)]
pub struct GemmCall {
    pub params: GemmParams,
    pub beta: BetaKind,
}

/// Attaches an output mode's destination-scale convention to a resolution
/// result.
pub open spec fn with_beta(r: Result<GemmParams, ResolveError>, beta: BetaKind) -> Result<
    GemmCall,
    ResolveError,
> {
    match r {
        Ok(p) => Ok(GemmCall { params: p, beta }),
        Err(e) => Err(e),
    }
}

/// Parameter block of one symmetric or hermitian multiply, minus pointers
/// and scalars: destination = alpha * A * B + beta * destination (side
/// Left) or alpha * B * A + beta * destination (side Right), with A square
/// and read from one triangle.  These kernels take no transpose flag, so
/// every operand must be stored in the computation's own order.
#[derive(Clone, Copy, Debug, PartialEq, Eq, Structural)]
pub struct SymmParams {
    pub order: Order,
    pub side: Side,
    pub uplo: Triangle,
    pub m: i32,
    pub n: i32,
    pub lda: i32,
    pub ldb: i32,
    pub ldc: i32,
}

/// Shapes compose for a symmetric or hermitian multiply: B has the
/// destination's m-by-n shape, and the structured operand is square over
/// the extent of the side it multiplies from.
pub open spec fn symm_dims_ok(a: MatLayout, b: MatLayout, c: MatLayout, side: Side) -> bool {
    &&& b.rows == c.rows
    &&& b.cols == c.cols
    &&& a.rows == a.cols
    &&& match side {
        Side::Left => a.rows == c.rows,
        Side::Right => a.rows == c.cols,
    }
}

/// The resolved symmetric / hermitian multiply parameters, or the error
/// reported.  Leading dimensions are always the strides of the operands'
/// non-unit axes, never shape extents, so sub-views are supported; since
/// these kernels take no transpose flag, an operand whose contiguous axis
/// disagrees with the destination's order is a layout error.
pub open spec fn spec_resolve_symm(
    a: MatLayout,
    b: MatLayout,
    c: MatLayout,
    side: Side,
    uplo: Triangle,
) -> Result<SymmParams, ResolveError> {
    if !symm_dims_ok(a, b, c, side) {
        Err(ResolveError::DimensionMismatch)
    } else {
        match spec_dest_order(c) {
            Err(e) => Err(e),
            Ok(order) => match spec_untransposed_ld(a, order) {
                Err(e) => Err(e),
                Ok(lda) => match spec_untransposed_ld(b, order) {
                    Err(e) => Err(e),
                    Ok(ldb) => Ok(
                        SymmParams {
                            order,
                            side,
                            uplo,
                            m: c.rows as i32,
                            n: c.cols as i32,
                            lda: lda as i32,
                            ldb: ldb as i32,
                            ldc: spec_dest_ld(c) as i32,
                        },
                    ),
                },
            },
        }
    }
}

/// Resolves a symmetric or hermitian multiply against a caller-supplied
/// destination view.
pub fn resolve_symm(
    a: &MatLayout,
    b: &MatLayout,
    c: &MatLayout,
    side: Side,
    uplo: Triangle,
) -> (r: Result<SymmParams, ResolveError>)
    requires
        a.fits_i32(),
        b.fits_i32(),
        c.fits_i32(),
    ensures
        r == spec_resolve_symm(*a, *b, *c, side, uplo),
{
    let square_ok = match side {
        Side::Left => a.rows == c.rows,
        Side::Right => a.rows == c.cols,
    };
    if !(b.rows == c.rows && b.cols == c.cols && a.rows == a.cols && square_ok) {
        return Err(ResolveError::DimensionMismatch);
    }
    let order = match dest_order(c) {
        Ok(o) => o,
        Err(e) => { return Err(e) },
    };
    let lda = match untransposed_ld(a, order) {
        Ok(l) => l,
        Err(e) => { return Err(e) },
    };
    let ldb = match untransposed_ld(b, order) {
        Ok(l) => l,
        Err(e) => { return Err(e) },
    };
    let ldc = dest_ld(c);
    Ok(
        SymmParams {
            order,
            side,
            uplo,
            m: dim_to_i32(c.rows),
            n: dim_to_i32(c.cols),
            lda: dim_to_i32(lda),
            ldb: dim_to_i32(ldb),
            ldc: dim_to_i32(ldc),
        },
    )
}

/// A resolved symmetric / hermitian multiply addresses exactly the caller's
/// views: every operand is read, and the destination written, at its own
/// view's offsets — on sub-views as much as on dense storage.
pub proof fn lemma_symm_params_address_views(
    a: MatLayout,
    b: MatLayout,
    c: MatLayout,
    side: Side,
    uplo: Triangle,
    p: SymmParams,
)
    requires
        a.fits_i32(),
        b.fits_i32(),
        c.fits_i32(),
        spec_resolve_symm(a, b, c, side, uplo) == Ok::<SymmParams, ResolveError>(p),
    ensures
        p.m == c.rows && p.n == c.cols,
        forall|i: int, j: int|
            #[trigger] read_offset(p.order, Transpose::NoTrans, p.lda as int, i, j) == a.offset(
                i,
                j,
            ),
        forall|i: int, j: int|
            #[trigger] read_offset(p.order, Transpose::NoTrans, p.ldb as int, i, j) == b.offset(
                i,
                j,
            ),
        forall|i: int, j: int|
            #[trigger] read_offset(p.order, Transpose::NoTrans, p.ldc as int, i, j) == c.offset(
                i,
                j,
            ),
{
    let order = spec_dest_order(c)->Ok_0;
    let la = spec_untransposed_ld(a, order)->Ok_0;
    let lb = spec_untransposed_ld(b, order)->Ok_0;
    assert(p.lda as usize == la && p.ldb as usize == lb);
    assert(p.ldc as usize == spec_dest_ld(c));
    assert forall|i: int, j: int|
        #[trigger] read_offset(p.order, Transpose::NoTrans, p.lda as int, i, j) == a.offset(
            i,
            j,
        ) by {
        lemma_untransposed_reads_view(a, order, p.lda as usize, i, j);
    }
    assert forall|i: int, j: int|
        #[trigger] read_offset(p.order, Transpose::NoTrans, p.ldb as int, i, j) == b.offset(
            i,
            j,
        ) by {
        lemma_untransposed_reads_view(b, order, p.ldb as usize, i, j);
    }
    assert forall|i: int, j: int|
        #[trigger] read_offset(p.order, Transpose::NoTrans, p.ldc as int, i, j) == c.offset(
            i,
            j,
        ) by {
        lemma_dest_writes_view(c, order, p.ldc as usize, i, j);
    }
}

/// Parameter block of one in-place triangular multiply, minus pointers and
/// the scalar: B is overwritten with alpha * op(A) * B (side Left) or
/// alpha * B * op(A) (side Right), A triangular with a non-unit diagonal.
#[derive(Clone, Copy, Debug, PartialEq, Eq, Structural)]
pub struct TrmmParams {
    pub order: Order,
    pub side: Side,
    pub uplo: Triangle,
    pub transa: Transpose,
    pub m: i32,
    pub n: i32,
    pub lda: i32,
    pub ldb: i32,
}

/// Shapes compose for an in-place triangular multiply: B keeps its shape, so
/// the triangular operand must be square over the extent of the side it
/// multiplies from.
pub open spec fn trmm_dims_ok(a: MatLayout, b: MatLayout, side: Side) -> bool {
    &&& a.rows == a.cols
    &&& match side {
        Side::Left => a.cols == b.rows,
        Side::Right => a.rows == b.cols,
    }
}

/// The resolved in-place triangular multiply parameters, or the error
/// reported.  The in-place operand B plays the destination's role: it
/// chooses the storage order and must be contiguous in one axis; the
/// triangular operand's flag and leading dimension come from its own strides.
pub open spec fn spec_resolve_trmm(
    a: MatLayout,
    b: MatLayout,
    side: Side,
    uplo: Triangle,
) -> Result<TrmmParams, ResolveError> {
    if !trmm_dims_ok(a, b, side) {
        Err(ResolveError::DimensionMismatch)
    } else {
        match spec_dest_order(b) {
            Err(e) => Err(e),
            Ok(order) => match spec_operand_trans(a, order) {
                Err(e) => Err(e),
                Ok((transa, lda)) => Ok(
                    TrmmParams {
                        order,
                        side,
                        uplo,
                        transa,
                        m: b.rows as i32,
                        n: b.cols as i32,
                        lda: lda as i32,
                        ldb: spec_dest_ld(b) as i32,
                    },
                ),
            },
        }
    }
}

/// Resolves an in-place triangular multiply.
pub fn resolve_trmm(a: &MatLayout, b: &MatLayout, side: Side, uplo: Triangle) -> (r: Result<
    TrmmParams,
    ResolveError,
>)
    requires
        a.fits_i32(),
        b.fits_i32(),
    ensures
        r == spec_resolve_trmm(*a, *b, side, uplo),
{
    let side_ok = match side {
        Side::Left => a.cols == b.rows,
        Side::Right => a.rows == b.cols,
    };
    if !(a.rows == a.cols && side_ok) {
        return Err(ResolveError::DimensionMismatch);
    }
    let order = match dest_order(b) {
        Ok(o) => o,
        Err(e) => { return Err(e) },
    };
    let (transa, lda) = match operand_trans(a, order) {
        Ok(t) => t,
        Err(e) => { return Err(e) },
    };
    let ldb = dest_ld(b);
    Ok(
        TrmmParams {
            order,
            side,
            uplo,
            transa,
            m: dim_to_i32(b.rows),
            n: dim_to_i32(b.cols),
            lda: dim_to_i32(lda),
            ldb: dim_to_i32(ldb),
        },
    )
}

/// A resolved triangular multiply addresses exactly the caller's views: the
/// triangular operand is read at its view's own offsets, and the in-place
/// operand is read and written at its view's own offsets.
pub proof fn lemma_trmm_params_address_views(
    a: MatLayout,
    b: MatLayout,
    side: Side,
    uplo: Triangle,
    p: TrmmParams,
)
    requires
        a.fits_i32(),
        b.fits_i32(),
        spec_resolve_trmm(a, b, side, uplo) == Ok::<TrmmParams, ResolveError>(p),
    ensures
        p.m == b.rows && p.n == b.cols,
        forall|i: int, j: int|
            #[trigger] read_offset(p.order, p.transa, p.lda as int, i, j) == a.offset(i, j),
        forall|i: int, j: int|
            #[trigger] read_offset(p.order, Transpose::NoTrans, p.ldb as int, i, j) == b.offset(
                i,
                j,
            ),
{
    let order = spec_dest_order(b)->Ok_0;
    let (ta, la) = spec_operand_trans(a, order)->Ok_0;
    assert(p.transa == ta && p.lda as usize == la);
    assert(p.ldb as usize == spec_dest_ld(b));
    assert forall|i: int, j: int|
        #[trigger] read_offset(p.order, p.transa, p.lda as int, i, j) == a.offset(i, j) by {
        lemma_operand_reads_view(a, order, p.transa, p.lda as usize, i, j);
    }
    assert forall|i: int, j: int|
        #[trigger] read_offset(p.order, Transpose::NoTrans, p.ldb as int, i, j) == b.offset(
            i,
            j,
        ) by {
        lemma_dest_writes_view(b, order, p.ldb as usize, i, j);
    }
}

/// Plan of the special multiply path producing a fresh output: symmetric and
/// hermitian multiplies call their out-of-place kernel directly on a fresh
/// dense destination.  No upstream primitive performs an out-of-place
/// triangular multiply, so the triangular plan deliberately compensates with
/// two copies: copy operand B into a dense working buffer, run the in-place
/// triangular kernel on it, then copy the working buffer into the fresh
/// result.
#[derive(Clone, Copy, Debug, PartialEq, Eq, Structural)]
pub enum SpecialPlan {
    Symmetric(SymmParams),
    Hermitian(SymmParams),
    Triangular(TriangularPlan),
}

/// The triangular special path: `work` is the dense working layout B is
/// copied into and multiplied in place under `trmm`; the result buffer has
/// `rows` by `cols` dense shape and receives the working buffer unchanged.
#[derive(Clone, Copy, Debug, PartialEq, Eq, Structural)]
pub struct TriangularPlan {
    pub trmm: TrmmParams,
    pub work: MatLayout,
    pub rows: usize,
    pub cols: usize,
}

/// The resolved special-multiply plan, or the error reported.  The fresh
/// destination of a symmetric or hermitian multiply is dense with B's
/// shape, which the result of either side has; the triangular variant
/// additionally needs A and B to share their row extent so the working
/// buffer can stand in for the result.
pub open spec fn spec_resolve_special(
    a: MatLayout,
    b: MatLayout,
    side: Side,
    ty: MatrixType,
    uplo: Triangle,
) -> Result<SpecialPlan, ResolveError> {
    let c = MatLayout::spec_dense(b.rows, b.cols);
    match ty {
        MatrixType::Sym => match spec_resolve_symm(a, b, c, side, uplo) {
            Ok(p) => Ok(SpecialPlan::Symmetric(p)),
            Err(e) => Err(e),
        },
        MatrixType::Her => match spec_resolve_symm(a, b, c, side, uplo) {
            Ok(p) => Ok(SpecialPlan::Hermitian(p)),
            Err(e) => Err(e),
        },
        MatrixType::Tri => {
            if a.rows != b.rows {
                Err(ResolveError::DimensionMismatch)
            } else {
                let work = MatLayout::spec_dense(b.rows, b.cols);
                match spec_resolve_trmm(a, work, side, uplo) {
                    Ok(p) => Ok(
                        SpecialPlan::Triangular(
                            TriangularPlan { trmm: p, work, rows: a.rows, cols: b.cols },
                        ),
                    ),
                    Err(e) => Err(e),
                }
            }
        },
    }
}

/// Resolves the special multiply path for a structured operand A.
pub fn resolve_special(
    a: &MatLayout,
    b: &MatLayout,
    side: Side,
    ty: MatrixType,
    uplo: Triangle,
) -> (r: Result<SpecialPlan, ResolveError>)
    requires
        a.fits_i32(),
        b.fits_i32(),
    ensures
        r == spec_resolve_special(*a, *b, side, ty, uplo),
{
    let c = MatLayout::dense(b.rows, b.cols);
    match ty {
        MatrixType::Sym => match resolve_symm(a, b, &c, side, uplo) {
            Ok(p) => Ok(SpecialPlan::Symmetric(p)),
            Err(e) => Err(e),
        },
        MatrixType::Her => match resolve_symm(a, b, &c, side, uplo) {
            Ok(p) => Ok(SpecialPlan::Hermitian(p)),
            Err(e) => Err(e),
        },
        MatrixType::Tri => {
            if a.rows != b.rows {
                return Err(ResolveError::DimensionMismatch);
            }
            let work = MatLayout::dense(b.rows, b.cols);
            match resolve_trmm(a, &work, side, uplo) {
                Ok(p) => Ok(
                    SpecialPlan::Triangular(
                        TriangularPlan { trmm: p, work, rows: a.rows, cols: b.cols },
                    ),
                ),
                Err(e) => Err(e),
            }
        },
    }
}

/// Planner for one logical matrix multiply: holds the operand layouts and
/// derives, per output mode, the single foreign call to make.  The scalar
/// factors travel outside the plan; only the destination-scale convention of
/// each mode is recorded here.
#[derive(Clone, Copy, Debug, PartialEq, Eq, Structural)]
pub struct MatMulPlanner {
    pub a: MatLayout,
    pub b: MatLayout,
}

impl MatMulPlanner {
    /// Starts a plan for destination = A * B.
    pub fn new(a: MatLayout, b: MatLayout) -> (r: MatMulPlanner)
        ensures
            r.a == a && r.b == b,
    {
        MatMulPlanner { a, b }
    }

    /// Plan the write-into mode: one call, destination overwritten, so the
    /// destination scale is the additive identity.
    pub fn write(&self, c: &MatLayout) -> (r: Result<GemmCall, ResolveError>)
        requires
            self.a.fits_i32(),
            self.b.fits_i32(),
            c.fits_i32(),
        ensures
            r == with_beta(spec_resolve_gemm(self.a, self.b, *c), BetaKind::Zero),
    {
        match resolve_gemm(&self.a, &self.b, c) {
            Ok(p) => Ok(GemmCall { params: p, beta: BetaKind::Zero }),
            Err(e) => Err(e),
        }
    }

    /// Plan the pure-accumulation mode: the destination's prior value is
    /// kept whole, so its scale is the multiplicative identity.
    pub fn add_to(&self, c: &MatLayout) -> (r: Result<GemmCall, ResolveError>)
        requires
            self.a.fits_i32(),
            self.b.fits_i32(),
            c.fits_i32(),
        ensures
            r == with_beta(spec_resolve_gemm(self.a, self.b, *c), BetaKind::One),
    {
        match resolve_gemm(&self.a, &self.b, c) {
            Ok(p) => Ok(GemmCall { params: p, beta: BetaKind::One }),
            Err(e) => Err(e),
        }
    }

    /// Plan the blending mode: the caller's explicit scale is applied by the
    /// foreign routine to the destination's prior value.
    pub fn add_to_scaled(&self, c: &MatLayout) -> (r: Result<GemmCall, ResolveError>)
        requires
            self.a.fits_i32(),
            self.b.fits_i32(),
            c.fits_i32(),
        ensures
            r == with_beta(spec_resolve_gemm(self.a, self.b, *c), BetaKind::Explicit),
    {
        match resolve_gemm(&self.a, &self.b, c) {
            Ok(p) => Ok(GemmCall { params: p, beta: BetaKind::Explicit }),
            Err(e) => Err(e),
        }
    }

    /// Plan the produce-fresh mode: the destination is a freshly allocated
    /// dense row-major buffer, and the destination scale is the additive
    /// identity so the foreign routine treats it as write-only.
    pub fn eval(&self) -> (r: Result<GemmCall, ResolveError>)
        requires
            self.a.fits_i32(),
            self.b.fits_i32(),
        ensures
            r == with_beta(
                spec_resolve_gemm(
                    self.a,
                    self.b,
                    MatLayout::spec_dense(self.a.rows, self.b.cols),
                ),
                BetaKind::Zero,
            ),
    {
        match resolve_gemm_fresh(&self.a, &self.b) {
            Ok(p) => Ok(GemmCall { params: p, beta: BetaKind::Zero }),
            Err(e) => Err(e),
        }
    }

    /// Plan the special path for a structured operand A.
    pub fn special(&self, side: Side, ty: MatrixType, uplo: Triangle) -> (r: Result<
        SpecialPlan,
        ResolveError,
    >)
        requires
            self.a.fits_i32(),
            self.b.fits_i32(),
        ensures
            r == spec_resolve_special(self.a, self.b, side, ty, uplo),
    {
        resolve_special(&self.a, &self.b, side, ty, uplo)
    }
}

/// Storage independence of the general multiply: if two buffers hold the
/// same abstract operand matrices under two different layouts (any mix of
/// row-major, column-major or sub-view storage), then the two resolved
/// foreign calls read the same operand value for every logical index, and
/// each writes the logical result cell (i, j) at its own destination's
/// offset — so the numeric result cannot depend on storage order.
pub proof fn lemma_gemm_storage_independent<T>(
    a1: MatLayout,
    b1: MatLayout,
    c1: MatLayout,
    da1: Seq<T>,
    db1: Seq<T>,
    p1: GemmParams,
    a2: MatLayout,
    b2: MatLayout,
    c2: MatLayout,
    da2: Seq<T>,
    db2: Seq<T>,
    p2: GemmParams,
)
    requires
        a1.fits_i32() && b1.fits_i32() && c1.fits_i32(),
        a2.fits_i32() && b2.fits_i32() && c2.fits_i32(),
        spec_resolve_gemm(a1, b1, c1) == Ok::<GemmParams, ResolveError>(p1),
        spec_resolve_gemm(a2, b2, c2) == Ok::<GemmParams, ResolveError>(p2),
        a1.rows == a2.rows && a1.cols == a2.cols && b1.cols == b2.cols,
        forall|i: int, j: int|
            0 <= i < a1.rows && 0 <= j < a1.cols ==> da1[#[trigger] a1.offset(i, j)] == da2[
                a2.offset(i, j)
            ],
        forall|i: int, j: int|
            0 <= i < b1.rows && 0 <= j < b1.cols ==> db1[#[trigger] b1.offset(i, j)] == db2[
                b2.offset(i, j)
            ],
    ensures
        p1.m == p2.m && p1.n == p2.n && p1.k == p2.k,
        forall|i: int, j: int|
            0 <= i < p1.m && 0 <= j < p1.k ==> da1[
                #[trigger] read_offset(p1.order, p1.transa, p1.lda as int, i, j)
            ] == da2[read_offset(p2.order, p2.transa, p2.lda as int, i, j)],
        forall|i: int, j: int|
            0 <= i < p1.k && 0 <= j < p1.n ==> db1[
                #[trigger] read_offset(p1.order, p1.transb, p1.ldb as int, i, j)
            ] == db2[read_offset(p2.order, p2.transb, p2.ldb as int, i, j)],
        forall|i: int, j: int|
            #[trigger] read_offset(p1.order, Transpose::NoTrans, p1.ldc as int, i, j) == c1.offset(
                i,
                j,
            ),
        forall|i: int, j: int|
            #[trigger] read_offset(p2.order, Transpose::NoTrans, p2.ldc as int, i, j) == c2.offset(
                i,
                j,
            ),
{
    lemma_gemm_params_address_views(a1, b1, c1, p1);
    lemma_gemm_params_address_views(a2, b2, c2, p2);
}

/// Round trip through the output modes: writing into any valid destination
/// of the product's shape and producing a fresh output resolve to foreign
/// calls that read both operands at identical memory cells and write the
/// logical result cell (i, j) at their own destination's offset.  Both modes
/// scale the destination's prior value by the additive identity — as does
/// accumulation with an explicit scale of that value — so the prior content
/// of a pre-filled destination never enters the computation and the write
/// reproduces the produce-fresh result.
pub proof fn lemma_round_trip_fresh(
    a: MatLayout,
    b: MatLayout,
    c: MatLayout,
    p1: GemmParams,
    p2: GemmParams,
)
    requires
        a.fits_i32(),
        b.fits_i32(),
        c.fits_i32(),
        spec_resolve_gemm(a, b, c) == Ok::<GemmParams, ResolveError>(p1),
        spec_resolve_gemm(a, b, MatLayout::spec_dense(a.rows, b.cols)) == Ok::<
            GemmParams,
            ResolveError,
        >(p2),
    ensures
        p1.m == p2.m && p1.n == p2.n && p1.k == p2.k,
        forall|i: int, j: int|
            #[trigger] read_offset(p1.order, p1.transa, p1.lda as int, i, j) == read_offset(
                p2.order,
                p2.transa,
                p2.lda as int,
                i,
                j,
            ),
        forall|i: int, j: int|
            #[trigger] read_offset(p1.order, p1.transb, p1.ldb as int, i, j) == read_offset(
                p2.order,
                p2.transb,
                p2.ldb as int,
                i,
                j,
            ),
        forall|i: int, j: int|
            #[trigger] read_offset(p1.order, Transpose::NoTrans, p1.ldc as int, i, j) == c.offset(
                i,
                j,
            ),
        forall|i: int, j: int|
            #[trigger] read_offset(p2.order, Transpose::NoTrans, p2.ldc as int, i, j)
                == MatLayout::spec_dense(a.rows, b.cols).offset(i, j),
{
    let cd = MatLayout::spec_dense(a.rows, b.cols);
    assert(cd.fits_i32());
    lemma_gemm_params_address_views(a, b, c, p1);
    lemma_gemm_params_address_views(a, b, cd, p2);
}

} // verus!
