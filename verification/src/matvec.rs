//! Dispatch plans for the matrix-vector and vector kernels: matrix-vector
//! multiply, rank-1 update (general, symmetric and hermitian), scaling,
//! scaled addition, dot products, norms and index-of-extreme-value.  These
//! follow the matrix-multiply pattern at lower complexity: decide order and
//! flags from stride inspection, fail fast on dimension or contiguity
//! violations, and hand the caller a complete integer parameter block.

use vstd::prelude::*;

use crate::layout::{
    dest_ld, dest_order, dim_to_i32, lemma_dest_writes_view, lemma_operand_reads_view,
    operand_trans, read_offset, spec_dest_ld, spec_dest_order, spec_operand_trans, MatLayout,
    Order, ResolveError, Transpose, VecLayout,
};
use crate::matmul::{BetaKind, Triangle};

verus! {

/// Memory offset, in elements from a vector view's origin, of its logical
/// element i.
pub open spec fn vec_offset(v: VecLayout, i: int) -> int {
    i * v.stride
}

/// Parameter block of one matrix-vector multiply foreign call, minus
/// pointers and scalars: y = alpha * op(A) * x + beta * y with A stored
/// m-by-n.
#[derive(Clone, Copy, Debug, PartialEq, Eq, Structural)]
pub struct GemvParams {
    pub order: Order,
    pub trans: Transpose,
    pub m: i32,
    pub n: i32,
    pub lda: i32,
    pub incx: i32,
    pub incy: i32,
}

/// The resolved matrix-vector multiply parameters, or the error reported.
/// Whatever the storage order, y = A·x consumes an x of A's column count
/// and fills a y of A's row count: the resolution depends on strides only
/// for the layout flag and the leading dimension, never for the shapes.
pub open spec fn spec_resolve_gemv(a: MatLayout, x: VecLayout, y: VecLayout) -> Result<
    GemvParams,
    ResolveError,
> {
    if x.len != a.cols || y.len != a.rows {
        Err(ResolveError::DimensionMismatch)
    } else {
        match spec_dest_order(a) {
            Err(e) => Err(e),
            Ok(order) => match spec_operand_trans(a, order) {
                Err(e) => Err(e),
                Ok((trans, lda)) => Ok(
                    GemvParams {
                        order,
                        trans,
                        m: a.rows as i32,
                        n: a.cols as i32,
                        lda: lda as i32,
                        incx: x.stride as i32,
                        incy: y.stride as i32,
                    },
                ),
            },
        }
    }
}

/// Resolves a matrix-vector multiply.
pub fn resolve_gemv(a: &MatLayout, x: &VecLayout, y: &VecLayout) -> (r: Result<
    GemvParams,
    ResolveError,
>)
    requires
        a.fits_i32(),
        x.fits_i32(),
        y.fits_i32(),
    ensures
        r == spec_resolve_gemv(*a, *x, *y),
{
    if x.len != a.cols || y.len != a.rows {
        return Err(ResolveError::DimensionMismatch);
    }
    let order = match dest_order(a) {
        Ok(o) => o,
        Err(e) => { return Err(e) },
    };
    let (trans, lda) = match operand_trans(a, order) {
        Ok(t) => t,
        Err(e) => { return Err(e) },
    };
    Ok(
        GemvParams {
            order,
            trans,
            m: dim_to_i32(a.rows),
            n: dim_to_i32(a.cols),
            lda: dim_to_i32(lda),
            incx: dim_to_i32(x.stride),
            incy: dim_to_i32(y.stride),
        },
    )
}

/// A resolved matrix-vector multiply addresses the matrix at its view's own
/// offsets: the flag handed over is always no-transpose, the layout flag
/// alone carries the orientation, and element (i, j) is read where the view
/// stores it.
pub proof fn lemma_gemv_params_address_views(
    a: MatLayout,
    x: VecLayout,
    y: VecLayout,
    p: GemvParams,
)
    requires
        a.fits_i32(),
        x.fits_i32(),
        y.fits_i32(),
        spec_resolve_gemv(a, x, y) == Ok::<GemvParams, ResolveError>(p),
    ensures
        p.trans is NoTrans,
        forall|i: int, j: int|
            #[trigger] read_offset(p.order, p.trans, p.lda as int, i, j) == a.offset(i, j),
        forall|i: int| #[trigger] vec_offset(x, i) == i * p.incx,
        forall|i: int| #[trigger] vec_offset(y, i) == i * p.incy,
{
    let order = spec_dest_order(a)->Ok_0;
    let (t, ld) = spec_operand_trans(a, order)->Ok_0;
    assert(p.trans == t && p.lda as usize == ld);
    assert forall|i: int, j: int|
        #[trigger] read_offset(p.order, p.trans, p.lda as int, i, j) == a.offset(i, j) by {
        lemma_operand_reads_view(a, order, p.trans, p.lda as usize, i, j);
    }
}

/// Parameter block of one general rank-1 update foreign call, minus
/// pointers and the scalar: A = alpha * x * yᵗ + A with A m-by-n.
#[derive(Clone, Copy, Debug, PartialEq, Eq, Structural)]
pub struct GerParams {
    pub order: Order,
    pub m: i32,
    pub n: i32,
    pub incx: i32,
    pub incy: i32,
    pub lda: i32,
}

/// The resolved rank-1 update parameters, or the error reported: x must
/// match A's rows and y its columns, and A — updated in place — plays the
/// destination's role for order and leading dimension.
pub open spec fn spec_resolve_ger(x: VecLayout, y: VecLayout, a: MatLayout) -> Result<
    GerParams,
    ResolveError,
> {
    if x.len != a.rows || y.len != a.cols {
        Err(ResolveError::DimensionMismatch)
    } else {
        match spec_dest_order(a) {
            Err(e) => Err(e),
            Ok(order) => Ok(
                GerParams {
                    order,
                    m: a.rows as i32,
                    n: a.cols as i32,
                    incx: x.stride as i32,
                    incy: y.stride as i32,
                    lda: spec_dest_ld(a) as i32,
                },
            ),
        }
    }
}

/// Resolves a general rank-1 update.
pub fn resolve_ger(x: &VecLayout, y: &VecLayout, a: &MatLayout) -> (r: Result<
    GerParams,
    ResolveError,
>)
    requires
        a.fits_i32(),
        x.fits_i32(),
        y.fits_i32(),
    ensures
        r == spec_resolve_ger(*x, *y, *a),
{
    if x.len != a.rows || y.len != a.cols {
        return Err(ResolveError::DimensionMismatch);
    }
    let order = match dest_order(a) {
        Ok(o) => o,
        Err(e) => { return Err(e) },
    };
    let lda = dest_ld(a);
    Ok(
        GerParams {
            order,
            m: dim_to_i32(a.rows),
            n: dim_to_i32(a.cols),
            incx: dim_to_i32(x.stride),
            incy: dim_to_i32(y.stride),
            lda: dim_to_i32(lda),
        },
    )
}

/// A resolved rank-1 update writes the matrix at its view's own offsets.
pub proof fn lemma_ger_params_address_views(x: VecLayout, y: VecLayout, a: MatLayout, p: GerParams)
    requires
        a.fits_i32(),
        x.fits_i32(),
        y.fits_i32(),
        spec_resolve_ger(x, y, a) == Ok::<GerParams, ResolveError>(p),
    ensures
        forall|i: int, j: int|
            #[trigger] read_offset(p.order, Transpose::NoTrans, p.lda as int, i, j) == a.offset(
                i,
                j,
            ),
{
    let order = spec_dest_order(a)->Ok_0;
    assert(p.lda as usize == spec_dest_ld(a));
    assert forall|i: int, j: int|
        #[trigger] read_offset(p.order, Transpose::NoTrans, p.lda as int, i, j) == a.offset(
            i,
            j,
        ) by {
        lemma_dest_writes_view(a, order, p.lda as usize, i, j);
    }
}

/// Parameter block of one symmetric or hermitian rank-1 update, minus
/// pointers and the scalar: A = alpha * x * xᵗ + A (or its conjugated
/// counterpart) touching only the chosen triangle of the square matrix A.
#[derive(Clone, Copy, Debug, PartialEq, Eq, Structural)]
pub struct SyrParams {
    pub order: Order,
    pub uplo: Triangle,
    pub n: i32,
    pub incx: i32,
    pub lda: i32,
}

/// The resolved symmetric / hermitian rank-1 update parameters, or the
/// error reported: A must be square and x must match its extent.
pub open spec fn spec_resolve_syr(x: VecLayout, a: MatLayout, uplo: Triangle) -> Result<
    SyrParams,
    ResolveError,
> {
    if a.rows != a.cols || x.len != a.cols {
        Err(ResolveError::DimensionMismatch)
    } else {
        match spec_dest_order(a) {
            Err(e) => Err(e),
            Ok(order) => Ok(
                SyrParams {
                    order,
                    uplo,
                    n: a.cols as i32,
                    incx: x.stride as i32,
                    lda: spec_dest_ld(a) as i32,
                },
            ),
        }
    }
}

/// Resolves a symmetric or hermitian rank-1 update; the two share one
/// parameter block, the hermitian variant merely takes its scalar as a real
/// value.
pub fn resolve_syr(x: &VecLayout, a: &MatLayout, uplo: Triangle) -> (r: Result<
    SyrParams,
    ResolveError,
>)
    requires
        a.fits_i32(),
        x.fits_i32(),
    ensures
        r == spec_resolve_syr(*x, *a, uplo),
{
    if a.rows != a.cols || x.len != a.cols {
        return Err(ResolveError::DimensionMismatch);
    }
    let order = match dest_order(a) {
        Ok(o) => o,
        Err(e) => { return Err(e) },
    };
    let lda = dest_ld(a);
    Ok(
        SyrParams {
            order,
            uplo,
            n: dim_to_i32(a.cols),
            incx: dim_to_i32(x.stride),
            lda: dim_to_i32(lda),
        },
    )
}

/// Parameter block of a foreign call on a single vector: scaling, one-norm,
/// two-norm, or index-of-extreme-value.
#[derive(Clone, Copy, Debug, PartialEq, Eq, Structural)]
pub struct VecParams {
    pub n: i32,
    pub inc: i32,
}

/// Reads a single vector's length and stride for a foreign call.
pub fn vec_params(x: &VecLayout) -> (r: VecParams)
    requires
        x.fits_i32(),
    ensures
        r.n == x.len && r.inc == x.stride,
{
    VecParams { n: dim_to_i32(x.len), inc: dim_to_i32(x.stride) }
}

/// Parameter block of a foreign call on a pair of vectors: scaled addition
/// and the dot products.
#[derive(Clone, Copy, Debug, PartialEq, Eq, Structural)]
pub struct VecPairParams {
    pub n: i32,
    pub incx: i32,
    pub incy: i32,
}

/// The resolved vector-pair parameters, or the mismatch reported: the two
/// vectors must have equal length.
pub open spec fn spec_resolve_vec_pair(x: VecLayout, y: VecLayout) -> Result<
    VecPairParams,
    ResolveError,
> {
    if x.len != y.len {
        Err(ResolveError::DimensionMismatch)
    } else {
        Ok(VecPairParams { n: x.len as i32, incx: x.stride as i32, incy: y.stride as i32 })
    }
}

/// Resolves a foreign call on a pair of equal-length vectors, as used by
/// scaled addition and by the plain and conjugated dot products.
pub fn resolve_vec_pair(x: &VecLayout, y: &VecLayout) -> (r: Result<VecPairParams, ResolveError>)
    requires
        x.fits_i32(),
        y.fits_i32(),
    ensures
        r == spec_resolve_vec_pair(*x, *y),
{
    if x.len != y.len {
        return Err(ResolveError::DimensionMismatch);
    }
    Ok(
        VecPairParams {
            n: dim_to_i32(x.len),
            incx: dim_to_i32(x.stride),
            incy: dim_to_i32(y.stride),
        },
    )
}

/// Reads the parameters of an index-of-extreme-value call; the foreign
/// routine has no meaning on an empty vector, so emptiness is excluded.
pub fn resolve_amax(x: &VecLayout) -> (r: VecParams)
    requires
        x.fits_i32(),
        x.len > 0,
    ensures
        r.n == x.len && r.inc == x.stride,
{
    vec_params(x)
}

/// One planned matrix-vector multiply: the resolved parameter block with
/// the destination-scale convention of the chosen output mode.
#[derive(Clone, Copy, Debug, PartialEq, Eq, Structural)]
pub struct GemvCall {
    pub params: GemvParams,
    pub beta: BetaKind,
}

/// Attaches an output mode's destination-scale convention to a
/// matrix-vector resolution result.
pub open spec fn gemv_with_beta(r: Result<GemvParams, ResolveError>, beta: BetaKind) -> Result<
    GemvCall,
    ResolveError,
> {
    match r {
        Ok(p) => Ok(GemvCall { params: p, beta }),
        Err(e) => Err(e),
    }
}

/// Planner for one logical matrix-vector multiply, mirroring the multiply
/// planner's output modes on vectors.
#[derive(Clone, Copy, Debug, PartialEq, Eq, Structural)]
pub struct MatVecPlanner {
    pub a: MatLayout,
    pub x: VecLayout,
}

impl MatVecPlanner {
    /// Starts a plan for y = A * x.
    pub fn new(a: MatLayout, x: VecLayout) -> (r: MatVecPlanner)
        ensures
            r.a == a && r.x == x,
    {
        MatVecPlanner { a, x }
    }

    /// Plan the produce-fresh mode: the destination is a fresh contiguous
    /// vector of A's row count, and the destination scale is the additive
    /// identity.
    pub fn eval(&self) -> (r: Result<GemvCall, ResolveError>)
        requires
            self.a.fits_i32(),
            self.x.fits_i32(),
        ensures
            r == gemv_with_beta(
                spec_resolve_gemv(self.a, self.x, VecLayout { len: self.a.rows, stride: 1 }),
                BetaKind::Zero,
            ),
    {
        let y = VecLayout { len: self.a.rows, stride: 1 };
        match resolve_gemv(&self.a, &self.x, &y) {
            Ok(p) => Ok(GemvCall { params: p, beta: BetaKind::Zero }),
            Err(e) => Err(e),
        }
    }

    /// Plan the write-into mode: the destination's prior value is dropped.
    pub fn write(&self, y: &VecLayout) -> (r: Result<GemvCall, ResolveError>)
        requires
            self.a.fits_i32(),
            self.x.fits_i32(),
            y.fits_i32(),
        ensures
            r == gemv_with_beta(spec_resolve_gemv(self.a, self.x, *y), BetaKind::Zero),
    {
        match resolve_gemv(&self.a, &self.x, y) {
            Ok(p) => Ok(GemvCall { params: p, beta: BetaKind::Zero }),
            Err(e) => Err(e),
        }
    }

    /// Plan the pure-accumulation mode: the destination's prior value is
    /// kept whole.
    pub fn add_to_vec(&self, y: &VecLayout) -> (r: Result<GemvCall, ResolveError>)
        requires
            self.a.fits_i32(),
            self.x.fits_i32(),
            y.fits_i32(),
        ensures
            r == gemv_with_beta(spec_resolve_gemv(self.a, self.x, *y), BetaKind::One),
    {
        match resolve_gemv(&self.a, &self.x, y) {
            Ok(p) => Ok(GemvCall { params: p, beta: BetaKind::One }),
            Err(e) => Err(e),
        }
    }

    /// Plan the blending mode: the caller's explicit scale is applied to
    /// the destination's prior value.
    pub fn add_to_scaled_vec(&self, y: &VecLayout) -> (r: Result<GemvCall, ResolveError>)
        requires
            self.a.fits_i32(),
            self.x.fits_i32(),
            y.fits_i32(),
        ensures
            r == gemv_with_beta(spec_resolve_gemv(self.a, self.x, *y), BetaKind::Explicit),
    {
        match resolve_gemv(&self.a, &self.x, y) {
            Ok(p) => Ok(GemvCall { params: p, beta: BetaKind::Explicit }),
            Err(e) => Err(e),
        }
    }
}

/// One planned rank-1 update: the resolved parameter block, and whether the
/// destination must be zero-filled before the call — the rank-1 kernel only
/// accumulates, so the write-into mode clears the destination first.
#[derive(Clone, Copy, Debug, PartialEq, Eq, Structural)]
pub struct OuterCall {
    pub params: GerParams,
    pub zero_fill: bool,
}

/// The special rank-1 update variants: symmetric and hermitian updates use
/// their own kernel on one triangle; a triangular request falls back to the
/// general update.
#[derive(Clone, Copy, Debug, PartialEq, Eq, Structural)]
pub enum OuterSpecial {
    Symmetric(SyrParams),
    Hermitian(SyrParams),
    General(GerParams),
}

/// Planner for one outer product x * yᵗ, with the same output modes as the
/// multiply planners: produce fresh, write into, accumulate, and the special
/// one-triangle variants.
#[derive(Clone, Copy, Debug, PartialEq, Eq, Structural)]
pub struct OuterPlanner {
    pub x: VecLayout,
    pub y: VecLayout,
}

impl OuterPlanner {
    /// Starts a plan for A = x * yᵗ.
    pub fn new(x: VecLayout, y: VecLayout) -> (r: OuterPlanner)
        ensures
            r.x == x && r.y == y,
    {
        OuterPlanner { x, y }
    }

    /// Plan the produce-fresh mode: a dense zero-filled destination of
    /// shape (len of x, len of y) receives one accumulating update.
    pub fn eval(&self) -> (r: Result<OuterCall, ResolveError>)
        requires
            self.x.fits_i32(),
            self.y.fits_i32(),
        ensures
            r == match spec_resolve_ger(
                self.x,
                self.y,
                MatLayout::spec_dense(self.x.len, self.y.len),
            ) {
                Ok(p) => Ok::<OuterCall, ResolveError>(OuterCall { params: p, zero_fill: true }),
                Err(e) => Err(e),
            },
    {
        let a = MatLayout::dense(self.x.len, self.y.len);
        match resolve_ger(&self.x, &self.y, &a) {
            Ok(p) => Ok(OuterCall { params: p, zero_fill: true }),
            Err(e) => Err(e),
        }
    }

    /// Plan the write-into mode: the destination is zero-filled, then
    /// receives one accumulating update.
    pub fn write(&self, a: &MatLayout) -> (r: Result<OuterCall, ResolveError>)
        requires
            self.x.fits_i32(),
            self.y.fits_i32(),
            a.fits_i32(),
        ensures
            r == match spec_resolve_ger(self.x, self.y, *a) {
                Ok(p) => Ok::<OuterCall, ResolveError>(OuterCall { params: p, zero_fill: true }),
                Err(e) => Err(e),
            },
    {
        match resolve_ger(&self.x, &self.y, a) {
            Ok(p) => Ok(OuterCall { params: p, zero_fill: true }),
            Err(e) => Err(e),
        }
    }

    /// Plan the accumulation mode: the destination's prior value is kept
    /// and the update added onto it.
    pub fn add_to(&self, a: &MatLayout) -> (r: Result<OuterCall, ResolveError>)
        requires
            self.x.fits_i32(),
            self.y.fits_i32(),
            a.fits_i32(),
        ensures
            r == match spec_resolve_ger(self.x, self.y, *a) {
                Ok(p) => Ok::<OuterCall, ResolveError>(OuterCall { params: p, zero_fill: false }),
                Err(e) => Err(e),
            },
    {
        match resolve_ger(&self.x, &self.y, a) {
            Ok(p) => Ok(OuterCall { params: p, zero_fill: false }),
            Err(e) => Err(e),
        }
    }

    /// Plan the special accumulating variants on one triangle of a square
    /// destination: the symmetric and hermitian kernels assume y equals x;
    /// the triangular request uses the general update.
    pub fn add_to_special(&self, a: &MatLayout, ty: crate::matmul::MatrixType, uplo: Triangle) -> (r:
        Result<OuterSpecial, ResolveError>)
        requires
            self.x.fits_i32(),
            self.y.fits_i32(),
            a.fits_i32(),
        ensures
            r == match ty {
                crate::matmul::MatrixType::Sym => match spec_resolve_syr(self.x, *a, uplo) {
                    Ok(p) => Ok::<OuterSpecial, ResolveError>(OuterSpecial::Symmetric(p)),
                    Err(e) => Err(e),
                },
                crate::matmul::MatrixType::Her => match spec_resolve_syr(self.x, *a, uplo) {
                    Ok(p) => Ok::<OuterSpecial, ResolveError>(OuterSpecial::Hermitian(p)),
                    Err(e) => Err(e),
                },
                crate::matmul::MatrixType::Tri => match spec_resolve_ger(self.x, self.y, *a) {
                    Ok(p) => Ok::<OuterSpecial, ResolveError>(OuterSpecial::General(p)),
                    Err(e) => Err(e),
                },
            },
    {
        match ty {
            crate::matmul::MatrixType::Sym => match resolve_syr(&self.x, a, uplo) {
                Ok(p) => Ok(OuterSpecial::Symmetric(p)),
                Err(e) => Err(e),
            },
            crate::matmul::MatrixType::Her => match resolve_syr(&self.x, a, uplo) {
                Ok(p) => Ok(OuterSpecial::Hermitian(p)),
                Err(e) => Err(e),
            },
            crate::matmul::MatrixType::Tri => match resolve_ger(&self.x, &self.y, a) {
                Ok(p) => Ok(OuterSpecial::General(p)),
                Err(e) => Err(e),
            },
        }
    }
}

} // verus!
