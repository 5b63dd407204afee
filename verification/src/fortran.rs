//! Conversion of a resolved general-multiply plan to the Fortran-style
//! calling convention used by injected backends: such a backend is always
//! column-major and takes its transpose flags as characters, so a row-major
//! plan is realized by swapping the operands and exchanging their flags —
//! the identity (A·B)ᵗ = Bᵗ·Aᵗ — rather than by passing a layout flag.
//! Dimensions and leading dimensions are marshalled as 32-bit or 64-bit
//! integers according to the backend's registered width.

use vstd::prelude::*;

use crate::layout::{read_offset, MatLayout, Order, ResolveError, Transpose};
use crate::matmul::{
    lemma_gemm_params_address_views, resolve_gemm, resolve_gemm_fresh, spec_resolve_gemm,
    GemmParams,
};

verus! {

/// ASCII code of the transpose character a Fortran-style routine expects:
/// 'N' for no transpose, 'T' for transpose, 'C' for conjugate transpose.
pub open spec fn spec_trans_char(t: Transpose) -> u8 {
    match t {
        Transpose::NoTrans => 78,
        Transpose::Trans => 84,
        Transpose::ConjTrans => 67,
    }
}

/// Converts a transpose flag to its Fortran character code.
pub fn trans_char(t: Transpose) -> (r: u8)
    ensures
        r == spec_trans_char(t),
{
    match t {
        Transpose::NoTrans => 78,
        Transpose::Trans => 84,
        Transpose::ConjTrans => 67,
    }
}

/// Parameter block of one Fortran-style general-multiply call, minus
/// pointers and scalars.  `swapped` records whether the operand pointers
/// must be exchanged: when set, the caller passes B's pointer with `transa`
/// and `lda`, and A's pointer with `transb` and `ldb`.
#[derive(Clone, Copy, Debug, PartialEq, Eq, Structural)]
pub struct FortranGemmParams {
    pub transa: u8,
    pub transb: u8,
    pub m: i32,
    pub n: i32,
    pub k: i32,
    pub lda: i32,
    pub ldb: i32,
    pub ldc: i32,
    pub swapped: bool,
}

/// The Fortran-style realization of a resolved plan: a column-major plan
/// passes through unchanged; a row-major plan swaps the operands, exchanges
/// their transpose characters and leading dimensions, and transposes the
/// result's dimensions, so that the column-major routine computes the
/// transposed product in place of the row-major one without any data copy.
pub open spec fn spec_fortran_from_cblas(p: GemmParams) -> FortranGemmParams {
    match p.order {
        Order::RowMajor => FortranGemmParams {
            transa: spec_trans_char(p.transb),
            transb: spec_trans_char(p.transa),
            m: p.n,
            n: p.m,
            k: p.k,
            lda: p.ldb,
            ldb: p.lda,
            ldc: p.ldc,
            swapped: true,
        },
        Order::ColMajor => FortranGemmParams {
            transa: spec_trans_char(p.transa),
            transb: spec_trans_char(p.transb),
            m: p.m,
            n: p.n,
            k: p.k,
            lda: p.lda,
            ldb: p.ldb,
            ldc: p.ldc,
            swapped: false,
        },
    }
}

/// Converts a resolved plan to the Fortran-style calling convention.
pub fn fortran_from_cblas(p: &GemmParams) -> (r: FortranGemmParams)
    ensures
        r == spec_fortran_from_cblas(*p),
{
    match p.order {
        Order::RowMajor => FortranGemmParams {
            transa: trans_char(p.transb),
            transb: trans_char(p.transa),
            m: p.n,
            n: p.m,
            k: p.k,
            lda: p.ldb,
            ldb: p.lda,
            ldc: p.ldc,
            swapped: true,
        },
        Order::ColMajor => FortranGemmParams {
            transa: trans_char(p.transa),
            transb: trans_char(p.transb),
            m: p.m,
            n: p.n,
            k: p.k,
            lda: p.lda,
            ldb: p.ldb,
            ldc: p.ldc,
            swapped: false,
        },
    }
}

/// Resolves a general multiply directly to the Fortran-style convention of
/// an injected backend.
pub fn resolve_injected_gemm(a: &MatLayout, b: &MatLayout, c: &MatLayout) -> (r: Result<
    FortranGemmParams,
    ResolveError,
>)
    requires
        a.fits_i32(),
        b.fits_i32(),
        c.fits_i32(),
    ensures
        r == match spec_resolve_gemm(*a, *b, *c) {
            Ok(p) => Ok::<FortranGemmParams, ResolveError>(spec_fortran_from_cblas(p)),
            Err(e) => Err(e),
        },
{
    match resolve_gemm(a, b, c) {
        Ok(p) => Ok(fortran_from_cblas(&p)),
        Err(e) => Err(e),
    }
}

/// Resolves a general multiply with a fresh dense destination directly to
/// the Fortran-style convention of an injected backend.
pub fn resolve_injected_gemm_fresh(a: &MatLayout, b: &MatLayout) -> (r: Result<
    FortranGemmParams,
    ResolveError,
>)
    requires
        a.fits_i32(),
        b.fits_i32(),
    ensures
        r == match spec_resolve_gemm(*a, *b, MatLayout::spec_dense(a.rows, b.cols)) {
            Ok(p) => Ok::<FortranGemmParams, ResolveError>(spec_fortran_from_cblas(p)),
            Err(e) => Err(e),
        },
{
    match resolve_gemm_fresh(a, b) {
        Ok(p) => Ok(fortran_from_cblas(&p)),
        Err(e) => Err(e),
    }
}

/// Parameter block of a Fortran-style call for a 64-bit-integer backend.
#[derive(Clone, Copy, Debug, PartialEq, Eq, Structural)]
pub struct FortranGemmParamsWide {
    pub transa: u8,
    pub transb: u8,
    pub m: i64,
    pub n: i64,
    pub k: i64,
    pub lda: i64,
    pub ldb: i64,
    pub ldc: i64,
    pub swapped: bool,
}

/// Widens a Fortran-style parameter block to the 64-bit integer width,
/// value for value.
pub fn widen_params(f: &FortranGemmParams) -> (r: FortranGemmParamsWide)
    ensures
        r.transa == f.transa && r.transb == f.transb && r.swapped == f.swapped,
        r.m == f.m as int && r.n == f.n as int && r.k == f.k as int,
        r.lda == f.lda as int && r.ldb == f.ldb as int && r.ldc == f.ldc as int,
{
    FortranGemmParamsWide {
        transa: f.transa,
        transb: f.transb,
        m: f.m as i64,
        n: f.n as i64,
        k: f.k as i64,
        lda: f.lda as i64,
        ldb: f.ldb as i64,
        ldc: f.ldc as i64,
        swapped: f.swapped,
    }
}

/// Offset at which a Fortran-style (column-major) routine, told transpose
/// character `tc` and leading dimension `ld`, reads logical element (i, j)
/// of an operand.
pub open spec fn fortran_read_offset(tc: u8, ld: int, i: int, j: int) -> int {
    if tc == 78 {
        i + j * ld
    } else {
        j + i * ld
    }
}

/// Correctness of the swap-and-transpose emulation: under a swapped call,
/// the column-major routine reads logical element (i, j) of its first
/// operand at B's own offset for (j, i) and of its second operand at A's
/// offset for (j, i), and writes its result cell (i, j) at the caller's
/// destination offset for (j, i) — it computes exactly the transposed
/// product Cᵗ = Bᵗ·Aᵗ over the caller's own cells.  An unswapped call
/// addresses all three views identically to the resolved plan.
pub proof fn lemma_injected_call_addresses_views(
    a: MatLayout,
    b: MatLayout,
    c: MatLayout,
    p: GemmParams,
    f: FortranGemmParams,
)
    requires
        a.fits_i32(),
        b.fits_i32(),
        c.fits_i32(),
        spec_resolve_gemm(a, b, c) == Ok::<GemmParams, ResolveError>(p),
        f == spec_fortran_from_cblas(p),
    ensures
        f.swapped ==> f.m == b.cols && f.n == a.rows,
        f.swapped ==> forall|i: int, j: int|
            #[trigger] fortran_read_offset(f.transa, f.lda as int, i, j) == b.offset(j, i),
        f.swapped ==> forall|i: int, j: int|
            #[trigger] fortran_read_offset(f.transb, f.ldb as int, i, j) == a.offset(j, i),
        f.swapped ==> forall|i: int, j: int|
            #![trigger c.offset(j, i)]
            i + j * (f.ldc as int) == c.offset(j, i),
        !f.swapped ==> f.m == a.rows && f.n == b.cols,
        !f.swapped ==> forall|i: int, j: int|
            #[trigger] fortran_read_offset(f.transa, f.lda as int, i, j) == a.offset(i, j),
        !f.swapped ==> forall|i: int, j: int|
            #[trigger] fortran_read_offset(f.transb, f.ldb as int, i, j) == b.offset(i, j),
        !f.swapped ==> forall|i: int, j: int|
            #![trigger c.offset(i, j)]
            i + j * (f.ldc as int) == c.offset(i, j),
{
    lemma_gemm_params_address_views(a, b, c, p);
    if f.swapped {
        assert forall|i: int, j: int|
            #[trigger] fortran_read_offset(f.transa, f.lda as int, i, j) == b.offset(j, i) by {
            assert(read_offset(p.order, p.transb, p.ldb as int, j, i) == b.offset(j, i));
        }
        assert forall|i: int, j: int|
            #[trigger] fortran_read_offset(f.transb, f.ldb as int, i, j) == a.offset(j, i) by {
            assert(read_offset(p.order, p.transa, p.lda as int, j, i) == a.offset(j, i));
        }
        assert forall|i: int, j: int| #![trigger c.offset(j, i)] i + j * (f.ldc as int)
            == c.offset(j, i) by {
            assert(read_offset(p.order, Transpose::NoTrans, p.ldc as int, j, i) == c.offset(j, i));
        }
    } else {
        assert forall|i: int, j: int|
            #[trigger] fortran_read_offset(f.transa, f.lda as int, i, j) == a.offset(i, j) by {
            assert(read_offset(p.order, p.transa, p.lda as int, i, j) == a.offset(i, j));
        }
        assert forall|i: int, j: int|
            #[trigger] fortran_read_offset(f.transb, f.ldb as int, i, j) == b.offset(i, j) by {
            assert(read_offset(p.order, p.transb, p.ldb as int, i, j) == b.offset(i, j));
        }
        assert forall|i: int, j: int| #![trigger c.offset(i, j)] i + j * (f.ldc as int)
            == c.offset(i, j) by {
            assert(read_offset(p.order, Transpose::NoTrans, p.ldc as int, i, j) == c.offset(i, j));
        }
    }
}

} // verus!
