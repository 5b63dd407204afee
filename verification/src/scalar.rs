//! The four numeric kinds a foreign kernel can be bound for, and the
//! per-kind calling conventions that the bindings must honour: which
//! general-multiply entry point serves the kind, whether scalars travel by
//! value or by pointer to a packed real/imaginary pair, and which style of
//! dot-product routine exists for it.

use vstd::prelude::*;

verus! {

/// Element kind of one foreign call: real or complex, single or double
/// precision.
#[derive(Clone, Copy, Debug, PartialEq, Eq, Structural)]
pub enum ScalarKind {
    RealSingle,
    RealDouble,
    ComplexSingle,
    ComplexDouble,
}

/// Whether the kind is complex-valued.
pub open spec fn spec_is_complex(kind: ScalarKind) -> bool {
    kind is ComplexSingle || kind is ComplexDouble
}

/// How a dot product is fetched from the foreign library: real kinds have a
/// routine that returns the value directly; complex kinds only have the
/// "sub"-style routine that writes the value through an output pointer.
#[derive(Clone, Copy, Debug, PartialEq, Eq, Structural)]
pub enum DotCallStyle {
    DirectReturn,
    SubPointer,
}

impl ScalarKind {
    /// Whether values of this kind are complex.
    pub fn is_complex(&self) -> (r: bool)
        ensures
            r == spec_is_complex(*self),
    {
        match self {
            ScalarKind::ComplexSingle => true,
            ScalarKind::ComplexDouble => true,
            _ => false,
        }
    }

    /// Whether the foreign convention passes scalar factors of this kind by
    /// pointer to a packed real/imaginary pair; real kinds pass them by
    /// value.
    pub fn passes_scalars_by_pointer(&self) -> (r: bool)
        ensures
            r == spec_is_complex(*self),
    {
        self.is_complex()
    }

    /// Selects the dot-product calling style for this kind, resolving at
    /// the kind tag what would otherwise be a runtime type test: complex
    /// kinds must use the pointer-output routine, real kinds the
    /// direct-return one.
    pub fn dot_call_style(&self) -> (r: DotCallStyle)
        ensures
            r is SubPointer <==> spec_is_complex(*self),
    {
        if self.is_complex() {
            DotCallStyle::SubPointer
        } else {
            DotCallStyle::DirectReturn
        }
    }
}

} // verus!
