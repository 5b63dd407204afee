//! Run-time injection of foreign kernel entry points: a write-once registry
//! of function pointers supplied by a host process, keyed by the kernel's
//! conventional lowercase name with a trailing underscore, with one integer
//! width (32-bit or 64-bit) recorded uniformly for the whole backend.
//!
//! The registry is a plain value here, generic over an opaque pointer type,
//! so its whole life cycle — empty, then finalized at most once, rejecting
//! unknown names all-or-nothing — is verified; a host embeds it in its own
//! once-initialized cell to share it between threads.

use vstd::prelude::*;
use vstd::string::StringExecFns;

use crate::scalar::ScalarKind;

verus! {

/// The closed vocabulary of injectable kernels: the general multiply for
/// each of the four scalar kinds.
#[derive(Clone, Copy, Debug, PartialEq, Eq, Structural)]
pub enum GemmKernel {
    Dgemm,
    Zgemm,
    Sgemm,
    Cgemm,
}

/// The registration key of each injectable kernel, by scalar kind.
pub fn gemm_kernel_for(kind: ScalarKind) -> (r: GemmKernel)
    ensures
        r == spec_gemm_kernel_for(kind),
{
    match kind {
        ScalarKind::RealSingle => GemmKernel::Sgemm,
        ScalarKind::RealDouble => GemmKernel::Dgemm,
        ScalarKind::ComplexSingle => GemmKernel::Cgemm,
        ScalarKind::ComplexDouble => GemmKernel::Zgemm,
    }
}

/// Which injectable kernel serves each scalar kind.
pub open spec fn spec_gemm_kernel_for(kind: ScalarKind) -> GemmKernel {
    match kind {
        ScalarKind::RealSingle => GemmKernel::Sgemm,
        ScalarKind::RealDouble => GemmKernel::Dgemm,
        ScalarKind::ComplexSingle => GemmKernel::Cgemm,
        ScalarKind::ComplexDouble => GemmKernel::Zgemm,
    }
}

/// The kernel a registration key names, if the key belongs to the closed
/// vocabulary.
pub open spec fn spec_classify(name: Seq<char>) -> Option<GemmKernel> {
    if name == "dgemm_"@ {
        Some(GemmKernel::Dgemm)
    } else if name == "zgemm_"@ {
        Some(GemmKernel::Zgemm)
    } else if name == "sgemm_"@ {
        Some(GemmKernel::Sgemm)
    } else if name == "cgemm_"@ {
        Some(GemmKernel::Cgemm)
    } else {
        None
    }
}

/// A registration key belongs to the closed vocabulary.
pub open spec fn is_known_name(name: Seq<char>) -> bool {
    spec_classify(name) is Some
}

/// Classifies a registration key against the closed vocabulary.
pub fn classify_name(name: &String) -> (r: Option<GemmKernel>)
    ensures
        r == spec_classify(name@),
{
    if *name == String::from_str("dgemm_") {
        Some(GemmKernel::Dgemm)
    } else if *name == String::from_str("zgemm_") {
        Some(GemmKernel::Zgemm)
    } else if *name == String::from_str("sgemm_") {
        Some(GemmKernel::Sgemm)
    } else if *name == String::from_str("cgemm_") {
        Some(GemmKernel::Cgemm)
    } else {
        None
    }
}

/// The registration keys accepted by a backend registration, in the order
/// they are conventionally listed.
pub fn supported_functions() -> (r: Vec<String>)
    ensures
        r@.len() == 4,
        r@[0]@ == "dgemm_"@,
        r@[1]@ == "zgemm_"@,
        r@[2]@ == "sgemm_"@,
        r@[3]@ == "cgemm_"@,
        forall|i: int| 0 <= i < 4 ==> is_known_name(#[trigger] r@[i]@),
{
    let mut v: Vec<String> = Vec::new();
    v.push(String::from_str("dgemm_"));
    v.push(String::from_str("zgemm_"));
    v.push(String::from_str("sgemm_"));
    v.push(String::from_str("cgemm_"));
    v
}

/// Marker for the injected BLAS backend, the counterpart of the statically
/// linked marker.
#[derive(Default, Clone, Copy)]
pub struct InjectedBlas;

/// Error type for backend registration.
#[derive(Debug, Clone, PartialEq, Eq)]
pub enum RegistrationError {
    /// A backend was already registered; the first registration wins.
    AlreadyRegistered,
    /// A registration key outside the closed vocabulary; nothing was
    /// registered.
    UnknownFunction(String),
}

impl RegistrationError {
    /// Human-readable description of the error.
    pub fn message(&self) -> (r: String)
        ensures
            *self is AlreadyRegistered ==> r@ == "BLAS backend already registered"@,
            forall|name: String|
                *self == RegistrationError::UnknownFunction(name) ==> r@ == "Unknown BLAS function: "@
                    + name@,
    {
        match self {
            RegistrationError::AlreadyRegistered => String::from_str(
                "BLAS backend already registered",
            ),
            RegistrationError::UnknownFunction(name) => String::from_str(
                "Unknown BLAS function: ",
            ).concat(name.as_str()),
        }
    }
}

/// Finalized backend: one optional entry point per kernel and integer
/// width, plus the width the whole backend was registered with.  Entries of
/// the width that was not registered stay empty.
#[derive(Clone, Copy, Debug)]
pub struct InjectedBackend<P> {
    pub dgemm_lp64: Option<P>,
    pub zgemm_lp64: Option<P>,
    pub sgemm_lp64: Option<P>,
    pub cgemm_lp64: Option<P>,
    pub dgemm_ilp64: Option<P>,
    pub zgemm_ilp64: Option<P>,
    pub sgemm_ilp64: Option<P>,
    pub cgemm_ilp64: Option<P>,
    /// True if this backend takes 64-bit integer arguments.
    pub is_ilp64: bool,
}

/// A backend with no entry points of the given width.
pub open spec fn spec_empty_backend<P>(is_ilp64: bool) -> InjectedBackend<P> {
    InjectedBackend {
        dgemm_lp64: None,
        zgemm_lp64: None,
        sgemm_lp64: None,
        cgemm_lp64: None,
        dgemm_ilp64: None,
        zgemm_ilp64: None,
        sgemm_ilp64: None,
        cgemm_ilp64: None,
        is_ilp64,
    }
}

impl<P> InjectedBackend<P> {
    /// Builds a backend with no entry points.
    pub fn empty(is_ilp64: bool) -> (r: Self)
        ensures
            r == spec_empty_backend::<P>(is_ilp64),
    {
        InjectedBackend {
            dgemm_lp64: None,
            zgemm_lp64: None,
            sgemm_lp64: None,
            cgemm_lp64: None,
            dgemm_ilp64: None,
            zgemm_ilp64: None,
            sgemm_ilp64: None,
            cgemm_ilp64: None,
            is_ilp64,
        }
    }
}

/// The backend after one kernel's pointer is recorded, in the entry slot of
/// the backend's own integer width.
pub open spec fn spec_set_kernel<P>(b: InjectedBackend<P>, k: GemmKernel, p: P) -> InjectedBackend<
    P,
> {
    if b.is_ilp64 {
        match k {
            GemmKernel::Dgemm => InjectedBackend { dgemm_ilp64: Some(p), ..b },
            GemmKernel::Zgemm => InjectedBackend { zgemm_ilp64: Some(p), ..b },
            GemmKernel::Sgemm => InjectedBackend { sgemm_ilp64: Some(p), ..b },
            GemmKernel::Cgemm => InjectedBackend { cgemm_ilp64: Some(p), ..b },
        }
    } else {
        match k {
            GemmKernel::Dgemm => InjectedBackend { dgemm_lp64: Some(p), ..b },
            GemmKernel::Zgemm => InjectedBackend { zgemm_lp64: Some(p), ..b },
            GemmKernel::Sgemm => InjectedBackend { sgemm_lp64: Some(p), ..b },
            GemmKernel::Cgemm => InjectedBackend { cgemm_lp64: Some(p), ..b },
        }
    }
}

/// The backend after one registration entry is applied: a known name
/// records its pointer, an unknown one changes nothing (registration fails
/// before such a backend is ever installed).
pub open spec fn spec_apply_entry<P>(b: InjectedBackend<P>, e: (String, P)) -> InjectedBackend<P> {
    match spec_classify(e.0@) {
        Some(k) => spec_set_kernel(b, k, e.1),
        None => b,
    }
}

/// The backend built by applying a batch of registration entries in order;
/// a name listed twice keeps its later pointer.
pub open spec fn spec_apply_entries<P>(
    b: InjectedBackend<P>,
    entries: Seq<(String, P)>,
) -> InjectedBackend<P>
    decreases entries.len(),
{
    if entries.len() == 0 {
        b
    } else {
        spec_apply_entries(spec_apply_entry(b, entries[0]), entries.skip(1))
    }
}

/// The first registration key of a batch that lies outside the closed
/// vocabulary, if any.
pub open spec fn spec_first_unknown<P>(entries: Seq<(String, P)>) -> Option<String>
    decreases entries.len(),
{
    if entries.len() == 0 {
        None
    } else if spec_classify(entries[0].0@) is None {
        Some(entries[0].0)
    } else {
        spec_first_unknown(entries.skip(1))
    }
}

/// What one registration attempt returns: the first unknown name is
/// reported if there is one; otherwise a second registration is rejected;
/// otherwise the attempt succeeds.
pub open spec fn spec_register_outcome<P>(
    m: Option<InjectedBackend<P>>,
    entries: Seq<(String, P)>,
    is_ilp64: bool,
) -> Result<(), RegistrationError> {
    match spec_first_unknown(entries) {
        Some(name) => Err(RegistrationError::UnknownFunction(name)),
        None => if m is Some {
            Err(RegistrationError::AlreadyRegistered)
        } else {
            Ok(())
        },
    }
}

/// The registry contents after one registration attempt: only a successful
/// attempt installs anything, and it installs the whole batch at once; a
/// failed attempt leaves the registry exactly as it was.
pub open spec fn spec_register_next<P>(
    m: Option<InjectedBackend<P>>,
    entries: Seq<(String, P)>,
    is_ilp64: bool,
) -> Option<InjectedBackend<P>> {
    if spec_register_outcome(m, entries, is_ilp64) is Ok {
        Some(spec_apply_entries(spec_empty_backend(is_ilp64), entries))
    } else {
        m
    }
}

/// Report of which kernels a registered backend actually supplies, and with
/// which integer width.
#[derive(Debug, Clone, Copy, Default, PartialEq, Eq, Structural)]
pub struct AvailableFunctions {
    pub dgemm: bool,
    pub zgemm: bool,
    pub sgemm: bool,
    pub cgemm: bool,
    pub is_ilp64: bool,
}

/// The availability report of a registry: nothing before registration;
/// afterwards, one flag per kernel of the registered width.
pub open spec fn spec_available<P>(m: Option<InjectedBackend<P>>) -> Option<AvailableFunctions> {
    match m {
        None => None,
        Some(b) => Some(
            if b.is_ilp64 {
                AvailableFunctions {
                    dgemm: b.dgemm_ilp64 is Some,
                    zgemm: b.zgemm_ilp64 is Some,
                    sgemm: b.sgemm_ilp64 is Some,
                    cgemm: b.cgemm_ilp64 is Some,
                    is_ilp64: true,
                }
            } else {
                AvailableFunctions {
                    dgemm: b.dgemm_lp64 is Some,
                    zgemm: b.zgemm_lp64 is Some,
                    sgemm: b.sgemm_lp64 is Some,
                    cgemm: b.cgemm_lp64 is Some,
                    is_ilp64: false,
                }
            },
        ),
    }
}

/// The entry point a registered backend supplies for one kernel, in the
/// slot of its own integer width.
pub open spec fn spec_lookup_gemm<P>(b: InjectedBackend<P>, k: GemmKernel) -> Option<P> {
    if b.is_ilp64 {
        match k {
            GemmKernel::Dgemm => b.dgemm_ilp64,
            GemmKernel::Zgemm => b.zgemm_ilp64,
            GemmKernel::Sgemm => b.sgemm_ilp64,
            GemmKernel::Cgemm => b.cgemm_ilp64,
        }
    } else {
        match k {
            GemmKernel::Dgemm => b.dgemm_lp64,
            GemmKernel::Zgemm => b.zgemm_lp64,
            GemmKernel::Sgemm => b.sgemm_lp64,
            GemmKernel::Cgemm => b.cgemm_lp64,
        }
    }
}

/// Write-once table of injected entry points.  It starts empty, is
/// finalized by the first successful `register_backend`, and never changes
/// afterwards: later attempts are rejected whole.
pub struct BackendRegistry<P> {
    backend: Option<InjectedBackend<P>>,
}

impl<P> BackendRegistry<P> {
    /// The registry's contents: the finalized backend, if one was
    /// registered.
    pub closed spec fn model(self) -> Option<InjectedBackend<P>> {
        self.backend
    }

    /// A backend has been registered.
    pub open spec fn registered(self) -> bool {
        self.model() is Some
    }

    /// A fresh, empty registry.
    pub fn new() -> (r: Self)
        ensures
            r.model() is None,
    {
        BackendRegistry { backend: None }
    }

    /// Whether a backend is registered.
    pub fn is_backend_registered(&self) -> (r: bool)
        ensures
            r == self.registered(),
    {
        self.backend.is_some()
    }

    /// The registered backend, if any.
    pub fn get_backend(&self) -> (r: Option<&InjectedBackend<P>>)
        ensures
            match r {
                Some(b) => self.model() == Some(*b),
                None => self.model() is None,
            },
    {
        self.backend.as_ref()
    }

    /// Status of the injectable kernels: nothing before registration;
    /// afterwards, which kernels the backend supplies and its integer
    /// width.
    pub fn available_functions(&self) -> (r: Option<AvailableFunctions>)
        ensures
            r == spec_available(self.model()),
    {
        match &self.backend {
            None => None,
            Some(b) => Some(
                if b.is_ilp64 {
                    AvailableFunctions {
                        dgemm: b.dgemm_ilp64.is_some(),
                        zgemm: b.zgemm_ilp64.is_some(),
                        sgemm: b.sgemm_ilp64.is_some(),
                        cgemm: b.cgemm_ilp64.is_some(),
                        is_ilp64: true,
                    }
                } else {
                    AvailableFunctions {
                        dgemm: b.dgemm_lp64.is_some(),
                        zgemm: b.zgemm_lp64.is_some(),
                        sgemm: b.sgemm_lp64.is_some(),
                        cgemm: b.cgemm_lp64.is_some(),
                        is_ilp64: false,
                    }
                },
            ),
        }
    }
}

impl<P: Copy> BackendRegistry<P> {
    /// Registers a batch of foreign entry points under their conventional
    /// names, with one integer width for the whole batch.  The first
    /// successful call finalizes the registry; every later call fails with
    /// `AlreadyRegistered`.  A name outside the closed vocabulary fails the
    /// whole call with `UnknownFunction` and registers nothing.
    pub fn register_backend(&mut self, functions: Vec<(String, P)>, is_ilp64: bool) -> (r: Result<
        (),
        RegistrationError,
    >)
        ensures
            r == spec_register_outcome(old(self).model(), functions@, is_ilp64),
            final(self).model() == spec_register_next(old(self).model(), functions@, is_ilp64),
    {
        let mut backend = InjectedBackend::<P>::empty(is_ilp64);
        let n = functions.len();
        let mut idx: usize = 0;
        proof {
            assert(functions@.skip(0) =~= functions@);
        }
        while idx < n
            invariant
                idx <= n,
                n == functions@.len(),
                spec_first_unknown(functions@.skip(idx as int)) == spec_first_unknown(functions@),
                spec_apply_entries(backend, functions@.skip(idx as int)) == spec_apply_entries(
                    spec_empty_backend::<P>(is_ilp64),
                    functions@,
                ),
                *self == *old(self),
            decreases n - idx,
        {
            let entry = &functions[idx];
            proof {
                assert(functions@.skip(idx as int)[0] == functions@[idx as int]);
                assert(functions@.skip(idx as int).skip(1) =~= functions@.skip(idx as int + 1));
            }
            match classify_name(&entry.0) {
                Some(k) => {
                    backend = set_kernel(backend, k, entry.1);
                },
                None => {
                    return Err(RegistrationError::UnknownFunction(entry.0.clone()));
                },
            }
            idx = idx + 1;
        }
        proof {
            assert(functions@.skip(n as int) =~= Seq::<(String, P)>::empty());
        }
        if self.backend.is_some() {
            return Err(RegistrationError::AlreadyRegistered);
        }
        self.backend = Some(backend);
        Ok(())
    }

    /// The entry point registered for one kernel, in the backend's own
    /// integer width; nothing before registration.
    pub fn lookup_gemm(&self, k: GemmKernel) -> (r: Option<P>)
        ensures
            r == match self.model() {
                Some(b) => spec_lookup_gemm(b, k),
                None => None::<P>,
            },
    {
        match &self.backend {
            None => None,
            Some(b) => if b.is_ilp64 {
                match k {
                    GemmKernel::Dgemm => b.dgemm_ilp64,
                    GemmKernel::Zgemm => b.zgemm_ilp64,
                    GemmKernel::Sgemm => b.sgemm_ilp64,
                    GemmKernel::Cgemm => b.cgemm_ilp64,
                }
            } else {
                match k {
                    GemmKernel::Dgemm => b.dgemm_lp64,
                    GemmKernel::Zgemm => b.zgemm_lp64,
                    GemmKernel::Sgemm => b.sgemm_lp64,
                    GemmKernel::Cgemm => b.cgemm_lp64,
                }
            },
        }
    }
}

/// Records one kernel pointer in a backend under construction.
fn set_kernel<P>(b: InjectedBackend<P>, k: GemmKernel, p: P) -> (r: InjectedBackend<P>)
    ensures
        r == spec_set_kernel(b, k, p),
{
    let mut r = b;
    if r.is_ilp64 {
        match k {
            GemmKernel::Dgemm => r.dgemm_ilp64 = Some(p),
            GemmKernel::Zgemm => r.zgemm_ilp64 = Some(p),
            GemmKernel::Sgemm => r.sgemm_ilp64 = Some(p),
            GemmKernel::Cgemm => r.cgemm_ilp64 = Some(p),
        }
    } else {
        match k {
            GemmKernel::Dgemm => r.dgemm_lp64 = Some(p),
            GemmKernel::Zgemm => r.zgemm_lp64 = Some(p),
            GemmKernel::Sgemm => r.sgemm_lp64 = Some(p),
            GemmKernel::Cgemm => r.cgemm_lp64 = Some(p),
        }
    }
    r
}

/// On a fresh registry, a registration whose names all belong to the closed
/// vocabulary succeeds and installs the whole batch.
pub proof fn lemma_fresh_registration_succeeds<P>(entries: Seq<(String, P)>, is_ilp64: bool)
    requires
        spec_first_unknown(entries) is None,
    ensures
        spec_register_outcome(None::<InjectedBackend<P>>, entries, is_ilp64) == Ok::<
            (),
            RegistrationError,
        >(()),
        spec_register_next(None::<InjectedBackend<P>>, entries, is_ilp64) == Some(
            spec_apply_entries(spec_empty_backend::<P>(is_ilp64), entries),
        ),
{
}

/// Registration is write-once: once an attempt has succeeded, any later
/// attempt leaves the registry untouched and fails — with
/// `AlreadyRegistered` when its names are all valid, and with the first
/// unknown name when they are not (the key check comes first) — and the
/// availability report keeps describing the first attempt's contents.
pub proof fn lemma_registration_write_once<P>(
    m: Option<InjectedBackend<P>>,
    e1: Seq<(String, P)>,
    w1: bool,
    e2: Seq<(String, P)>,
    w2: bool,
)
    requires
        spec_register_outcome(m, e1, w1) is Ok,
    ensures
        spec_register_next(spec_register_next(m, e1, w1), e2, w2) == spec_register_next(m, e1, w1),
        spec_first_unknown(e2) is None ==> spec_register_outcome(
            spec_register_next(m, e1, w1),
            e2,
            w2,
        ) == Err::<(), RegistrationError>(RegistrationError::AlreadyRegistered),
        forall|name: String|
            spec_first_unknown(e2) == Some(name) ==> spec_register_outcome(
                spec_register_next(m, e1, w1),
                e2,
                w2,
            ) == Err::<(), RegistrationError>(RegistrationError::UnknownFunction(name)),
        spec_available(spec_register_next(spec_register_next(m, e1, w1), e2, w2))
            == spec_available(spec_register_next(m, e1, w1)),
{
}

/// A batch naming an unknown kernel registers nothing: the call reports the
/// first unknown name, and the registry — in particular whether it is
/// registered at all — is left exactly as it was.
pub proof fn lemma_unknown_function_rejected<P>(
    m: Option<InjectedBackend<P>>,
    entries: Seq<(String, P)>,
    is_ilp64: bool,
    name: String,
)
    requires
        spec_first_unknown(entries) == Some(name),
    ensures
        spec_register_outcome(m, entries, is_ilp64) == Err::<(), RegistrationError>(
            RegistrationError::UnknownFunction(name),
        ),
        spec_register_next(m, entries, is_ilp64) == m,
{
}

} // verus!
