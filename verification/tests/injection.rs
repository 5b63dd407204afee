//! Tests for the backend-injection registry: the closed vocabulary, the
//! write-once life cycle, all-or-nothing rejection of unknown names, and the
//! availability report.

use blas_dispatch::injection::{
    classify_name, gemm_kernel_for, supported_functions, AvailableFunctions, BackendRegistry,
    GemmKernel, InjectedBlas, RegistrationError,
};
use blas_dispatch::scalar::ScalarKind;

fn contains(v: &[String], s: &str) -> bool {
    v.iter().any(|x| x == s)
}

#[test]
fn test_supported_functions_list() {
    let fns = supported_functions();
    assert!(contains(&fns, "dgemm_"));
    assert!(contains(&fns, "zgemm_"));
    assert!(contains(&fns, "sgemm_"));
    assert!(contains(&fns, "cgemm_"));
}

#[test]
fn test_available_functions_struct() {
    let af = AvailableFunctions {
        dgemm: true,
        zgemm: true,
        sgemm: false,
        cgemm: false,
        is_ilp64: false,
    };
    assert!(af.dgemm);
    assert!(af.zgemm);
    assert!(!af.sgemm);
    assert!(!af.is_ilp64);
}

#[test]
fn test_registration_error_display() {
    let err = RegistrationError::AlreadyRegistered;
    assert_eq!(err.message(), "BLAS backend already registered");

    let err = RegistrationError::UnknownFunction("foo_".to_string());
    assert_eq!(err.message(), "Unknown BLAS function: foo_");
}

#[test]
fn test_injected_blas_marker() {
    let _blas = InjectedBlas::default();
    let blas1 = InjectedBlas;
    let _blas2 = blas1; // Copy
}

#[test]
fn test_api_surface() {
    let registry: BackendRegistry<usize> = BackendRegistry::new();
    let _: bool = registry.is_backend_registered();

    if !registry.is_backend_registered() {
        assert!(registry.available_functions().is_none());
    }
}

#[test]
fn test_supported_functions() {
    let fns = supported_functions();
    assert!(contains(&fns, "dgemm_"));
    assert!(contains(&fns, "zgemm_"));
    assert!(contains(&fns, "sgemm_"));
    assert!(contains(&fns, "cgemm_"));
}

#[test]
fn test_registration_error() {
    let err = RegistrationError::AlreadyRegistered;
    assert_eq!(err.message(), "BLAS backend already registered");

    let err = RegistrationError::UnknownFunction("unknown_".to_string());
    assert!(err.message().contains("unknown_"));
}

#[test]
fn test_hashmap_api() {
    // The registration input is a plain list of (name, pointer value) pairs.
    let fns: Vec<(String, usize)> = Vec::new();
    let _ = fns;
}

#[test]
fn test_register_first_wins() {
    let mut registry: BackendRegistry<usize> = BackendRegistry::new();
    assert!(!registry.is_backend_registered());

    let first = vec![("dgemm_".to_string(), 11usize), ("zgemm_".to_string(), 22usize)];
    assert_eq!(registry.register_backend(first, false), Ok(()));
    assert!(registry.is_backend_registered());

    let report = registry.available_functions().unwrap();
    assert_eq!(
        report,
        AvailableFunctions { dgemm: true, zgemm: true, sgemm: false, cgemm: false, is_ilp64: false }
    );

    // Every later attempt fails, from whatever caller, and changes nothing.
    let second = vec![("sgemm_".to_string(), 33usize)];
    assert_eq!(
        registry.register_backend(second, true),
        Err(RegistrationError::AlreadyRegistered)
    );
    let after = registry.available_functions().unwrap();
    assert_eq!(after, report);
}

#[test]
fn test_register_unknown_function() {
    let mut registry: BackendRegistry<usize> = BackendRegistry::new();
    let bad = vec![("xyz_".to_string(), 7usize)];
    assert_eq!(
        registry.register_backend(bad, false),
        Err(RegistrationError::UnknownFunction("xyz_".to_string()))
    );
    assert!(!registry.is_backend_registered());
    assert!(registry.available_functions().is_none());
}

#[test]
fn test_register_unknown_is_all_or_nothing() {
    let mut registry: BackendRegistry<usize> = BackendRegistry::new();
    let batch = vec![
        ("dgemm_".to_string(), 1usize),
        ("quux_".to_string(), 2usize),
        ("sgemm_".to_string(), 3usize),
    ];
    assert_eq!(
        registry.register_backend(batch, false),
        Err(RegistrationError::UnknownFunction("quux_".to_string()))
    );
    // Nothing of the batch was kept, not even the valid prefix.
    assert!(!registry.is_backend_registered());
    assert!(registry.available_functions().is_none());

    // The registry still accepts a fully valid batch afterwards.
    let good = vec![("dgemm_".to_string(), 1usize)];
    assert_eq!(registry.register_backend(good, false), Ok(()));
    assert!(registry.is_backend_registered());
}

#[test]
fn test_register_wide_width() {
    let mut registry: BackendRegistry<usize> = BackendRegistry::new();
    let batch = vec![("cgemm_".to_string(), 5usize), ("sgemm_".to_string(), 6usize)];
    assert_eq!(registry.register_backend(batch, true), Ok(()));

    let report = registry.available_functions().unwrap();
    assert_eq!(
        report,
        AvailableFunctions { dgemm: false, zgemm: false, sgemm: true, cgemm: true, is_ilp64: true }
    );

    assert_eq!(registry.lookup_gemm(GemmKernel::Cgemm), Some(5));
    assert_eq!(registry.lookup_gemm(GemmKernel::Sgemm), Some(6));
    // A kernel absent from the registered backend has no entry point.
    assert_eq!(registry.lookup_gemm(GemmKernel::Dgemm), None);
}

#[test]
fn test_register_duplicate_name_keeps_later() {
    let mut registry: BackendRegistry<usize> = BackendRegistry::new();
    let batch = vec![("dgemm_".to_string(), 1usize), ("dgemm_".to_string(), 9usize)];
    assert_eq!(registry.register_backend(batch, false), Ok(()));
    assert_eq!(registry.lookup_gemm(GemmKernel::Dgemm), Some(9));
}

#[test]
fn test_register_empty_batch() {
    // An empty batch is valid: it finalizes the registry with no entry
    // points, and every kernel reports unavailable.
    let mut registry: BackendRegistry<usize> = BackendRegistry::new();
    assert_eq!(registry.register_backend(Vec::new(), false), Ok(()));
    assert!(registry.is_backend_registered());
    let report = registry.available_functions().unwrap();
    assert_eq!(
        report,
        AvailableFunctions {
            dgemm: false,
            zgemm: false,
            sgemm: false,
            cgemm: false,
            is_ilp64: false
        }
    );
    assert_eq!(registry.lookup_gemm(GemmKernel::Dgemm), None);
}

#[test]
fn test_classify_and_kernel_selection() {
    assert_eq!(classify_name(&"dgemm_".to_string()), Some(GemmKernel::Dgemm));
    assert_eq!(classify_name(&"zgemm_".to_string()), Some(GemmKernel::Zgemm));
    assert_eq!(classify_name(&"sgemm_".to_string()), Some(GemmKernel::Sgemm));
    assert_eq!(classify_name(&"cgemm_".to_string()), Some(GemmKernel::Cgemm));
    assert_eq!(classify_name(&"dgemm".to_string()), None);
    assert_eq!(classify_name(&"".to_string()), None);

    assert_eq!(gemm_kernel_for(ScalarKind::RealSingle), GemmKernel::Sgemm);
    assert_eq!(gemm_kernel_for(ScalarKind::RealDouble), GemmKernel::Dgemm);
    assert_eq!(gemm_kernel_for(ScalarKind::ComplexSingle), GemmKernel::Cgemm);
    assert_eq!(gemm_kernel_for(ScalarKind::ComplexDouble), GemmKernel::Zgemm);
}

#[test]
fn test_get_backend_exposes_entries() {
    let mut registry: BackendRegistry<usize> = BackendRegistry::new();
    assert!(registry.get_backend().is_none());

    let batch = vec![("zgemm_".to_string(), 4usize)];
    assert_eq!(registry.register_backend(batch, false), Ok(()));

    let backend = registry.get_backend().unwrap();
    assert!(!backend.is_ilp64);
    assert_eq!(backend.zgemm_lp64, Some(4));
    assert_eq!(backend.zgemm_ilp64, None);
    assert_eq!(backend.dgemm_lp64, None);
}
