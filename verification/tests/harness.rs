use mono_rt::harness::{
    arg, assert_eq_kind, assert_eq_str, assert_eq_usize, assert_true, dll_stem, require, stem_from_file_name, Harness,
};
use mono_rt::{MonoError, TypeKind};

#[test]
fn harness_counts_passes_and_failures() {
    let mut h = Harness::new();
    h.record(&Ok(()));
    h.record(&Err(MonoError::Uninitialized));
    h.record(&Ok(()));
    assert_eq!(h.passed(), 2);
    assert_eq!(h.failed(), 1);
    assert!(!h.finish());
}

#[test]
fn harness_finishes_clean_without_failures() {
    let mut h = Harness::default();
    assert!(Harness::new().finish());
    h.record(&Ok(()));
    assert!(h.finish());
}

#[test]
fn arg_reports_missing_arguments_by_name() {
    let args = vec!["runner".to_string(), "mono.dll".to_string()];
    assert_eq!(arg(&args, 1, "mono-dll").unwrap(), "mono.dll");
    assert_eq!(arg(&args, 2, "fixture-dll").unwrap_err(), "missing argument: fixture-dll");
}

#[test]
fn dll_stem_is_the_file_name() {
    assert_eq!(dll_stem("bin/mono-2.0-bdwgc.dll"), "mono-2.0-bdwgc.dll");
    assert_eq!(dll_stem("mono.dll"), "mono.dll");
    assert_eq!(dll_stem(""), "");
    assert_eq!(dll_stem("bin/.."), "");
}

#[test]
fn checks_fail_as_uninitialized() {
    assert_eq!(require(Some(3)).unwrap(), 3);
    assert!(matches!(require::<u8>(None), Err(MonoError::Uninitialized)));
    assert!(assert_true(true).is_ok());
    assert!(matches!(assert_true(false), Err(MonoError::Uninitialized)));
    assert!(assert_eq_kind(TypeKind::I4, TypeKind::I4).is_ok());
    assert!(matches!(
        assert_eq_kind(TypeKind::I4, TypeKind::R4),
        Err(MonoError::Uninitialized)
    ));
    assert!(assert_eq_str("Player", "Player").is_ok());
    assert!(matches!(assert_eq_str("Player", "player"), Err(MonoError::Uninitialized)));
    assert!(assert_eq_usize(4, 4).is_ok());
    assert!(matches!(assert_eq_usize(4, 5), Err(MonoError::Uninitialized)));
}

#[test]
fn stem_from_file_name_defaults_to_empty() {
    assert_eq!(stem_from_file_name(Some("mono.dll".to_string())), "mono.dll");
    assert_eq!(stem_from_file_name(None), "");
}
