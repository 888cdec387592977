use mono_rt::runtime::{init, required_exports, ModuleLookup};
use mono_rt::MonoError;

#[test]
fn init_with_nonexistent_dll_returns_dll_not_found() {
    let result = init("this_dll_definitely_does_not_exist_12345.dll", ModuleLookup::NotLoaded);
    assert!(matches!(result, Err(MonoError::DllNotFound(_))));
}

#[test]
fn dll_not_found_error_preserves_module_name() {
    let module_name = "no_such_module_xyz_abc.dll";
    match init(module_name, ModuleLookup::NotLoaded) {
        Err(MonoError::DllNotFound(name)) => assert_eq!(name, module_name),
        other => panic!("expected DllNotFound, got {other:?}"),
    }
}

#[test]
fn repeated_failed_inits_do_not_produce_already_initialized() {
    // AlreadyInitialized is only returned when the bindings could not be stored because an
    // earlier init stored them. Failed lookups store nothing, so both are DllNotFound.
    let r1 = init("fake_dll_first.dll", ModuleLookup::NotLoaded);
    let r2 = init("fake_dll_second.dll", ModuleLookup::NotLoaded);
    assert!(matches!(r1, Err(MonoError::DllNotFound(_))));
    assert!(matches!(r2, Err(MonoError::DllNotFound(_))));
}
