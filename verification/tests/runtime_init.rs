use mono_rt::runtime::{first_missing_export, init, required_exports, ModuleLookup};
use mono_rt::MonoError;

fn all_found() -> Vec<usize> {
    (1..=required_exports().len()).collect()
}

#[test]
fn required_exports_are_listed_in_resolution_order() {
    let names = required_exports();
    assert_eq!(names.len(), 35);
    assert_eq!(names[0], "mono_get_root_domain");
    assert_eq!(names[1], "mono_thread_attach");
    assert_eq!(names[34], "mono_class_get_name");
}

#[test]
fn first_missing_export_finds_the_first_zero() {
    assert_eq!(first_missing_export(&vec![1, 2, 3]), None);
    assert_eq!(first_missing_export(&vec![1, 0, 0]), Some(1));
    assert_eq!(first_missing_export(&vec![0]), Some(0));
    assert_eq!(first_missing_export(&vec![]), None);
}

#[test]
fn init_names_the_first_missing_export() {
    let mut exports = all_found();
    exports[1] = 0;
    exports[5] = 0;
    let r = init("mono.dll", ModuleLookup::Loaded { exports, stored: false });
    assert!(matches!(r, Err(MonoError::FnNotFound("mono_thread_attach"))));
    let mut exports = all_found();
    exports[34] = 0;
    let r = init("mono.dll", ModuleLookup::Loaded { exports, stored: false });
    assert!(matches!(r, Err(MonoError::FnNotFound("mono_class_get_name"))));
}

#[test]
fn init_succeeds_only_when_the_bindings_were_stored() {
    let r = init("mono.dll", ModuleLookup::Loaded { exports: all_found(), stored: true });
    assert!(r.is_ok());
    let r = init("mono.dll", ModuleLookup::Loaded { exports: all_found(), stored: false });
    assert!(matches!(r, Err(MonoError::AlreadyInitialized)));
}

#[test]
fn init_binds_at_most_once_across_attempts() {
    // The process-wide slot stores the bindings only while it is empty.
    let mut bound = false;
    let mut successes = 0;
    let attempts: Vec<Option<Vec<usize>>> = vec![
        None,
        Some({
            let mut e = all_found();
            e[3] = 0;
            e
        }),
        Some(all_found()),
        Some(all_found()),
        None,
    ];
    for found in attempts {
        let lookup = match found {
            None => ModuleLookup::NotLoaded,
            Some(exports) => {
                let stored = first_missing_export(&exports).is_none() && !bound;
                ModuleLookup::Loaded { exports, stored }
            }
        };
        let stored = matches!(lookup, ModuleLookup::Loaded { stored: true, .. });
        let r = init("mono.dll", lookup);
        if r.is_ok() {
            successes += 1;
        }
        bound = bound || stored;
        if bound && !stored {
            assert!(!r.is_ok());
        }
    }
    assert_eq!(successes, 1);
    assert!(bound);
}
