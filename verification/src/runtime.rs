//! Binding the runtime: the exports the library needs from the loaded Mono module, and the
//! decision `init` takes once the module and its exports have been looked up.
use vstd::prelude::*;

use crate::error::MonoError;

verus! {

/// The exports of the Mono module that the bindings use, in the order they are resolved.
pub open spec fn required_export_names() -> Seq<&'static str> {
    seq![
        "mono_get_root_domain",
        "mono_thread_attach",
        "mono_thread_detach",
        "mono_assembly_foreach",
        "mono_assembly_get_image",
        "mono_image_get_name",
        "mono_class_from_name",
        "mono_class_get_field_from_name",
        "mono_field_get_offset",
        "mono_class_get_method_from_name",
        "mono_runtime_invoke",
        "mono_array_length",
        "mono_array_addr_with_size",
        "mono_class_get_type",
        "mono_type_get_object",
        "mono_string_to_utf8",
        "mono_free",
        "mono_object_unbox",
        "mono_class_vtable",
        "mono_field_static_get_value",
        "mono_object_new",
        "mono_domain_assembly_open",
        "mono_string_new",
        "mono_class_get_fields",
        "mono_class_get_methods",
        "mono_type_get_type",
        "mono_field_get_name",
        "mono_field_get_type",
        "mono_method_get_name",
        "mono_image_open_from_data",
        "mono_assembly_load_from_full",
        "mono_assembly_close",
        "mono_image_strerror",
        "mono_object_get_class",
        "mono_class_get_name",
    ]
}

/// The exports of the Mono module that the bindings use, in the order they are resolved.
pub fn required_exports() -> (names: Vec<&'static str>)
    ensures
        names@ == required_export_names(),
{
    vec![
        "mono_get_root_domain",
        "mono_thread_attach",
        "mono_thread_detach",
        "mono_assembly_foreach",
        "mono_assembly_get_image",
        "mono_image_get_name",
        "mono_class_from_name",
        "mono_class_get_field_from_name",
        "mono_field_get_offset",
        "mono_class_get_method_from_name",
        "mono_runtime_invoke",
        "mono_array_length",
        "mono_array_addr_with_size",
        "mono_class_get_type",
        "mono_type_get_object",
        "mono_string_to_utf8",
        "mono_free",
        "mono_object_unbox",
        "mono_class_vtable",
        "mono_field_static_get_value",
        "mono_object_new",
        "mono_domain_assembly_open",
        "mono_string_new",
        "mono_class_get_fields",
        "mono_class_get_methods",
        "mono_type_get_type",
        "mono_field_get_name",
        "mono_field_get_type",
        "mono_method_get_name",
        "mono_image_open_from_data",
        "mono_assembly_load_from_full",
        "mono_assembly_close",
        "mono_image_strerror",
        "mono_object_get_class",
        "mono_class_get_name",
    ]
}

/// `true` when `i` is the position of the first export that was not found: `addrs` holds the
/// address found for each required export, zero where there is none.
pub open spec fn is_first_missing(addrs: Seq<usize>, i: int) -> bool {
    &&& 0 <= i < addrs.len()
    &&& addrs[i] == 0
    &&& forall|j: int| 0 <= j < i ==> addrs[j] != 0
}

/// The position of the first required export that was not found, if any. `addrs` holds the
/// address `GetProcAddress` found for each required export, zero where it found none.
pub fn first_missing_export(addrs: &Vec<usize>) -> (missing: Option<usize>)
    ensures
        missing matches Some(i) ==> is_first_missing(addrs@, i as int),
        missing is None ==> forall|j: int| 0 <= j < addrs@.len() ==> addrs@[j] != 0,
{
    let mut i: usize = 0;
    while i < addrs.len()
        invariant
            i <= addrs@.len(),
            forall|j: int| 0 <= j < i ==> addrs@[j] != 0,
        decreases addrs@.len() - i,
    {
        if addrs[i] == 0 {
            return Some(i);
        }
        i = i + 1;
    }
    None
}

/// What looking up the Mono module found.
pub enum ModuleLookup {
    /// No module of the requested name is loaded (`GetModuleHandleW` failed).
    NotLoaded,
    /// The module is loaded. `exports` holds the address found for each required export
    /// (zero where none was found); `stored` tells whether the resolved bindings were stored
    /// as the process's runtime, which happens only when every export was found and no
    /// runtime was stored before.
    Loaded { exports: Vec<usize>, stored: bool },
}

/// Decides the outcome of resolving the Mono API from the module named `module_name`, given
/// what looking the module up found.
///
/// # Errors
///
/// - [`MonoError::DllNotFound`] if no module with `module_name` is currently loaded.
/// - [`MonoError::FnNotFound`] if a required export is missing from the module (unexpected for
///   standard Mono builds); it names the first missing export.
/// - [`MonoError::AlreadyInitialized`] if `init` has already been called successfully.
pub fn init(module_name: &str, lookup: ModuleLookup) -> (r: Result<(), MonoError>)
    requires
        lookup matches ModuleLookup::Loaded { exports, .. } ==> exports@.len()
            == required_export_names().len(),
    ensures
        r is Ok <==> (lookup matches ModuleLookup::Loaded { exports, stored } && stored
            && !exists|i: int| is_first_missing(exports@, i)),
        match lookup {
            ModuleLookup::NotLoaded => r matches Err(MonoError::DllNotFound(name)) && name@
                == module_name@,
            ModuleLookup::Loaded { exports, stored } => {
                if exists|i: int| is_first_missing(exports@, i) {
                    r matches Err(MonoError::FnNotFound(name)) && exists|i: int|
                        is_first_missing(exports@, i) && name == required_export_names()[i]
                } else if stored {
                    r is Ok
                } else {
                    r matches Err(e) && e == MonoError::AlreadyInitialized
                }
            },
        },
{
    match lookup {
        ModuleLookup::NotLoaded => Err(MonoError::DllNotFound(module_name.to_owned())),
        ModuleLookup::Loaded { exports, stored } => {
            match first_missing_export(&exports) {
                Some(i) => {
                    let names = required_exports();
                    Err(MonoError::FnNotFound(names[i]))
                },
                None => {
                    if stored {
                        Ok(())
                    } else {
                        Err(MonoError::AlreadyInitialized)
                    }
                },
            }
        },
    }
}

/// Whether an attempt to bind the runtime succeeds, given whether a runtime was already bound
/// and what the attempt found (`None` when the module is not loaded, otherwise the address of
/// each required export). The bindings are stored, and `init` returns `Ok`, exactly when
/// every export was found and no runtime was bound before: storing into the process-wide slot
/// succeeds only while it is empty.
pub open spec fn attempt_binds(bound: bool, found: Option<Seq<usize>>) -> bool {
    &&& !bound
    &&& found matches Some(exports) && !exists|i: int| is_first_missing(exports, i)
}

/// The number of attempts among `attempts`, made in order from the state `bound`, that bind
/// the runtime.
pub open spec fn bindings_made(bound: bool, attempts: Seq<Option<Seq<usize>>>) -> nat
    decreases attempts.len(),
{
    if attempts.len() == 0 {
        0
    } else {
        let binds = attempt_binds(bound, attempts[0]);
        (if binds {
            1nat
        } else {
            0nat
        }) + bindings_made(bound || binds, attempts.drop_first())
    }
}

/// Whether a runtime is bound after the given attempts, made in order from the state `bound`.
pub open spec fn bound_after(bound: bool, attempts: Seq<Option<Seq<usize>>>) -> bool
    decreases attempts.len(),
{
    if attempts.len() == 0 {
        bound
    } else {
        bound_after(bound || attempt_binds(bound, attempts[0]), attempts.drop_first())
    }
}

/// `init` succeeds at most once per process, and once it has, the runtime stays bound: over
/// any sequence of attempts starting with no runtime bound, at most one binds it; starting
/// with a runtime bound, none does (each then fails, with `AlreadyInitialized` when every
/// export is found), and the runtime is still bound after all of them. With `stored` as the
/// process-wide slot decides it (true exactly when [`attempt_binds`] holds), `init`'s
/// contract gives `Ok` for exactly the attempts that bind.
pub proof fn lemma_init_binds_at_most_once(attempts: Seq<Option<Seq<usize>>>)
    ensures
        bindings_made(false, attempts) <= 1,
        bindings_made(true, attempts) == 0,
        bound_after(true, attempts),
        bindings_made(false, attempts) == 1 ==> bound_after(false, attempts),
    decreases attempts.len(),
{
    if attempts.len() > 0 {
        let rest = attempts.drop_first();
        lemma_init_binds_at_most_once(rest);
    }
}

} // verus!
