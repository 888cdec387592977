//! Bindings to a Mono runtime that is already loaded in the current process: the handle types,
//! the rules that turn what the runtime answers into results, and the decisions of binding
//! the runtime in the first place.
//!
//! The runtime itself is reached through the function pointers of its exports, which only the
//! code around this library calls. Every operation here takes what the runtime answered as its
//! last argument, `reply`: `None` when no runtime is bound (`init` has not succeeded), otherwise
//! the value the export returned. The operation decides the result: `Uninitialized` without a
//! runtime, `NullByteInName` for a name that cannot be a C string (before the runtime is ever
//! asked), no handle for a null address, and so on.
mod error;
pub mod harness;
pub mod runtime;
pub mod text;
pub mod types;

pub use error::MonoError;
pub use types::array::MonoArray;
pub use types::assembly::MonoAssembly;
pub use types::class::MonoClass;
pub use types::class_field::MonoClassField;
pub use types::domain::MonoDomain;
pub use types::image::{ImageSearch, MonoImage, SearchStep};
pub use types::image_open_status::MonoImageOpenStatus;
pub use types::method::MonoMethod;
pub use types::mono_type::MonoType;
pub use types::object::MonoObject;
pub use types::string::MonoString;
pub use types::thread::MonoThread;
pub use types::type_kind::TypeKind;
pub use types::vtable::MonoVTable;
pub use types::Enumeration;
