//! Errors related to Mono.
use vstd::prelude::*;

use crate::types::image_open_status::MonoImageOpenStatus;
use crate::types::object::MonoObject;

verus! {

/// Everything that can go wrong when talking to the Mono runtime.
#[derive(Debug)]
pub enum MonoError {
    /// No module of the given name is loaded in the process.
    DllNotFound(String),
    /// The module lacks the named export.
    FnNotFound(&'static str),
    /// The runtime has already been bound by an earlier successful `init`.
    AlreadyInitialized,
    /// No runtime has been bound yet: `init` has not succeeded.
    Uninitialized,
    /// A string argument contains an interior null byte.
    NullByteInName,
    /// A managed exception was thrown during method invocation.
    ManagedException(MonoObject),
    /// Mono refused to open or load an image, with the status it reported.
    ImageOpenFailed(MonoImageOpenStatus),
}

} // verus!
