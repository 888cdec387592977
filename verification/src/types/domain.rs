use std::marker::PhantomData;
use std::rc::Rc;

use vstd::prelude::*;

use crate::error::MonoError;
use crate::text::c_string;
use crate::types::assembly::MonoAssembly;
use crate::types::{handle_outcome, lookup_outcome};

verus! {

/// A handle to an application domain (`MonoDomain*`), held by its address in the runtime.
///
/// A handle is never null. It is a plain address: `Copy`, and meaningful only while the
/// runtime keeps the object it names alive, on a thread attached to the runtime. It is neither
/// `Send` nor `Sync`: a handle stays on the thread that obtained it, since only attached
/// threads may use it.
#[derive(Clone, Copy, Debug)]
pub struct MonoDomain {
    addr: usize,
    thread_bound: PhantomData<Rc<()>>,
}

impl View for MonoDomain {
    type V = usize;

    closed spec fn view(&self) -> usize {
        self.addr
    }
}

impl MonoDomain {
    #[verifier::type_invariant]
    spec fn non_null(self) -> bool {
        self.addr != 0
    }

    /// The address this handle stands for; never zero.
    #[must_use]
    pub fn as_ptr(self) -> (ptr: usize)
        ensures
            ptr == self@,
            ptr != 0,
    {
        proof {
            use_type_invariant(self);
        }
        self.addr
    }

    /// The handle at `ptr`, or `None` for a null address.
    #[must_use]
    pub fn from_ptr(ptr: usize) -> (h: Option<Self>)
        ensures
            h is None <==> ptr == 0,
            h matches Some(h) ==> h@ == ptr,
    {
        if ptr == 0 {
            None
        } else {
            Some(Self { addr: ptr, thread_bound: PhantomData })
        }
    }

    /// The handle at `ptr`, which must not be null.
    #[must_use]
    pub fn from_ptr_unchecked(ptr: usize) -> (h: Self)
        requires
            ptr != 0,
        ensures
            h@ == ptr,
    {
        Self { addr: ptr, thread_bound: PhantomData }
    }

    /// A handle is nothing but its address: two handles at the same address are the same
    /// handle, whichever of `from_ptr` and `from_ptr_unchecked` made them.
    pub proof fn lemma_same_address(a: Self, b: Self)
        requires
            a@ == b@,
        ensures
            a == b,
    {
    }

    /// Returns the root domain of the Mono runtime. `reply` is what `mono_get_root_domain`
    /// returned, or `None` when no runtime is bound.
    ///
    /// # Errors
    ///
    /// Returns [`MonoError::Uninitialized`] if the Mono API has not been initialized.
    pub fn root(reply: Option<usize>) -> (r: Result<Option<Self>, MonoError>)
        ensures
            handle_outcome(r, reply),
    {
        match reply {
            None => Err(MonoError::Uninitialized),
            Some(ptr) => Ok(Self::from_ptr(ptr)),
        }
    }

    /// Opens (loads) an assembly from the given file path into this domain. `reply` is what
    /// `mono_domain_assembly_open` returned for the C string of `path`, or `None` when no
    /// runtime is bound.
    ///
    /// # Errors
    ///
    /// Returns [`MonoError::NullByteInName`] if `path` contains an interior null byte.
    /// Returns [`MonoError::Uninitialized`] if the Mono API has not been initialized.
    pub fn open_assembly(self, path: &str, reply: Option<usize>) -> (r: Result<
        Option<MonoAssembly>,
        MonoError,
    >)
        ensures
            lookup_outcome(r, path@, reply),
    {
        let _path = c_string(path)?;
        match reply {
            None => Err(MonoError::Uninitialized),
            Some(ptr) => Ok(MonoAssembly::from_ptr(ptr)),
        }
    }
}

} // verus!
