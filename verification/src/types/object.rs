use std::marker::PhantomData;
use std::rc::Rc;

use vstd::prelude::*;

use crate::error::MonoError;
use crate::types::class::MonoClass;
use crate::types::{handle_outcome, value_outcome};

verus! {

/// A handle to a managed object (`MonoObject*`), held by its address in the runtime.
///
/// A handle is never null. It is a plain address: `Copy`, and meaningful only while the
/// runtime keeps the object it names alive, on a thread attached to the runtime. It is neither
/// `Send` nor `Sync`: a handle stays on the thread that obtained it, since only attached
/// threads may use it.
#[derive(Clone, Copy, Debug)]
pub struct MonoObject {
    addr: usize,
    thread_bound: PhantomData<Rc<()>>,
}

impl View for MonoObject {
    type V = usize;

    closed spec fn view(&self) -> usize {
        self.addr
    }
}

impl MonoObject {
    #[verifier::type_invariant]
    spec fn non_null(self) -> bool {
        self.addr != 0
    }

    /// The address this handle stands for; never zero.
    #[must_use]
    pub fn as_ptr(self) -> (ptr: usize)
        ensures
            ptr == self@,
            ptr != 0,
    {
        proof {
            use_type_invariant(self);
        }
        self.addr
    }

    /// The handle at `ptr`, or `None` for a null address.
    #[must_use]
    pub fn from_ptr(ptr: usize) -> (h: Option<Self>)
        ensures
            h is None <==> ptr == 0,
            h matches Some(h) ==> h@ == ptr,
    {
        if ptr == 0 {
            None
        } else {
            Some(Self { addr: ptr, thread_bound: PhantomData })
        }
    }

    /// The handle at `ptr`, which must not be null.
    #[must_use]
    pub fn from_ptr_unchecked(ptr: usize) -> (h: Self)
        requires
            ptr != 0,
        ensures
            h@ == ptr,
    {
        Self { addr: ptr, thread_bound: PhantomData }
    }

    /// A handle is nothing but its address: two handles at the same address are the same
    /// handle, whichever of `from_ptr` and `from_ptr_unchecked` made them.
    pub proof fn lemma_same_address(a: Self, b: Self)
        requires
            a@ == b@,
        ensures
            a == b,
    {
    }

    /// Returns the `MonoClass` of this object. `reply` is what `mono_object_get_class`
    /// returned, or `None` when no runtime is bound.
    ///
    /// Primarily useful for identifying exception types after a failed method invocation.
    ///
    /// # Errors
    ///
    /// Returns [`MonoError::Uninitialized`] if the Mono API has not been initialized.
    pub fn get_class(self, reply: Option<usize>) -> (r: Result<Option<MonoClass>, MonoError>)
        ensures
            handle_outcome(r, reply),
    {
        match reply {
            None => Err(MonoError::Uninitialized),
            Some(ptr) => Ok(MonoClass::from_ptr(ptr)),
        }
    }

    /// Unboxes this object: the address of its value-type data. `reply` is what
    /// `mono_object_unbox` returned, or `None` when no runtime is bound.
    ///
    /// # Errors
    ///
    /// Returns [`MonoError::Uninitialized`] if the Mono API has not been initialized.
    pub fn unbox(self, reply: Option<usize>) -> (r: Result<usize, MonoError>)
        ensures
            value_outcome(r, reply),
    {
        match reply {
            None => Err(MonoError::Uninitialized),
            Some(data) => Ok(data),
        }
    }
}

} // verus!
