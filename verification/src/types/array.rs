use std::marker::PhantomData;
use std::rc::Rc;

use vstd::prelude::*;

use crate::error::MonoError;
use crate::types::value_outcome;

verus! {

/// A handle to a managed array (`MonoArray*`), held by its address in the runtime.
///
/// A handle is never null. It is a plain address: `Copy`, and meaningful only while the
/// runtime keeps the object it names alive, on a thread attached to the runtime. It is neither
/// `Send` nor `Sync`: a handle stays on the thread that obtained it, since only attached
/// threads may use it.
#[derive(Clone, Copy, Debug)]
pub struct MonoArray {
    addr: usize,
    thread_bound: PhantomData<Rc<()>>,
}

impl View for MonoArray {
    type V = usize;

    closed spec fn view(&self) -> usize {
        self.addr
    }
}

impl MonoArray {
    #[verifier::type_invariant]
    spec fn non_null(self) -> bool {
        self.addr != 0
    }

    /// The address this handle stands for; never zero.
    #[must_use]
    pub fn as_ptr(self) -> (ptr: usize)
        ensures
            ptr == self@,
            ptr != 0,
    {
        proof {
            use_type_invariant(self);
        }
        self.addr
    }

    /// The handle at `ptr`, or `None` for a null address.
    #[must_use]
    pub fn from_ptr(ptr: usize) -> (h: Option<Self>)
        ensures
            h is None <==> ptr == 0,
            h matches Some(h) ==> h@ == ptr,
    {
        if ptr == 0 {
            None
        } else {
            Some(Self { addr: ptr, thread_bound: PhantomData })
        }
    }

    /// The handle at `ptr`, which must not be null.
    #[must_use]
    pub fn from_ptr_unchecked(ptr: usize) -> (h: Self)
        requires
            ptr != 0,
        ensures
            h@ == ptr,
    {
        Self { addr: ptr, thread_bound: PhantomData }
    }

    /// A handle is nothing but its address: two handles at the same address are the same
    /// handle, whichever of `from_ptr` and `from_ptr_unchecked` made them.
    pub proof fn lemma_same_address(a: Self, b: Self)
        requires
            a@ == b@,
        ensures
            a == b,
    {
    }

    /// Returns the number of elements in this array. `reply` is what `mono_array_length`
    /// returned, or `None` when no runtime is bound.
    ///
    /// # Errors
    ///
    /// Returns [`crate::MonoError::Uninitialized`] if the Mono API has not been initialized.
    pub fn len(self, reply: Option<usize>) -> (r: Result<usize, MonoError>)
        ensures
            value_outcome(r, reply),
    {
        match reply {
            None => Err(MonoError::Uninitialized),
            Some(n) => Ok(n),
        }
    }

    /// Returns `true` if the array contains no elements. `reply` is what `mono_array_length`
    /// returned, or `None` when no runtime is bound.
    ///
    /// # Errors
    ///
    /// Returns [`crate::MonoError::Uninitialized`] if the Mono API has not been initialized.
    pub fn is_empty(self, reply: Option<usize>) -> (r: Result<bool, MonoError>)
        ensures
            match reply {
                None => r == Err::<bool, MonoError>(MonoError::Uninitialized),
                Some(n) => r == Ok::<bool, MonoError>(n == 0),
            },
    {
        Ok(self.len(reply)? == 0)
    }

    /// Returns the address of the element at `index`, assuming each element is `size` bytes.
    /// `reply` is what `mono_array_addr_with_size` returned, or `None` when no runtime is
    /// bound.
    ///
    /// # Errors
    ///
    /// Returns [`crate::MonoError::Uninitialized`] if the Mono API has not been initialized.
    pub fn addr(self, size: i32, index: usize, reply: Option<usize>) -> (r: Result<usize, MonoError>)
        ensures
            value_outcome(r, reply),
    {
        match reply {
            None => Err(MonoError::Uninitialized),
            Some(ptr) => Ok(ptr),
        }
    }
}

} // verus!
