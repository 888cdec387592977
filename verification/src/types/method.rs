use std::marker::PhantomData;
use std::rc::Rc;

use vstd::prelude::*;

use crate::error::MonoError;
use crate::text::{text_from_reply, text_outcome};
use crate::types::object::MonoObject;

verus! {

/// A handle to a method (`MonoMethod*`), held by its address in the runtime.
///
/// A handle is never null. It is a plain address: `Copy`, and meaningful only while the
/// runtime keeps the object it names alive, on a thread attached to the runtime. It is neither
/// `Send` nor `Sync`: a handle stays on the thread that obtained it, since only attached
/// threads may use it.
#[derive(Clone, Copy, Debug)]
pub struct MonoMethod {
    addr: usize,
    thread_bound: PhantomData<Rc<()>>,
}

impl View for MonoMethod {
    type V = usize;

    closed spec fn view(&self) -> usize {
        self.addr
    }
}

impl MonoMethod {
    #[verifier::type_invariant]
    spec fn non_null(self) -> bool {
        self.addr != 0
    }

    /// The address this handle stands for; never zero.
    #[must_use]
    pub fn as_ptr(self) -> (ptr: usize)
        ensures
            ptr == self@,
            ptr != 0,
    {
        proof {
            use_type_invariant(self);
        }
        self.addr
    }

    /// The handle at `ptr`, or `None` for a null address.
    #[must_use]
    pub fn from_ptr(ptr: usize) -> (h: Option<Self>)
        ensures
            h is None <==> ptr == 0,
            h matches Some(h) ==> h@ == ptr,
    {
        if ptr == 0 {
            None
        } else {
            Some(Self { addr: ptr, thread_bound: PhantomData })
        }
    }

    /// The handle at `ptr`, which must not be null.
    #[must_use]
    pub fn from_ptr_unchecked(ptr: usize) -> (h: Self)
        requires
            ptr != 0,
        ensures
            h@ == ptr,
    {
        Self { addr: ptr, thread_bound: PhantomData }
    }

    /// A handle is nothing but its address: two handles at the same address are the same
    /// handle, whichever of `from_ptr` and `from_ptr_unchecked` made them.
    pub proof fn lemma_same_address(a: Self, b: Self)
        requires
            a@ == b@,
        ensures
            a == b,
    {
    }

    /// Returns the name of this method as reported by the Mono runtime.
    ///
    /// The returned string is copied out of Mono's metadata and is safe to use beyond the
    /// lifetime of the runtime handle. `reply` is the C string `mono_method_get_name` returned
    /// (`None` inside for a null answer), or `None` when no runtime is bound.
    ///
    /// # Errors
    ///
    /// Returns [`MonoError::Uninitialized`] if the Mono API has not been initialized.
    pub fn name(self, reply: Option<Option<Vec<u8>>>) -> (r: Result<String, MonoError>)
        ensures
            text_outcome(r, reply),
    {
        text_from_reply(reply)
    }

    /// Interprets one invocation of this method. `reply` is what `mono_runtime_invoke`
    /// returned together with the exception it stored (null when none was thrown), or `None`
    /// when no runtime is bound.
    ///
    /// Returns `Ok(Some(result))` on success, `Ok(None)` when the method returns void, and
    /// `Err(MonoError::ManagedException(exc))` when the invocation throws a managed exception.
    ///
    /// # Errors
    ///
    /// Returns [`MonoError::ManagedException`] when a managed exception is thrown.
    /// Returns [`MonoError::Uninitialized`] if the Mono API has not been initialized.
    pub fn invoke(self, reply: Option<(usize, usize)>) -> (r: Result<Option<MonoObject>, MonoError>)
        ensures
            match reply {
                None => r == Err::<Option<MonoObject>, MonoError>(MonoError::Uninitialized),
                Some((result, exc)) => if exc != 0 {
                    r matches Err(MonoError::ManagedException(e)) && e@ == exc
                } else {
                    r matches Ok(obj) && (obj is None <==> result == 0) && (obj matches Some(
                        obj,
                    ) ==> obj@ == result)
                },
            },
    {
        let (result, exc) = match reply {
            None => return Err(MonoError::Uninitialized),
            Some(answer) => answer,
        };
        if exc != 0 {
            return Err(MonoError::ManagedException(MonoObject::from_ptr_unchecked(exc)));
        }
        Ok(MonoObject::from_ptr(result))
    }
}

} // verus!
