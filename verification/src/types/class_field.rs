use std::marker::PhantomData;
use std::rc::Rc;

use vstd::prelude::*;

use crate::error::MonoError;
use crate::text::{text_from_reply, text_outcome};
use crate::types::mono_type::MonoType;
use crate::types::vtable::MonoVTable;
use crate::types::{handle_outcome, value_outcome};

verus! {

/// A handle to a field of a class (`MonoClassField*`), held by its address in the runtime.
///
/// A handle is never null. It is a plain address: `Copy`, and meaningful only while the
/// runtime keeps the object it names alive, on a thread attached to the runtime. It is neither
/// `Send` nor `Sync`: a handle stays on the thread that obtained it, since only attached
/// threads may use it.
#[derive(Clone, Copy, Debug)]
pub struct MonoClassField {
    addr: usize,
    thread_bound: PhantomData<Rc<()>>,
}

impl View for MonoClassField {
    type V = usize;

    closed spec fn view(&self) -> usize {
        self.addr
    }
}

impl MonoClassField {
    #[verifier::type_invariant]
    spec fn non_null(self) -> bool {
        self.addr != 0
    }

    /// The address this handle stands for; never zero.
    #[must_use]
    pub fn as_ptr(self) -> (ptr: usize)
        ensures
            ptr == self@,
            ptr != 0,
    {
        proof {
            use_type_invariant(self);
        }
        self.addr
    }

    /// The handle at `ptr`, or `None` for a null address.
    #[must_use]
    pub fn from_ptr(ptr: usize) -> (h: Option<Self>)
        ensures
            h is None <==> ptr == 0,
            h matches Some(h) ==> h@ == ptr,
    {
        if ptr == 0 {
            None
        } else {
            Some(Self { addr: ptr, thread_bound: PhantomData })
        }
    }

    /// The handle at `ptr`, which must not be null.
    #[must_use]
    pub fn from_ptr_unchecked(ptr: usize) -> (h: Self)
        requires
            ptr != 0,
        ensures
            h@ == ptr,
    {
        Self { addr: ptr, thread_bound: PhantomData }
    }

    /// A handle is nothing but its address: two handles at the same address are the same
    /// handle, whichever of `from_ptr` and `from_ptr_unchecked` made them.
    pub proof fn lemma_same_address(a: Self, b: Self)
        requires
            a@ == b@,
        ensures
            a == b,
    {
    }

    /// Returns the byte offset of this field within its declaring class. `reply` is what
    /// `mono_field_get_offset` returned, or `None` when no runtime is bound.
    ///
    /// # Errors
    ///
    /// Returns [`MonoError::Uninitialized`] if the Mono API has not been initialized.
    pub fn offset(self, reply: Option<u32>) -> (r: Result<u32, MonoError>)
        ensures
            value_outcome(r, reply),
    {
        match reply {
            None => Err(MonoError::Uninitialized),
            Some(offset) => Ok(offset),
        }
    }

    /// Returns the name of this field as reported by the Mono runtime.
    ///
    /// The returned string is copied out of Mono's metadata and is safe to use beyond the
    /// lifetime of the runtime handle. `reply` is the C string `mono_field_get_name` returned
    /// (`None` inside for a null answer), or `None` when no runtime is bound.
    ///
    /// # Errors
    ///
    /// Returns [`MonoError::Uninitialized`] if the Mono API has not been initialized.
    pub fn name(self, reply: Option<Option<Vec<u8>>>) -> (r: Result<String, MonoError>)
        ensures
            text_outcome(r, reply),
    {
        text_from_reply(reply)
    }

    /// Returns the [`MonoType`] descriptor for this field. `reply` is what
    /// `mono_field_get_type` returned, or `None` when no runtime is bound.
    ///
    /// # Errors
    ///
    /// Returns [`MonoError::Uninitialized`] if the Mono API has not been initialized.
    pub fn mono_type(self, reply: Option<usize>) -> (r: Result<Option<MonoType>, MonoError>)
        ensures
            handle_outcome(r, reply),
    {
        match reply {
            None => Err(MonoError::Uninitialized),
            Some(ptr) => Ok(MonoType::from_ptr(ptr)),
        }
    }

    /// Reads the static field value through `vtable` into a buffer the caller provides.
    /// `reply` is `Some(())` once `mono_field_static_get_value` has filled the buffer, or
    /// `None` when no runtime is bound.
    ///
    /// # Errors
    ///
    /// Returns [`MonoError::Uninitialized`] if the Mono API has not been initialized.
    pub fn static_value(self, vtable: MonoVTable, reply: Option<()>) -> (r: Result<(), MonoError>)
        ensures
            value_outcome(r, reply),
    {
        match reply {
            None => Err(MonoError::Uninitialized),
            Some(()) => Ok(()),
        }
    }
}

} // verus!
