use std::marker::PhantomData;
use std::rc::Rc;

use vstd::prelude::*;

use crate::error::MonoError;
use crate::types::domain::MonoDomain;
use crate::types::handle_outcome;
use crate::types::object::MonoObject;
use crate::types::type_kind::{decoded_kind, TypeKind};

verus! {

/// A handle to a type descriptor (`MonoType*`), held by its address in the runtime.
///
/// A handle is never null. It is a plain address: `Copy`, and meaningful only while the
/// runtime keeps the object it names alive, on a thread attached to the runtime. It is neither
/// `Send` nor `Sync`: a handle stays on the thread that obtained it, since only attached
/// threads may use it.
#[derive(Clone, Copy, Debug)]
pub struct MonoType {
    addr: usize,
    thread_bound: PhantomData<Rc<()>>,
}

impl View for MonoType {
    type V = usize;

    closed spec fn view(&self) -> usize {
        self.addr
    }
}

impl MonoType {
    #[verifier::type_invariant]
    spec fn non_null(self) -> bool {
        self.addr != 0
    }

    /// The address this handle stands for; never zero.
    #[must_use]
    pub fn as_ptr(self) -> (ptr: usize)
        ensures
            ptr == self@,
            ptr != 0,
    {
        proof {
            use_type_invariant(self);
        }
        self.addr
    }

    /// The handle at `ptr`, or `None` for a null address.
    #[must_use]
    pub fn from_ptr(ptr: usize) -> (h: Option<Self>)
        ensures
            h is None <==> ptr == 0,
            h matches Some(h) ==> h@ == ptr,
    {
        if ptr == 0 {
            None
        } else {
            Some(Self { addr: ptr, thread_bound: PhantomData })
        }
    }

    /// The handle at `ptr`, which must not be null.
    #[must_use]
    pub fn from_ptr_unchecked(ptr: usize) -> (h: Self)
        requires
            ptr != 0,
        ensures
            h@ == ptr,
    {
        Self { addr: ptr, thread_bound: PhantomData }
    }

    /// A handle is nothing but its address: two handles at the same address are the same
    /// handle, whichever of `from_ptr` and `from_ptr_unchecked` made them.
    pub proof fn lemma_same_address(a: Self, b: Self)
        requires
            a@ == b@,
        ensures
            a == b,
    {
    }

    /// Returns a [`MonoObject`] wrapping this type descriptor in the given domain. `reply` is
    /// what `mono_type_get_object` returned, or `None` when no runtime is bound.
    ///
    /// # Errors
    ///
    /// Returns [`MonoError::Uninitialized`] if the Mono API has not been initialized.
    pub fn object(self, domain: MonoDomain, reply: Option<usize>) -> (r: Result<
        Option<MonoObject>,
        MonoError,
    >)
        ensures
            handle_outcome(r, reply),
    {
        match reply {
            None => Err(MonoError::Uninitialized),
            Some(ptr) => Ok(MonoObject::from_ptr(ptr)),
        }
    }

    /// Returns the kind of this type. `reply` is the discriminant `mono_type_get_type`
    /// returned, or `None` when no runtime is bound.
    ///
    /// # Errors
    ///
    /// Returns [`MonoError::Uninitialized`] if the Mono API has not been initialized.
    pub fn kind(self, reply: Option<u32>) -> (r: Result<TypeKind, MonoError>)
        ensures
            match reply {
                None => r == Err::<TypeKind, MonoError>(MonoError::Uninitialized),
                Some(v) => r == Ok::<TypeKind, MonoError>(decoded_kind(v)),
            },
    {
        match reply {
            None => Err(MonoError::Uninitialized),
            Some(v) => Ok(TypeKind::from(v)),
        }
    }
}

} // verus!
