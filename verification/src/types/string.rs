use std::marker::PhantomData;
use std::rc::Rc;

use vstd::prelude::*;

use crate::error::MonoError;
use crate::text::{c_string, text_from_reply, text_outcome};
use crate::types::domain::MonoDomain;
use crate::types::lookup_outcome;

verus! {

/// A handle to a managed string (`MonoString*`), held by its address in the runtime.
///
/// A handle is never null. It is a plain address: `Copy`, and meaningful only while the
/// runtime keeps the object it names alive, on a thread attached to the runtime. It is neither
/// `Send` nor `Sync`: a handle stays on the thread that obtained it, since only attached
/// threads may use it.
#[derive(Clone, Copy, Debug)]
pub struct MonoString {
    addr: usize,
    thread_bound: PhantomData<Rc<()>>,
}

impl View for MonoString {
    type V = usize;

    closed spec fn view(&self) -> usize {
        self.addr
    }
}

impl MonoString {
    #[verifier::type_invariant]
    spec fn non_null(self) -> bool {
        self.addr != 0
    }

    /// The address this handle stands for; never zero.
    #[must_use]
    pub fn as_ptr(self) -> (ptr: usize)
        ensures
            ptr == self@,
            ptr != 0,
    {
        proof {
            use_type_invariant(self);
        }
        self.addr
    }

    /// The handle at `ptr`, or `None` for a null address.
    #[must_use]
    pub fn from_ptr(ptr: usize) -> (h: Option<Self>)
        ensures
            h is None <==> ptr == 0,
            h matches Some(h) ==> h@ == ptr,
    {
        if ptr == 0 {
            None
        } else {
            Some(Self { addr: ptr, thread_bound: PhantomData })
        }
    }

    /// The handle at `ptr`, which must not be null.
    #[must_use]
    pub fn from_ptr_unchecked(ptr: usize) -> (h: Self)
        requires
            ptr != 0,
        ensures
            h@ == ptr,
    {
        Self { addr: ptr, thread_bound: PhantomData }
    }

    /// A handle is nothing but its address: two handles at the same address are the same
    /// handle, whichever of `from_ptr` and `from_ptr_unchecked` made them.
    pub proof fn lemma_same_address(a: Self, b: Self)
        requires
            a@ == b@,
        ensures
            a == b,
    {
    }

    /// Creates a new Mono string from a Rust string slice in the given domain. `reply` is what
    /// `mono_string_new` returned for the C string of `text`, or `None` when no runtime is
    /// bound.
    ///
    /// # Errors
    ///
    /// Returns [`MonoError::NullByteInName`] if `text` contains an interior null byte.
    /// Returns [`MonoError::Uninitialized`] if the Mono API has not been initialized.
    pub fn new(domain: MonoDomain, text: &str, reply: Option<usize>) -> (r: Result<
        Option<Self>,
        MonoError,
    >)
        ensures
            lookup_outcome(r, text@, reply),
    {
        let _text = c_string(text)?;
        match reply {
            None => Err(MonoError::Uninitialized),
            Some(ptr) => Ok(Self::from_ptr(ptr)),
        }
    }

    /// Converts this Mono string to a Rust `String`, replacing invalid UTF-8 sequences.
    ///
    /// Returns an empty string if the underlying pointer is null after conversion. `reply` is
    /// the UTF-8 C string `mono_string_to_utf8` returned (`None` inside for a null answer), or
    /// `None` when no runtime is bound.
    ///
    /// # Errors
    ///
    /// Returns [`MonoError::Uninitialized`] if the Mono API has not been initialized.
    pub fn to_string_lossy(self, reply: Option<Option<Vec<u8>>>) -> (r: Result<String, MonoError>)
        ensures
            text_outcome(r, reply),
    {
        text_from_reply(reply)
    }
}

} // verus!
