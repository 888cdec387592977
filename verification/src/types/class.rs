use std::marker::PhantomData;
use std::rc::Rc;

use vstd::prelude::*;

use crate::error::MonoError;
use crate::text::{text_from_reply, text_outcome};
use crate::types::class_field::MonoClassField;
use crate::types::domain::MonoDomain;
use crate::types::method::MonoMethod;
use crate::types::mono_type::MonoType;
use crate::types::object::MonoObject;
use crate::types::vtable::MonoVTable;
use crate::types::{enumeration_outcome, handle_outcome, lookup_outcome};
use crate::text::c_string;

verus! {

/// A handle to a class (`MonoClass*`), held by its address in the runtime.
///
/// A handle is never null. It is a plain address: `Copy`, and meaningful only while the
/// runtime keeps the object it names alive, on a thread attached to the runtime. It is neither
/// `Send` nor `Sync`: a handle stays on the thread that obtained it, since only attached
/// threads may use it.
#[derive(Clone, Copy, Debug)]
pub struct MonoClass {
    addr: usize,
    thread_bound: PhantomData<Rc<()>>,
}

impl View for MonoClass {
    type V = usize;

    closed spec fn view(&self) -> usize {
        self.addr
    }
}

impl MonoClass {
    #[verifier::type_invariant]
    spec fn non_null(self) -> bool {
        self.addr != 0
    }

    /// The address this handle stands for; never zero.
    #[must_use]
    pub fn as_ptr(self) -> (ptr: usize)
        ensures
            ptr == self@,
            ptr != 0,
    {
        proof {
            use_type_invariant(self);
        }
        self.addr
    }

    /// The handle at `ptr`, or `None` for a null address.
    #[must_use]
    pub fn from_ptr(ptr: usize) -> (h: Option<Self>)
        ensures
            h is None <==> ptr == 0,
            h matches Some(h) ==> h@ == ptr,
    {
        if ptr == 0 {
            None
        } else {
            Some(Self { addr: ptr, thread_bound: PhantomData })
        }
    }

    /// The handle at `ptr`, which must not be null.
    #[must_use]
    pub fn from_ptr_unchecked(ptr: usize) -> (h: Self)
        requires
            ptr != 0,
        ensures
            h@ == ptr,
    {
        Self { addr: ptr, thread_bound: PhantomData }
    }

    /// A handle is nothing but its address: two handles at the same address are the same
    /// handle, whichever of `from_ptr` and `from_ptr_unchecked` made them.
    pub proof fn lemma_same_address(a: Self, b: Self)
        requires
            a@ == b@,
        ensures
            a == b,
    {
    }

    /// Looks up a field of this class by name. `reply` is what
    /// `mono_class_get_field_from_name` returned, or `None` when no runtime is bound.
    ///
    /// # Errors
    ///
    /// Returns [`MonoError::NullByteInName`] if `name` contains an interior null byte.
    /// Returns [`MonoError::Uninitialized`] if the Mono API has not been initialized.
    pub fn get_field(self, name: &str, reply: Option<usize>) -> (r: Result<
        Option<MonoClassField>,
        MonoError,
    >)
        ensures
            lookup_outcome(r, name@, reply),
    {
        let _name = c_string(name)?;
        match reply {
            None => Err(MonoError::Uninitialized),
            Some(ptr) => Ok(MonoClassField::from_ptr(ptr)),
        }
    }

    /// Looks up a method of this class by name and parameter count (`-1` matches any count).
    /// `reply` is what `mono_class_get_method_from_name` returned, or `None` when no runtime
    /// is bound.
    ///
    /// # Errors
    ///
    /// Returns [`MonoError::NullByteInName`] if `name` contains an interior null byte.
    /// Returns [`MonoError::Uninitialized`] if the Mono API has not been initialized.
    pub fn get_method(self, name: &str, param_count: i32, reply: Option<usize>) -> (r: Result<
        Option<MonoMethod>,
        MonoError,
    >)
        ensures
            lookup_outcome(r, name@, reply),
    {
        let _name = c_string(name)?;
        match reply {
            None => Err(MonoError::Uninitialized),
            Some(ptr) => Ok(MonoMethod::from_ptr(ptr)),
        }
    }

    /// Looks up a field of this class by name; the same lookup as [`Self::get_field`].
    ///
    /// # Errors
    ///
    /// Returns [`MonoError::NullByteInName`] if `name` contains an interior null byte.
    /// Returns [`MonoError::Uninitialized`] if the Mono API has not been initialized.
    pub fn field(self, name: &str, reply: Option<usize>) -> (r: Result<
        Option<MonoClassField>,
        MonoError,
    >)
        ensures
            lookup_outcome(r, name@, reply),
    {
        self.get_field(name, reply)
    }

    /// The parameter count handed to `mono_class_get_method_from_name` for a lookup by
    /// optional arity: the given count, or `-1` (any count) when there is none.
    pub fn lookup_arity(param_count: Option<i32>) -> (n: i32)
        ensures
            n == match param_count {
                Some(c) => c,
                None => -1i32,
            },
    {
        match param_count {
            Some(c) => c,
            None => -1,
        }
    }

    /// Looks up a method of this class by name and, when given, parameter count. `reply` is
    /// what `mono_class_get_method_from_name` returned for the name and
    /// [`Self::lookup_arity`] of `param_count`, or `None` when no runtime is bound.
    ///
    /// # Errors
    ///
    /// Returns [`MonoError::NullByteInName`] if `name` contains an interior null byte.
    /// Returns [`MonoError::Uninitialized`] if the Mono API has not been initialized.
    pub fn method(self, name: &str, param_count: Option<i32>, reply: Option<usize>) -> (r: Result<
        Option<MonoMethod>,
        MonoError,
    >)
        ensures
            lookup_outcome(r, name@, reply),
    {
        self.get_method(name, Self::lookup_arity(param_count), reply)
    }

    /// Returns the type descriptor of this class. `reply` is what `mono_class_get_type`
    /// returned, or `None` when no runtime is bound.
    ///
    /// # Errors
    ///
    /// Returns [`MonoError::Uninitialized`] if the Mono API has not been initialized.
    pub fn get_type(self, reply: Option<usize>) -> (r: Result<Option<MonoType>, MonoError>)
        ensures
            handle_outcome(r, reply),
    {
        match reply {
            None => Err(MonoError::Uninitialized),
            Some(ptr) => Ok(MonoType::from_ptr(ptr)),
        }
    }

    /// Returns the virtual table of this class in `domain`. `reply` is what
    /// `mono_class_vtable` returned, or `None` when no runtime is bound.
    ///
    /// # Errors
    ///
    /// Returns [`MonoError::Uninitialized`] if the Mono API has not been initialized.
    pub fn get_vtable(self, domain: MonoDomain, reply: Option<usize>) -> (r: Result<
        Option<MonoVTable>,
        MonoError,
    >)
        ensures
            handle_outcome(r, reply),
    {
        match reply {
            None => Err(MonoError::Uninitialized),
            Some(ptr) => Ok(MonoVTable::from_ptr(ptr)),
        }
    }

    /// Allocates a new instance of this class in `domain`. `reply` is what `mono_object_new`
    /// returned, or `None` when no runtime is bound.
    ///
    /// # Errors
    ///
    /// Returns [`MonoError::Uninitialized`] if the Mono API has not been initialized.
    pub fn new_object(self, domain: MonoDomain, reply: Option<usize>) -> (r: Result<
        Option<MonoObject>,
        MonoError,
    >)
        ensures
            handle_outcome(r, reply),
    {
        match reply {
            None => Err(MonoError::Uninitialized),
            Some(ptr) => Ok(MonoObject::from_ptr(ptr)),
        }
    }

    /// Returns the name of this class. `reply` is the C string `mono_class_get_name` returned
    /// (`None` inside for a null answer), or `None` when no runtime is bound.
    ///
    /// # Errors
    ///
    /// Returns [`MonoError::Uninitialized`] if the Mono API has not been initialized.
    pub fn name(self, reply: Option<Option<Vec<u8>>>) -> (r: Result<String, MonoError>)
        ensures
            text_outcome(r, reply),
    {
        text_from_reply(reply)
    }

    /// Collects all fields of this class. `reply` holds what successive calls of
    /// `mono_class_get_fields` with one iterator returned, up to and including the first null
    /// answer, or is `None` when no runtime is bound.
    ///
    /// # Errors
    ///
    /// Returns [`MonoError::Uninitialized`] if the Mono API has not been initialized.
    pub fn fields(self, reply: Option<Vec<usize>>) -> (r: Result<Vec<MonoClassField>, MonoError>)
        ensures
            enumeration_outcome(r, reply),
    {
        let answers = match reply {
            None => return Err(MonoError::Uninitialized),
            Some(answers) => answers,
        };
        let mut out: Vec<MonoClassField> = Vec::new();
        let mut i: usize = 0;
        while i < answers.len()
            invariant
                reply == Some(answers),
                i <= answers@.len(),
                out@.len() == i,
                forall|j: int| 0 <= j < i ==> answers@[j] != 0,
                forall|j: int| #![trigger out@[j]] 0 <= j < i ==> out@[j]@ == answers@[j],
            decreases answers@.len() - i,
        {
            let ptr = answers[i];
            if ptr == 0 {
                return Ok(out);
            }
            out.push(MonoClassField::from_ptr_unchecked(ptr));
            i = i + 1;
        }
        Ok(out)
    }

    /// Collects all methods of this class. `reply` holds what successive calls of
    /// `mono_class_get_methods` with one iterator returned, up to and including the first null
    /// answer, or is `None` when no runtime is bound.
    ///
    /// # Errors
    ///
    /// Returns [`MonoError::Uninitialized`] if the Mono API has not been initialized.
    pub fn methods(self, reply: Option<Vec<usize>>) -> (r: Result<Vec<MonoMethod>, MonoError>)
        ensures
            enumeration_outcome(r, reply),
    {
        let answers = match reply {
            None => return Err(MonoError::Uninitialized),
            Some(answers) => answers,
        };
        let mut out: Vec<MonoMethod> = Vec::new();
        let mut i: usize = 0;
        while i < answers.len()
            invariant
                reply == Some(answers),
                i <= answers@.len(),
                out@.len() == i,
                forall|j: int| 0 <= j < i ==> answers@[j] != 0,
                forall|j: int| #![trigger out@[j]] 0 <= j < i ==> out@[j]@ == answers@[j],
            decreases answers@.len() - i,
        {
            let ptr = answers[i];
            if ptr == 0 {
                return Ok(out);
            }
            out.push(MonoMethod::from_ptr_unchecked(ptr));
            i = i + 1;
        }
        Ok(out)
    }
}

} // verus!
