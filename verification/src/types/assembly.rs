use std::marker::PhantomData;
use std::rc::Rc;

use vstd::prelude::*;

use crate::error::MonoError;
use crate::text::{c_string, c_string_bytes, has_interior_null};
use crate::types::image::MonoImage;
use crate::types::image_open_status::MonoImageOpenStatus;
use crate::types::{handle_outcome, value_outcome};

verus! {

/// A handle to a loaded assembly (`MonoAssembly*`), held by its address in the runtime.
///
/// A handle is never null. It is a plain address: `Copy`, and meaningful only while the
/// runtime keeps the object it names alive, on a thread attached to the runtime. It is neither
/// `Send` nor `Sync`: a handle stays on the thread that obtained it, since only attached
/// threads may use it.
#[derive(Clone, Copy, Debug)]
pub struct MonoAssembly {
    addr: usize,
    thread_bound: PhantomData<Rc<()>>,
}

impl View for MonoAssembly {
    type V = usize;

    closed spec fn view(&self) -> usize {
        self.addr
    }
}

impl MonoAssembly {
    #[verifier::type_invariant]
    spec fn non_null(self) -> bool {
        self.addr != 0
    }

    /// The address this handle stands for; never zero.
    #[must_use]
    pub fn as_ptr(self) -> (ptr: usize)
        ensures
            ptr == self@,
            ptr != 0,
    {
        proof {
            use_type_invariant(self);
        }
        self.addr
    }

    /// The handle at `ptr`, or `None` for a null address.
    #[must_use]
    pub fn from_ptr(ptr: usize) -> (h: Option<Self>)
        ensures
            h is None <==> ptr == 0,
            h matches Some(h) ==> h@ == ptr,
    {
        if ptr == 0 {
            None
        } else {
            Some(Self { addr: ptr, thread_bound: PhantomData })
        }
    }

    /// The handle at `ptr`, which must not be null.
    #[must_use]
    pub fn from_ptr_unchecked(ptr: usize) -> (h: Self)
        requires
            ptr != 0,
        ensures
            h@ == ptr,
    {
        Self { addr: ptr, thread_bound: PhantomData }
    }

    /// A handle is nothing but its address: two handles at the same address are the same
    /// handle, whichever of `from_ptr` and `from_ptr_unchecked` made them.
    pub proof fn lemma_same_address(a: Self, b: Self)
        requires
            a@ == b@,
        ensures
            a == b,
    {
    }

    /// The C string handed to `mono_assembly_load_from_full` as the base directory: `base_dir`
    /// itself, or the empty string when there is none.
    ///
    /// # Errors
    ///
    /// Returns [`MonoError::NullByteInName`] if `base_dir` contains an interior null byte.
    pub fn base_dir_c_string(base_dir: Option<&str>) -> (r: Result<Vec<u8>, MonoError>)
        ensures
            match base_dir {
                Some(dir) => {
                    &&& r is Err <==> has_interior_null(dir@)
                    &&& r matches Err(e) ==> e == MonoError::NullByteInName
                    &&& r matches Ok(bytes) ==> bytes@ == c_string_bytes(dir@)
                },
                None => r matches Ok(bytes) && bytes@ == seq![0u8],
            },
    {
        match base_dir {
            Some(dir) => c_string(dir),
            None => {
                let mut bytes: Vec<u8> = Vec::new();
                bytes.push(0);
                Ok(bytes)
            },
        }
    }

    /// The base-directory C string to hand to `mono_assembly_load_from_full`, or `None` when
    /// the runtime must not be asked: no runtime is bound, or `base_dir` holds a null
    /// character.
    pub fn base_dir_argument(base_dir: Option<&str>, bound: bool) -> (arg: Option<Vec<u8>>)
        ensures
            arg is Some <==> bound && !(base_dir matches Some(dir) && has_interior_null(dir@)),
            arg matches Some(bytes) ==> bytes@ == match base_dir {
                Some(dir) => c_string_bytes(dir@),
                None => seq![0u8],
            },
    {
        if !bound {
            return None;
        }
        match Self::base_dir_c_string(base_dir) {
            Ok(bytes) => Some(bytes),
            Err(_) => None,
        }
    }

    /// Registers a `MonoImage` as a fully loaded assembly in the current domain.
    ///
    /// `base_dir` is the directory hint Mono uses to resolve dependent assemblies. Pass `None`
    /// to rely on the standard assembly search path (correct for most injection scenarios).
    /// `reply` is what `mono_assembly_load_from_full` returned together with the status it
    /// wrote, or `None` when no runtime is bound.
    ///
    /// # Errors
    ///
    /// Returns [`MonoError::NullByteInName`] if `base_dir` contains an interior null byte.
    /// Returns [`MonoError::ImageOpenFailed`] if Mono rejects the image.
    /// Returns [`MonoError::Uninitialized`] if the Mono API has not been initialized.
    pub fn load_from_image(
        image: MonoImage,
        base_dir: Option<&str>,
        reply: Option<(usize, i32)>,
    ) -> (r: Result<Option<Self>, MonoError>)
        ensures
            base_dir matches Some(dir) && has_interior_null(dir@) ==> r == Err::<
                Option<Self>,
                MonoError,
            >(MonoError::NullByteInName),
            !(base_dir matches Some(dir) && has_interior_null(dir@)) ==> match reply {
                None => r == Err::<Option<Self>, MonoError>(MonoError::Uninitialized),
                Some((ptr, status)) => {
                    let s = MonoImageOpenStatus::decoded(status);
                    if s != MonoImageOpenStatus::Success || ptr == 0 {
                        r == Err::<Option<Self>, MonoError>(MonoError::ImageOpenFailed(s))
                    } else {
                        r matches Ok(Some(a)) && a@ == ptr
                    }
                },
            },
    {
        let _dir = Self::base_dir_c_string(base_dir)?;
        let (ptr, status) = match reply {
            None => return Err(MonoError::Uninitialized),
            Some(answer) => answer,
        };
        let s = MonoImageOpenStatus::from_raw(status);
        if !s.is_ok() {
            return Err(MonoError::ImageOpenFailed(s));
        }
        if ptr == 0 {
            return Err(MonoError::ImageOpenFailed(s));
        }
        Ok(MonoAssembly::from_ptr(ptr))
    }

    /// Unloads this assembly from the runtime.
    ///
    /// Call this during ejection after invoking the managed unload method. Using any handle
    /// derived from this assembly after `close` is undefined behavior. `reply` is `Some(())`
    /// once `mono_assembly_close` has run, or `None` when no runtime is bound.
    ///
    /// # Errors
    ///
    /// Returns [`MonoError::Uninitialized`] if the Mono API has not been initialized.
    pub fn close(self, reply: Option<()>) -> (r: Result<(), MonoError>)
        ensures
            value_outcome(r, reply),
    {
        match reply {
            None => Err(MonoError::Uninitialized),
            Some(()) => Ok(()),
        }
    }

    /// Returns the metadata image for this assembly. `reply` is what `mono_assembly_get_image`
    /// returned, or `None` when no runtime is bound.
    ///
    /// # Errors
    ///
    /// Returns [`crate::MonoError::Uninitialized`] if the Mono API has not been initialized.
    pub fn image(self, reply: Option<usize>) -> (r: Result<Option<MonoImage>, MonoError>)
        ensures
            handle_outcome(r, reply),
    {
        match reply {
            None => Err(MonoError::Uninitialized),
            Some(ptr) => Ok(MonoImage::from_ptr(ptr)),
        }
    }
}

} // verus!
