use std::marker::PhantomData;
use std::rc::Rc;

use vstd::prelude::*;
use vstd::utf8::encode_utf8;

use crate::error::MonoError;
use crate::text::{c_string, has_interior_null, lemma_strict_text_of_encoding, same_text, strict_str, strict_text, text_from_reply, text_outcome};
use crate::types::class::MonoClass;
use crate::types::image_open_status::MonoImageOpenStatus;
use crate::types::lookup_outcome;

verus! {

/// A handle to the metadata image of an assembly (`MonoImage*`), held by its address in the runtime.
///
/// A handle is never null. It is a plain address: `Copy`, and meaningful only while the
/// runtime keeps the object it names alive, on a thread attached to the runtime. It is neither
/// `Send` nor `Sync`: a handle stays on the thread that obtained it, since only attached
/// threads may use it.
#[derive(Clone, Copy, Debug)]
pub struct MonoImage {
    addr: usize,
    thread_bound: PhantomData<Rc<()>>,
}

impl View for MonoImage {
    type V = usize;

    closed spec fn view(&self) -> usize {
        self.addr
    }
}

impl MonoImage {
    #[verifier::type_invariant]
    spec fn non_null(self) -> bool {
        self.addr != 0
    }

    /// The address this handle stands for; never zero.
    #[must_use]
    pub fn as_ptr(self) -> (ptr: usize)
        ensures
            ptr == self@,
            ptr != 0,
    {
        proof {
            use_type_invariant(self);
        }
        self.addr
    }

    /// The handle at `ptr`, or `None` for a null address.
    #[must_use]
    pub fn from_ptr(ptr: usize) -> (h: Option<Self>)
        ensures
            h is None <==> ptr == 0,
            h matches Some(h) ==> h@ == ptr,
    {
        if ptr == 0 {
            None
        } else {
            Some(Self { addr: ptr, thread_bound: PhantomData })
        }
    }

    /// The handle at `ptr`, which must not be null.
    #[must_use]
    pub fn from_ptr_unchecked(ptr: usize) -> (h: Self)
        requires
            ptr != 0,
        ensures
            h@ == ptr,
    {
        Self { addr: ptr, thread_bound: PhantomData }
    }

    /// A handle is nothing but its address: two handles at the same address are the same
    /// handle, whichever of `from_ptr` and `from_ptr_unchecked` made them.
    pub proof fn lemma_same_address(a: Self, b: Self)
        requires
            a@ == b@,
        ensures
            a == b,
    {
    }

    /// Finishes the search for a loaded image by name. `search` has been shown every loaded
    /// assembly in turn (see [`ImageSearch`]); `reply` is `Some(())` once
    /// `mono_assembly_foreach` has walked them, or `None` when no runtime was bound.
    ///
    /// # Errors
    ///
    /// Returns [`MonoError::Uninitialized`] if the Mono API has not been initialized.
    pub fn find(search: ImageSearch, reply: Option<()>) -> (r: Result<Option<Self>, MonoError>)
        ensures
            reply is None || search@.2 ==> r == Err::<Option<Self>, MonoError>(
                MonoError::Uninitialized,
            ),
            reply is Some && !search@.2 ==> (r matches Ok(found) && match found {
                None => search@.1 is None,
                Some(image) => search@.1 == Some(image@),
            }),
    {
        match reply {
            None => Err(MonoError::Uninitialized),
            Some(()) => {
                if search.api_failed {
                    return Err(MonoError::Uninitialized);
                }
                Ok(search.found)
            },
        }
    }

    /// Resolves a class in this image by namespace and name. `reply` is what
    /// `mono_class_from_name` returned for the C strings of both, or `None` when no runtime is
    /// bound.
    ///
    /// # Errors
    ///
    /// Returns [`MonoError::NullByteInName`] if `namespace` or `name` contain an interior null byte.
    /// Returns [`MonoError::Uninitialized`] if the Mono API has not been initialized.
    pub fn class_from_name(self, namespace: &str, name: &str, reply: Option<usize>) -> (r: Result<
        Option<MonoClass>,
        MonoError,
    >)
        ensures
            has_interior_null(namespace@) ==> r == Err::<Option<MonoClass>, MonoError>(
                MonoError::NullByteInName,
            ),
            !has_interior_null(namespace@) ==> lookup_outcome(r, name@, reply),
    {
        let _namespace = c_string(namespace)?;
        let _name = c_string(name)?;
        match reply {
            None => Err(MonoError::Uninitialized),
            Some(ptr) => Ok(MonoClass::from_ptr(ptr)),
        }
    }

    /// Interprets an image opened from an in-memory assembly. `reply` is what
    /// `mono_image_open_from_data` returned together with the status it wrote, or `None` when
    /// no runtime is bound.
    ///
    /// # Errors
    ///
    /// Returns [`MonoError::ImageOpenFailed`] if Mono rejects the data.
    /// Returns [`MonoError::Uninitialized`] if the Mono API has not been initialized.
    pub fn open_from_data(reply: Option<(usize, i32)>) -> (r: Result<Self, MonoError>)
        ensures
            match reply {
                None => r == Err::<Self, MonoError>(MonoError::Uninitialized),
                Some((ptr, status)) => {
                    let s = MonoImageOpenStatus::decoded(status);
                    if s != MonoImageOpenStatus::Success || ptr == 0 {
                        r == Err::<Self, MonoError>(MonoError::ImageOpenFailed(s))
                    } else {
                        r matches Ok(image) && image@ == ptr
                    }
                },
            },
    {
        let (ptr, status) = match reply {
            None => return Err(MonoError::Uninitialized),
            Some(answer) => answer,
        };
        let s = MonoImageOpenStatus::from_raw(status);
        if !s.is_ok() || ptr == 0 {
            return Err(MonoError::ImageOpenFailed(s));
        }
        Ok(Self::from_ptr_unchecked(ptr))
    }

    /// Returns Mono's own message for an image open status. `reply` is the C string
    /// `mono_image_strerror` returned (`None` inside for a null answer), or `None` when no
    /// runtime is bound.
    ///
    /// # Errors
    ///
    /// Returns [`MonoError::Uninitialized`] if the Mono API has not been initialized.
    pub fn open_status_message(reply: Option<Option<Vec<u8>>>) -> (r: Result<String, MonoError>)
        ensures
            text_outcome(r, reply),
    {
        text_from_reply(reply)
    }
}

/// What to ask the runtime next while searching the loaded assemblies for an image.
#[derive(Debug, Clone, Copy, PartialEq, Eq, Structural)]
pub enum SearchStep {
    /// Nothing more about this assembly.
    Skip,
    /// Ask for the assembly's image (`mono_assembly_get_image`).
    GetImage,
    /// Ask for the name of the image at this address (`mono_image_get_name`).
    GetName(usize),
}

/// The search of `MonoImage::find`, fed one loaded assembly at a time as
/// `mono_assembly_foreach` walks them.
///
/// The first image whose name reads as the target wins; later assemblies are not examined.
/// A name that is not valid UTF-8 reads as the empty string. If the runtime is found unbound
/// during the walk, the search is marked failed.
pub struct ImageSearch {
    target: String,
    found: Option<MonoImage>,
    api_failed: bool,
}

impl View for ImageSearch {
    /// The target name, the address of the image found so far, and whether the runtime was
    /// found unbound during the walk.
    type V = (Seq<char>, Option<usize>, bool);

    closed spec fn view(&self) -> (Seq<char>, Option<usize>, bool) {
        (
            self.target@,
            match self.found {
                Some(image) => Some(image@),
                None => None,
            },
            self.api_failed,
        )
    }
}

/// The state of a search after it has been shown one assembly: `bound` tells whether the
/// runtime was bound, `image` is the assembly's image address and `name` the bytes of that
/// image's name (`None` for a null name).
pub open spec fn visited(
    s: (Seq<char>, Option<usize>, bool),
    bound: bool,
    image: usize,
    name: Option<Seq<u8>>,
) -> (Seq<char>, Option<usize>, bool) {
    if !bound {
        (s.0, s.1, true)
    } else if s.1 is Some || image == 0 {
        s
    } else {
        match name {
            Some(bytes) => if strict_text(bytes) == s.0 {
                (s.0, Some(image), s.2)
            } else {
                s
            },
            None => s,
        }
    }
}

/// `true` when the image of a loaded assembly answers the search for `target`: its address is
/// not null and its name is present and reads as `target`.
pub open spec fn answers_search(target: Seq<char>, image: usize, name: Option<Seq<u8>>) -> bool {
    &&& image != 0
    &&& name matches Some(bytes) && strict_text(bytes) == target
}

/// The state of a search after it has been shown the given assemblies in order, each as
/// (whether the runtime was bound, image address, name bytes).
pub open spec fn walked(
    s: (Seq<char>, Option<usize>, bool),
    shown: Seq<(bool, usize, Option<Seq<u8>>)>,
) -> (Seq<char>, Option<usize>, bool)
    decreases shown.len(),
{
    if shown.len() == 0 {
        s
    } else {
        walked(visited(s, shown[0].0, shown[0].1, shown[0].2), shown.drop_first())
    }
}

/// The search finds the first loaded assembly whose image answers it: after a walk over
/// assemblies during which the runtime stayed bound, a fresh search holds the image of the
/// first assembly that answers the target, or nothing when none does; the target is kept and
/// the search is not failed.
pub proof fn lemma_search_finds_first(
    target: Seq<char>,
    shown: Seq<(bool, usize, Option<Seq<u8>>)>,
)
    requires
        forall|i: int| 0 <= i < shown.len() ==> (#[trigger] shown[i]).0,
    ensures
        ({
            let s = walked((target, None::<usize>, false), shown);
            &&& s.0 == target
            &&& !s.2
            &&& match s.1 {
                Some(image) => exists|i: int|
                    0 <= i < shown.len() && answers_search(target, shown[i].1, shown[i].2)
                        && shown[i].1 == image && forall|j: int|
                        0 <= j < i ==> !answers_search(target, shown[j].1, shown[j].2),
                None => forall|i: int|
                    0 <= i < shown.len() ==> !answers_search(target, #[trigger] shown[i].1, shown[i].2),
            }
        }),
    decreases shown.len(),
{
    if shown.len() > 0 {
        let first = shown[0];
        let rest = shown.drop_first();
        assert forall|i: int| 0 <= i < rest.len() implies (#[trigger] rest[i]).0 by {
            assert(rest[i] == shown[i + 1]);
        }
        let next = visited((target, None::<usize>, false), first.0, first.1, first.2);
        if answers_search(target, first.1, first.2) {
            assert(next == (target, Some(first.1), false));
            lemma_found_stays(next, rest);
            assert(answers_search(target, shown[0].1, shown[0].2));
        } else {
            assert(next == (target, None::<usize>, false));
            lemma_search_finds_first(target, rest);
            let s = walked(next, rest);
            match s.1 {
                Some(image) => {
                    let i = choose|i: int|
                        0 <= i < rest.len() && answers_search(target, rest[i].1, rest[i].2)
                            && rest[i].1 == image && forall|j: int|
                            0 <= j < i ==> !answers_search(target, rest[j].1, rest[j].2);
                    assert(shown[i + 1] == rest[i]);
                    assert forall|j: int| 0 <= j < i + 1 implies !answers_search(
                        target,
                        shown[j].1,
                        shown[j].2,
                    ) by {
                        if j > 0 {
                            assert(shown[j] == rest[j - 1]);
                        }
                    }
                },
                None => {
                    assert forall|i: int| 0 <= i < shown.len() implies !answers_search(
                        target,
                        #[trigger] shown[i].1,
                        shown[i].2,
                    ) by {
                        if i > 0 {
                            assert(shown[i] == rest[i - 1]);
                        }
                    }
                },
            }
        }
    }
}

/// A search for the exact name of a loaded image finds an image: when, during a walk in which
/// the runtime stayed bound, some assembly has a non-null image whose name holds the UTF-8
/// bytes of the target, whatever characters the target holds, the search ends holding the
/// image of the first assembly whose name reads as the target.
pub proof fn lemma_search_finds_named_image(
    target: Seq<char>,
    shown: Seq<(bool, usize, Option<Seq<u8>>)>,
    k: int,
)
    requires
        forall|i: int| 0 <= i < shown.len() ==> (#[trigger] shown[i]).0,
        0 <= k < shown.len(),
        shown[k].1 != 0,
        shown[k].2 == Some(encode_utf8(target)),
    ensures
        walked((target, None::<usize>, false), shown).1 is Some,
        !walked((target, None::<usize>, false), shown).2,
{
    lemma_strict_text_of_encoding(target);
    assert(answers_search(target, shown[k].1, shown[k].2));
    lemma_search_finds_first(target, shown);
}

/// A search holds only an image whose name reads exactly as the target: the image it ends
/// with belongs to one of the assemblies shown, is not null, and has a name whose bytes read
/// as the target (for well-formed UTF-8, the text they encode).
pub proof fn lemma_search_holds_named_image(
    target: Seq<char>,
    shown: Seq<(bool, usize, Option<Seq<u8>>)>,
)
    requires
        forall|i: int| 0 <= i < shown.len() ==> (#[trigger] shown[i]).0,
    ensures
        walked((target, None::<usize>, false), shown).1 matches Some(image) ==> exists|i: int|
            0 <= i < shown.len() && #[trigger] shown[i].1 == image && image != 0 && shown[i].2
                is Some && strict_text(shown[i].2->0) == target,
{
    lemma_search_finds_first(target, shown);
    let s = walked((target, None::<usize>, false), shown);
    if s.1 is Some {
        let image = s.1->0;
        let i = choose|i: int|
            0 <= i < shown.len() && answers_search(target, shown[i].1, shown[i].2)
                && shown[i].1 == image && forall|j: int|
                0 <= j < i ==> !answers_search(target, shown[j].1, shown[j].2);
        assert(shown[i].1 == image);
    }
}

/// Once a search holds an image, walking further assemblies while the runtime stays bound
/// keeps it unchanged.
proof fn lemma_found_stays(
    s: (Seq<char>, Option<usize>, bool),
    shown: Seq<(bool, usize, Option<Seq<u8>>)>,
)
    requires
        s.1 is Some,
        forall|i: int| 0 <= i < shown.len() ==> (#[trigger] shown[i]).0,
    ensures
        walked(s, shown) == s,
    decreases shown.len(),
{
    if shown.len() > 0 {
        let rest = shown.drop_first();
        assert forall|i: int| 0 <= i < rest.len() implies (#[trigger] rest[i]).0 by {
            assert(rest[i] == shown[i + 1]);
        }
        assert(shown[0].0);
        lemma_found_stays(s, rest);
    }
}

impl ImageSearch {
    /// A search for the image named `target` that has seen no assembly yet.
    pub fn new(target: &str) -> (s: Self)
        ensures
            s@ == (target@, None::<usize>, false),
    {
        ImageSearch { target: String::from_str(target), found: None, api_failed: false }
    }

    /// Starts on the next assembly. `bound` tells whether the runtime is bound; the answer is
    /// `GetImage` unless the runtime is unbound (which marks the search failed) or an image
    /// has already been found.
    pub fn begin_assembly(&mut self, bound: bool) -> (step: SearchStep)
        ensures
            !bound ==> step == SearchStep::Skip && final(self)@ == visited(old(self)@, false, 0, None),
            bound ==> final(self)@ == old(self)@,
            bound ==> (step == SearchStep::GetImage <==> old(self)@.1 is None),
            bound ==> (step == SearchStep::Skip <==> old(self)@.1 is Some),
    {
        if !bound {
            self.api_failed = true;
            return SearchStep::Skip;
        }
        if self.found.is_some() {
            return SearchStep::Skip;
        }
        SearchStep::GetImage
    }

    /// Takes the image address the runtime answered for the current assembly; the answer is
    /// `GetName` of that address unless it is null.
    pub fn image_answer(&self, image: usize) -> (step: SearchStep)
        ensures
            image == 0 ==> step == SearchStep::Skip,
            image != 0 ==> step == SearchStep::GetName(image),
    {
        if image == 0 {
            SearchStep::Skip
        } else {
            SearchStep::GetName(image)
        }
    }

    /// Takes the name the runtime answered for the image at `image`: the bytes it points at,
    /// or `None` for a null name. The image is recorded when its name reads as the target and
    /// no image has been recorded yet.
    pub fn name_answer(&mut self, image: usize, name: Option<Vec<u8>>)
        requires
            image != 0,
        ensures
            final(self)@ == visited(
                old(self)@,
                true,
                image,
                match name {
                    Some(bytes) => Some(bytes@),
                    None => None,
                },
            ),
    {
        if self.found.is_some() {
            return;
        }
        if let Some(bytes) = name {
            let text = strict_str(bytes.as_slice());
            if same_text(text, self.target.as_str()) {
                self.found = Some(MonoImage::from_ptr_unchecked(image));
            }
        }
    }
}

} // verus!
