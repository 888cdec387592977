//! Mono handle types and the values the runtime reports about them.
//!
//! Every handle is the address of a runtime object, never null. The functions that would ask
//! the loaded runtime something take what it answered as their last argument, named `reply`:
//! `None` when no runtime is bound (`init` has not succeeded), otherwise `Some` of what the
//! runtime export returned. Addresses travel as `usize`.
use vstd::prelude::*;

use crate::error::MonoError;
use crate::text::has_interior_null;

pub mod array;
pub mod assembly;
pub mod class;
pub mod class_field;
pub mod domain;
pub mod image;
pub mod image_open_status;
pub mod method;
pub mod mono_type;
pub mod object;
pub mod string;
pub mod thread;
pub mod type_kind;
pub mod vtable;

verus! {

/// `true` when `h` is what an address `ptr` returned by the runtime becomes: nothing for a null
/// address, otherwise the handle at that address.
pub open spec fn wraps<H: View<V = usize>>(h: Option<H>, ptr: usize) -> bool {
    match h {
        None => ptr == 0,
        Some(h) => ptr != 0 && h@ == ptr,
    }
}

/// The outcome of a runtime call that answers with an address: `Uninitialized` when no runtime
/// is bound, otherwise the (possibly absent) handle at the address it answered.
pub open spec fn handle_outcome<H: View<V = usize>>(
    r: Result<Option<H>, MonoError>,
    reply: Option<usize>,
) -> bool {
    match reply {
        None => r == Err::<Option<H>, MonoError>(MonoError::Uninitialized),
        Some(ptr) => r matches Ok(h) && wraps(h, ptr),
    }
}

/// The outcome of a lookup by name: `NullByteInName` when the name cannot be a C string,
/// whatever the runtime's state, and otherwise as [`handle_outcome`].
pub open spec fn lookup_outcome<H: View<V = usize>>(
    r: Result<Option<H>, MonoError>,
    name: Seq<char>,
    reply: Option<usize>,
) -> bool {
    if has_interior_null(name) {
        r == Err::<Option<H>, MonoError>(MonoError::NullByteInName)
    } else {
        handle_outcome(r, reply)
    }
}

/// A runtime call answered with an address gives the handle at exactly that address: nothing
/// for a null address, the handle at the address otherwise, and `Uninitialized` only when no
/// runtime answered.
pub proof fn lemma_handle_answer<H: View<V = usize>>(
    r: Result<Option<H>, MonoError>,
    reply: Option<usize>,
)
    requires
        handle_outcome(r, reply),
    ensures
        reply is None ==> r == Err::<Option<H>, MonoError>(MonoError::Uninitialized),
        reply == Some(0usize) ==> r == Ok::<Option<H>, MonoError>(None),
        forall|ptr: usize|
            reply == Some(ptr) && ptr != 0 ==> (r matches Ok(Some(h)) && h@ == ptr),
{
}

/// A lookup by name gives the handle the runtime answered, whatever characters the name
/// holds: a name with a null character is refused before the runtime is asked; any other
/// name (empty, dotted, with backslashes, angle brackets or any other character) gives
/// `Uninitialized` without a runtime, nothing for a null answer, and the handle at exactly
/// the answered address otherwise.
pub proof fn lemma_lookup_answer<H: View<V = usize>>(
    r: Result<Option<H>, MonoError>,
    name: Seq<char>,
    reply: Option<usize>,
)
    requires
        lookup_outcome(r, name, reply),
    ensures
        name.contains('\0') ==> r == Err::<Option<H>, MonoError>(MonoError::NullByteInName),
        !name.contains('\0') && reply is None ==> r == Err::<Option<H>, MonoError>(
            MonoError::Uninitialized,
        ),
        !name.contains('\0') && reply == Some(0usize) ==> r == Ok::<Option<H>, MonoError>(None),
        forall|ptr: usize|
            !name.contains('\0') && reply == Some(ptr) && ptr != 0 ==> (r matches Ok(Some(h))
                && h@ == ptr),
{
}

/// The outcome of a runtime call that answers with a plain value: `Uninitialized` when no
/// runtime is bound, otherwise that value.
pub open spec fn value_outcome<T>(r: Result<T, MonoError>, reply: Option<T>) -> bool {
    match reply {
        None => r == Err::<T, MonoError>(MonoError::Uninitialized),
        Some(v) => r == Ok::<T, MonoError>(v),
    }
}

/// A runtime call answered with a plain value gives exactly that value, and `Uninitialized`
/// only when no runtime answered.
pub proof fn lemma_value_answer<T>(r: Result<T, MonoError>, reply: Option<T>)
    requires
        value_outcome(r, reply),
    ensures
        reply is None ==> r == Err::<T, MonoError>(MonoError::Uninitialized),
        forall|v: T| reply == Some(v) ==> r == Ok::<T, MonoError>(v),
{
}

/// `true` when `hs` are the handles at the answers of an enumeration that runs until the
/// runtime answers null: one handle for each answer before the first null, in order.
pub open spec fn enumerated<H: View<V = usize>>(hs: Seq<H>, answers: Seq<usize>) -> bool {
    &&& hs.len() <= answers.len()
    &&& forall|j: int| 0 <= j < hs.len() ==> answers[j] != 0 && #[trigger] hs[j]@ == answers[j]
    &&& hs.len() == answers.len() || answers[hs.len() as int] == 0
}

/// An enumeration gives one handle per answer, in order, for exactly the answers before the
/// first null one: every answer before it yields the handle at that address, and nothing at
/// or after the first null answer is kept.
pub proof fn lemma_enumeration_answer<H: View<V = usize>>(
    r: Result<Vec<H>, MonoError>,
    reply: Option<Vec<usize>>,
)
    requires
        enumeration_outcome(r, reply),
    ensures
        reply is None ==> (r is Err && r->Err_0 == MonoError::Uninitialized),
        reply is Some ==> r is Ok,
        reply is Some ==> r->Ok_0@.len() <= reply->0@.len(),
        reply is Some ==> (r->Ok_0@.len() == reply->0@.len() || reply->0@[r->Ok_0@.len() as int]
            == 0),
        reply is Some ==> forall|j: int|
            0 <= j < r->Ok_0@.len() ==> #[trigger] r->Ok_0@[j]@ == reply->0@[j],
        reply is Some ==> forall|j: int| 0 <= j < r->Ok_0@.len() ==> #[trigger] reply->0@[j] != 0,
{
    if reply is Some {
        let answers = reply->0@;
        let hs = r->Ok_0@;
        assert(enumerated(hs, answers));
        assert forall|j: int| 0 <= j < hs.len() implies #[trigger] answers[j] != 0 by {
            assert(hs[j]@ == answers[j]);
        }
    }
}

/// A completed enumeration loses nothing: when every answer but the last is an address and
/// the last is null (what [`Enumeration::into_answers`] gives once the enumeration ended),
/// the handles enumerated from the answers are exactly one handle per address, in order.
pub proof fn lemma_completed_enumeration<H: View<V = usize>>(hs: Seq<H>, answers: Seq<usize>)
    requires
        answers.len() > 0,
        answers.last() == 0,
        forall|j: int| 0 <= j < answers.len() - 1 ==> #[trigger] answers[j] != 0,
    ensures
        enumerated(hs, answers) <==> (hs.len() == answers.len() - 1 && forall|j: int|
            0 <= j < hs.len() ==> #[trigger] hs[j]@ == answers[j]),
{
    let last = answers.len() - 1;
    if enumerated(hs, answers) {
        if hs.len() == answers.len() {
            assert(hs[last]@ == answers[last]);
        }
        if hs.len() < last {
            assert(answers[hs.len() as int] != 0);
        }
    }
    if hs.len() == last && forall|j: int| 0 <= j < hs.len() ==> #[trigger] hs[j]@ == answers[j] {
        assert(answers[hs.len() as int] == 0);
        assert(enumerated(hs, answers));
    }
}

/// The outcome of an enumeration: `Uninitialized` when no runtime is bound, otherwise the
/// handles at the answers before the first null.
pub open spec fn enumeration_outcome<H: View<V = usize>>(
    r: Result<Vec<H>, MonoError>,
    reply: Option<Vec<usize>>,
) -> bool {
    match reply {
        None => r is Err && r->Err_0 == MonoError::Uninitialized,
        Some(answers) => r matches Ok(hs) && enumerated(hs@, answers@),
    }
}

/// The answers of an enumeration that the runtime drives with one iterator
/// (`mono_class_get_fields`, `mono_class_get_methods`): it is asked again and again until it
/// answers null.
pub struct Enumeration {
    answers: Vec<usize>,
    finished: bool,
}

impl View for Enumeration {
    /// The answers taken so far, and whether the null answer that ends the enumeration was
    /// among them.
    type V = (Seq<usize>, bool);

    closed spec fn view(&self) -> (Seq<usize>, bool) {
        (self.answers@, self.finished)
    }
}

impl Enumeration {
    #[verifier::type_invariant]
    spec fn ends_at_first_null(self) -> bool {
        &&& forall|j: int|
            0 <= j < self.answers@.len() - 1 ==> #[trigger] self.answers@[j] != 0
        &&& self.finished <==> (self.answers@.len() > 0 && self.answers@.last() == 0)
    }

    /// An enumeration that has taken no answer yet.
    pub fn new() -> (e: Self)
        ensures
            e@ == (Seq::<usize>::empty(), false),
    {
        Enumeration { answers: Vec::new(), finished: false }
    }

    /// Takes the next answer of the runtime and tells whether to ask again: until the first
    /// null answer, which ends the enumeration. Answers after the end are ignored.
    pub fn take(&mut self, answer: usize) -> (more: bool)
        ensures
            old(self)@.1 ==> final(self)@ == old(self)@ && !more,
            !old(self)@.1 ==> final(self)@ == (old(self)@.0.push(answer), answer == 0),
            !old(self)@.1 ==> (more <==> answer != 0),
    {
        proof {
            use_type_invariant(&*self);
        }
        if self.finished {
            return false;
        }
        let mut answers = Vec::new();
        std::mem::swap(&mut answers, &mut self.answers);
        answers.push(answer);
        let finished = answer == 0;
        *self = Enumeration { answers, finished };
        !finished
    }

    /// The answers taken, in order: none is null but possibly the last.
    pub fn into_answers(self) -> (answers: Vec<usize>)
        ensures
            answers@ == self@.0,
            forall|j: int| 0 <= j < answers@.len() - 1 ==> #[trigger] answers@[j] != 0,
    {
        proof {
            use_type_invariant(&self);
        }
        self.answers
    }
}

} // verus!
