//! Bookkeeping of the integration test runner that exercises the bindings against a live
//! runtime: the tally of passed and failed cases, reading its command-line arguments, and the
//! module name it binds the runtime under.
use vstd::prelude::*;

use crate::error::MonoError;
use crate::text::same_text;
use crate::types::type_kind::TypeKind;

verus! {

/// Tally of the cases an integration run has recorded.
pub struct Harness {
    passed: u32,
    failed: u32,
}

impl View for Harness {
    /// The number of passed cases and the number of failed cases.
    type V = (nat, nat);

    closed spec fn view(&self) -> (nat, nat) {
        (self.passed as nat, self.failed as nat)
    }
}

impl Harness {
    /// A tally with no case recorded.
    pub fn new() -> (h: Self)
        ensures
            h@ == (0nat, 0nat),
    {
        Harness { passed: 0, failed: 0 }
    }

    /// Records the outcome of one case: a pass for `Ok`, a failure for any error.
    pub fn record(&mut self, outcome: &Result<(), MonoError>)
        requires
            old(self)@.0 < u32::MAX,
            old(self)@.1 < u32::MAX,
        ensures
            outcome is Ok ==> final(self)@ == (old(self)@.0 + 1, old(self)@.1),
            outcome is Err ==> final(self)@ == (old(self)@.0, old(self)@.1 + 1),
    {
        match outcome {
            Ok(()) => self.passed = self.passed + 1,
            Err(_) => self.failed = self.failed + 1,
        }
    }

    /// The number of cases that passed.
    pub fn passed(&self) -> (n: u32)
        ensures
            n == self@.0,
    {
        self.passed
    }

    /// The number of cases that failed.
    pub fn failed(&self) -> (n: u32)
        ensures
            n == self@.1,
    {
        self.failed
    }

    /// Ends the run: `true` when every recorded case passed.
    #[must_use]
    pub fn finish(self) -> (all_passed: bool)
        ensures
            all_passed == (self@.1 == 0),
    {
        self.failed == 0
    }
}

impl Default for Harness {
    fn default() -> (h: Self)
        ensures
            h@ == (0nat, 0nat),
    {
        Harness::new()
    }
}

/// The tally a fresh harness holds after recording the given outcomes in order, `true`
/// standing for a passed case: the number of passes and the number of failures.
pub open spec fn tally(outcomes: Seq<bool>) -> (nat, nat)
    decreases outcomes.len(),
{
    if outcomes.len() == 0 {
        (0, 0)
    } else {
        let t = tally(outcomes.drop_last());
        if outcomes.last() {
            (t.0 + 1, t.1)
        } else {
            (t.0, t.1 + 1)
        }
    }
}

/// Recording one more outcome moves the tally as `record` moves a harness: one more pass for a
/// passed case, one more failure otherwise.
pub proof fn lemma_tally_push(outcomes: Seq<bool>, passed: bool)
    ensures
        tally(outcomes.push(passed)) == (if passed {
            (tally(outcomes).0 + 1, tally(outcomes).1)
        } else {
            (tally(outcomes).0, tally(outcomes).1 + 1)
        }),
{
    assert(outcomes.push(passed).drop_last() == outcomes);
}

/// A run ends in success exactly when every recorded case passed: after any sequence of
/// outcomes, the tally counts every case once, and it holds no failure exactly when all the
/// outcomes were passes. (`Harness::new` starts at `tally(seq![])`, each `record` moves from
/// `tally(os)` to `tally(os.push(o))`, and `finish` reports whether the failures are zero.)
pub proof fn lemma_run_succeeds_iff_all_passed(outcomes: Seq<bool>)
    ensures
        tally(outcomes).0 + tally(outcomes).1 == outcomes.len(),
        tally(outcomes).1 == 0 <==> forall|i: int| 0 <= i < outcomes.len() ==> #[trigger] outcomes[i],
    decreases outcomes.len(),
{
    if outcomes.len() > 0 {
        let init = outcomes.drop_last();
        lemma_run_succeeds_iff_all_passed(init);
        if tally(outcomes).1 == 0 {
            assert forall|i: int| 0 <= i < outcomes.len() implies #[trigger] outcomes[i] by {
                if i < outcomes.len() - 1 {
                    assert(init[i] == outcomes[i]);
                }
            }
        }
        if forall|i: int| 0 <= i < outcomes.len() ==> #[trigger] outcomes[i] {
            assert(outcomes[outcomes.len() - 1]);
            assert forall|i: int| 0 <= i < init.len() implies #[trigger] init[i] by {
                assert(outcomes[i] == init[i]);
            }
        }
    }
}

/// The message a missing command-line argument is reported with.
pub open spec fn missing_argument_message(name: Seq<char>) -> Seq<char> {
    "missing argument: "@ + name
}

/// The command-line argument at `index`, or the message that reports it missing under `name`.
pub fn arg(args: &Vec<String>, index: usize, name: &str) -> (r: Result<String, String>)
    ensures
        index < args@.len() ==> (r matches Ok(v) && v@ == args@[index as int]@),
        index >= args@.len() ==> (r matches Err(m) && m@ == missing_argument_message(name@)),
{
    if index < args.len() {
        Ok(args[index].clone())
    } else {
        Err(String::from_str("missing argument: ").concat(name))
    }
}

/// The value a navigation step produced; a missing value fails the case. The runner reports
/// every failed check as `Uninitialized`.
pub fn require<T>(opt: Option<T>) -> (r: Result<T, MonoError>)
    ensures
        match opt {
            Some(v) => r == Ok::<T, MonoError>(v),
            None => r == Err::<T, MonoError>(MonoError::Uninitialized),
        },
{
    match opt {
        Some(v) => Ok(v),
        None => Err(MonoError::Uninitialized),
    }
}

/// Passes when `cond` holds.
pub fn assert_true(cond: bool) -> (r: Result<(), MonoError>)
    ensures
        cond ==> r == Ok::<(), MonoError>(()),
        !cond ==> r == Err::<(), MonoError>(MonoError::Uninitialized),
{
    if cond {
        Ok(())
    } else {
        Err(MonoError::Uninitialized)
    }
}

/// Passes when the two kinds are the same.
pub fn assert_eq_kind(actual: TypeKind, expected: TypeKind) -> (r: Result<(), MonoError>)
    ensures
        actual == expected ==> r == Ok::<(), MonoError>(()),
        actual != expected ==> r == Err::<(), MonoError>(MonoError::Uninitialized),
{
    assert_true(actual == expected)
}

/// Passes when the two strings hold the same text.
pub fn assert_eq_str(actual: &str, expected: &str) -> (r: Result<(), MonoError>)
    ensures
        actual@ == expected@ ==> r == Ok::<(), MonoError>(()),
        actual@ != expected@ ==> r == Err::<(), MonoError>(MonoError::Uninitialized),
{
    assert_true(same_text(actual, expected))
}

/// Passes when the two counts are equal.
pub fn assert_eq_usize(actual: usize, expected: usize) -> (r: Result<(), MonoError>)
    ensures
        actual == expected ==> r == Ok::<(), MonoError>(()),
        actual != expected ==> r == Err::<(), MonoError>(MonoError::Uninitialized),
{
    assert_true(actual == expected)
}

/// The final component of `path` as `std::path::Path::file_name` reads it, on the platform the
/// crate is built for: `None` when the path has no such component (it is empty, a root, or
/// ends in `..`).
pub uninterp spec fn path_file_name(path: Seq<char>) -> Option<Seq<char>>;

/// Calls `std::path::Path::file_name` on `path` and copies the component out. The contract
/// names the result by the path; which separators and prefixes split it is left to std.
#[verifier::external_body]
fn file_name_of(path: &str) -> (name: Option<String>)
    ensures
        match name {
            Some(n) => path_file_name(path@) == Some(n@),
            None => path_file_name(path@) is None,
        },
{
    match std::path::Path::new(path).file_name() {
        Some(n) => Some(n.to_string_lossy().into_owned()),
        None => None,
    }
}

/// The module name under which a runtime loaded from `path` is bound: the file name of the
/// path, or the empty string when it has none.
pub fn dll_stem(path: &str) -> (stem: String)
    ensures
        stem@ == match path_file_name(path@) {
            Some(n) => n,
            None => Seq::<char>::empty(),
        },
{
    stem_from_file_name(file_name_of(path))
}

/// The module name made from the file name of a path: the name itself, or the empty string
/// when the path has none.
pub fn stem_from_file_name(name: Option<String>) -> (stem: String)
    ensures
        stem@ == match name {
            Some(n) => n@,
            None => Seq::<char>::empty(),
        },
{
    match name {
        Some(n) => n,
        None => String::new(),
    }
}

} // verus!
