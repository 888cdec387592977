use vstd::prelude::*;

verus! {

/// Mirrors `MonoImageOpenStatus` from `mono/metadata/image.h` (`MONO_IMAGE_OK` is `Success`).
///
/// Used as an output parameter by [`crate::MonoImage::open_from_data`] and
/// [`crate::MonoAssembly::load_from_image`]. Any variant other than `Success` means the load failed.
#[derive(Debug, Clone, Copy, PartialEq, Eq, Structural)]
pub enum MonoImageOpenStatus {
    Success,
    ErrorErrno,
    MissingAssemblyRef,
    ImageInvalid,
}

impl MonoImageOpenStatus {
    /// The C enum value Mono uses for this status.
    pub open spec fn code(self) -> i32 {
        match self {
            MonoImageOpenStatus::Success => 0,
            MonoImageOpenStatus::ErrorErrno => 1,
            MonoImageOpenStatus::MissingAssemblyRef => 2,
            MonoImageOpenStatus::ImageInvalid => 3,
        }
    }

    /// The status a raw C enum value stands for; values Mono does not define read as
    /// `ImageInvalid`.
    pub open spec fn decoded(v: i32) -> MonoImageOpenStatus {
        if v == 0 {
            MonoImageOpenStatus::Success
        } else if v == 1 {
            MonoImageOpenStatus::ErrorErrno
        } else if v == 2 {
            MonoImageOpenStatus::MissingAssemblyRef
        } else {
            MonoImageOpenStatus::ImageInvalid
        }
    }

    /// The human-readable message of a status.
    pub open spec fn message(self) -> Seq<char> {
        match self {
            MonoImageOpenStatus::Success => "ok"@,
            MonoImageOpenStatus::ErrorErrno => "errno error"@,
            MonoImageOpenStatus::MissingAssemblyRef => "missing assembly reference"@,
            MonoImageOpenStatus::ImageInvalid => "invalid image"@,
        }
    }

    /// Converts a raw C enum integer to the corresponding variant.
    ///
    /// Unknown values map to `ImageInvalid` rather than panicking.
    #[must_use]
    pub fn from_raw(v: i32) -> (s: Self)
        ensures
            s == Self::decoded(v),
    {
        match v {
            0 => Self::Success,
            1 => Self::ErrorErrno,
            2 => Self::MissingAssemblyRef,
            _ => Self::ImageInvalid,
        }
    }

    /// Returns `true` when the status indicates success.
    #[must_use]
    pub fn is_ok(self) -> (r: bool)
        ensures
            r == (self == MonoImageOpenStatus::Success),
    {
        matches!(self, Self::Success)
    }

    /// The human-readable message of this status.
    pub fn as_str(&self) -> (m: &'static str)
        ensures
            m@ == self.message(),
    {
        match self {
            Self::Success => "ok",
            Self::ErrorErrno => "errno error",
            Self::MissingAssemblyRef => "missing assembly reference",
            Self::ImageInvalid => "invalid image",
        }
    }

    /// The human-readable message of this status, as an owned string.
    pub fn to_string(&self) -> (m: String)
        ensures
            m@ == self.message(),
    {
        String::from_str(self.as_str())
    }
}

/// Decoding a status's own C enum value gives that status back.
pub proof fn lemma_status_round_trip(s: MonoImageOpenStatus)
    ensures
        MonoImageOpenStatus::decoded(s.code()) == s,
{
}

/// A raw status decodes to a success exactly when it is zero.
pub proof fn lemma_status_success_iff_zero(v: i32)
    ensures
        (MonoImageOpenStatus::decoded(v) == MonoImageOpenStatus::Success) <==> v == 0,
{
}

/// The four statuses carry four different messages.
pub proof fn lemma_status_messages_distinct(a: MonoImageOpenStatus, b: MonoImageOpenStatus)
    requires
        a != b,
    ensures
        a.message() != b.message(),
{
    reveal_strlit("ok");
    reveal_strlit("errno error");
    reveal_strlit("missing assembly reference");
    reveal_strlit("invalid image");
    if a.message() == b.message() {
        assert(a.message().len() == b.message().len());
        match a {
            MonoImageOpenStatus::Success => {},
            MonoImageOpenStatus::ErrorErrno => {},
            MonoImageOpenStatus::MissingAssemblyRef => {},
            MonoImageOpenStatus::ImageInvalid => {
                assert(a.message()[0] != b.message()[0]);
            },
        }
    }
}

} // verus!
