use vstd::prelude::*;

verus! {

/// The type discriminant returned by `mono_type_get_type`, corresponding to `MonoTypeEnum` in the
/// Mono source (`mono/metadata/metadata.h`).
///
/// Annotated with `#[non_exhaustive]` so that adding named variants in the future is not a
/// breaking change. The `Other` variant covers any discriminant not yet named here.
#[derive(Clone, Copy, Debug, PartialEq, Eq, Structural, Hash)]
#[non_exhaustive]
pub enum TypeKind {
    /// `MONO_TYPE_END` (0x00) — internal sentinel.
    End,
    /// `MONO_TYPE_VOID` (0x01)
    Void,
    /// `MONO_TYPE_BOOLEAN` (0x02)
    Boolean,
    /// `MONO_TYPE_CHAR` (0x03)
    Char,
    /// `MONO_TYPE_I1` (0x04) — `sbyte`
    I1,
    /// `MONO_TYPE_U1` (0x05) — `byte`
    U1,
    /// `MONO_TYPE_I2` (0x06) — `short`
    I2,
    /// `MONO_TYPE_U2` (0x07) — `ushort`
    U2,
    /// `MONO_TYPE_I4` (0x08) — `int`
    I4,
    /// `MONO_TYPE_U4` (0x09) — `uint`
    U4,
    /// `MONO_TYPE_I8` (0x0a) — `long`
    I8,
    /// `MONO_TYPE_U8` (0x0b) — `ulong`
    U8,
    /// `MONO_TYPE_R4` (0x0c) — `float`
    R4,
    /// `MONO_TYPE_R8` (0x0d) — `double`
    R8,
    /// `MONO_TYPE_STRING` (0x0e)
    String,
    /// `MONO_TYPE_PTR` (0x0f) — unmanaged pointer
    Ptr,
    /// `MONO_TYPE_BYREF` (0x10) — by-reference parameter
    ByRef,
    /// `MONO_TYPE_VALUETYPE` (0x11) — value type / struct
    ValueType,
    /// `MONO_TYPE_CLASS` (0x12) — reference type
    Class,
    /// `MONO_TYPE_VAR` (0x13) — generic type parameter (`T`)
    Var,
    /// `MONO_TYPE_ARRAY` (0x14) — multi-dimensional array
    Array,
    /// `MONO_TYPE_GENERICINST` (0x15) — instantiated generic type
    GenericInst,
    /// `MONO_TYPE_TYPEDBYREF` (0x16) — `TypedReference`
    TypedByRef,
    /// `MONO_TYPE_I` (0x18) — `nint`
    I,
    /// `MONO_TYPE_U` (0x19) — `nuint`
    U,
    /// `MONO_TYPE_FNPTR` (0x1b) — function pointer
    FnPtr,
    /// `MONO_TYPE_OBJECT` (0x1c) — `System.Object`
    Object,
    /// `MONO_TYPE_SZARRAY` (0x1d) — single-dimension zero-based array (most C# arrays)
    SzArray,
    /// `MONO_TYPE_MVAR` (0x1e) — generic method parameter (`M`)
    MVar,
    /// Any discriminant not covered by the named variants above.
    Other(u32),
}

impl TypeKind {
    /// The `MonoTypeEnum` discriminant this kind stands for: the value documented beside each
    /// named variant, or the carried value for `Other`.
    pub open spec fn code(self) -> u32 {
        match self {
            TypeKind::End => 0x00,
            TypeKind::Void => 0x01,
            TypeKind::Boolean => 0x02,
            TypeKind::Char => 0x03,
            TypeKind::I1 => 0x04,
            TypeKind::U1 => 0x05,
            TypeKind::I2 => 0x06,
            TypeKind::U2 => 0x07,
            TypeKind::I4 => 0x08,
            TypeKind::U4 => 0x09,
            TypeKind::I8 => 0x0a,
            TypeKind::U8 => 0x0b,
            TypeKind::R4 => 0x0c,
            TypeKind::R8 => 0x0d,
            TypeKind::String => 0x0e,
            TypeKind::Ptr => 0x0f,
            TypeKind::ByRef => 0x10,
            TypeKind::ValueType => 0x11,
            TypeKind::Class => 0x12,
            TypeKind::Var => 0x13,
            TypeKind::Array => 0x14,
            TypeKind::GenericInst => 0x15,
            TypeKind::TypedByRef => 0x16,
            TypeKind::I => 0x18,
            TypeKind::U => 0x19,
            TypeKind::FnPtr => 0x1b,
            TypeKind::Object => 0x1c,
            TypeKind::SzArray => 0x1d,
            TypeKind::MVar => 0x1e,
            TypeKind::Other(v) => v,
        }
    }

    /// `true` for every kind that has a variant of its own, `false` for `Other`.
    pub open spec fn is_named(self) -> bool {
        !(self is Other)
    }
}

/// `true` when some named variant stands for the discriminant `v`: every value up to `0x1e`
/// except the two gaps `0x17` and `0x1a`.
pub open spec fn is_named_code(v: u32) -> bool {
    v <= 0x1e && v != 0x17 && v != 0x1a
}

/// The kind that decoding `v` yields: the named variant whose discriminant is `v` when there
/// is one, and `Other(v)` otherwise.
pub open spec fn decoded_kind(v: u32) -> TypeKind {
    if exists|k: TypeKind| k.is_named() && k.code() == v {
        choose|k: TypeKind| k.is_named() && k.code() == v
    } else {
        TypeKind::Other(v)
    }
}

impl From<u32> for TypeKind {
    fn from(v: u32) -> (k: Self) {
        let k = match v {
            0x00 => Self::End,
            0x01 => Self::Void,
            0x02 => Self::Boolean,
            0x03 => Self::Char,
            0x04 => Self::I1,
            0x05 => Self::U1,
            0x06 => Self::I2,
            0x07 => Self::U2,
            0x08 => Self::I4,
            0x09 => Self::U4,
            0x0a => Self::I8,
            0x0b => Self::U8,
            0x0c => Self::R4,
            0x0d => Self::R8,
            0x0e => Self::String,
            0x0f => Self::Ptr,
            0x10 => Self::ByRef,
            0x11 => Self::ValueType,
            0x12 => Self::Class,
            0x13 => Self::Var,
            0x14 => Self::Array,
            0x15 => Self::GenericInst,
            0x16 => Self::TypedByRef,
            0x18 => Self::I,
            0x19 => Self::U,
            0x1b => Self::FnPtr,
            0x1c => Self::Object,
            0x1d => Self::SzArray,
            0x1e => Self::MVar,
            other => Self::Other(other),
        };
        proof {
            lemma_decode_unique(v, k);
        }
        k
    }
}

impl vstd::std_specs::convert::FromSpecImpl<u32> for TypeKind {
    open spec fn obeys_from_spec() -> bool {
        true
    }

    open spec fn from_spec(v: u32) -> TypeKind {
        decoded_kind(v)
    }
}

/// Two named kinds with the same discriminant are the same kind.
proof fn lemma_named_code_injective(a: TypeKind, b: TypeKind)
    requires
        a.is_named(),
        b.is_named(),
        a.code() == b.code(),
    ensures
        a == b,
{
}

/// A kind that agrees with the decoding rule on `v` is the decoded kind.
proof fn lemma_decode_unique(v: u32, k: TypeKind)
    requires
        k.code() == v,
        k.is_named() <==> is_named_code(v),
    ensures
        k == decoded_kind(v),
{
    if k.is_named() {
        let c = choose|c: TypeKind| c.is_named() && c.code() == v;
        lemma_named_code_injective(c, k);
    } else {
        if exists|c: TypeKind| c.is_named() && c.code() == v {
            let c = choose|c: TypeKind| c.is_named() && c.code() == v;
            assert(is_named_code(c.code()));
        }
    }
}

/// Decoding never loses the raw discriminant: the kind decoded from any `v` reports `v` back.
pub proof fn lemma_decode_keeps_code(v: u32)
    ensures
        decoded_kind(v).code() == v,
        decoded_kind(v).is_named() <==> is_named_code(v),
{
    if exists|c: TypeKind| c.is_named() && c.code() == v {
        let c = choose|c: TypeKind| c.is_named() && c.code() == v;
        assert(is_named_code(c.code()));
    } else {
        if is_named_code(v) {
            let k = match v {
                0x00 => TypeKind::End,
                0x01 => TypeKind::Void,
                0x02 => TypeKind::Boolean,
                0x03 => TypeKind::Char,
                0x04 => TypeKind::I1,
                0x05 => TypeKind::U1,
                0x06 => TypeKind::I2,
                0x07 => TypeKind::U2,
                0x08 => TypeKind::I4,
                0x09 => TypeKind::U4,
                0x0a => TypeKind::I8,
                0x0b => TypeKind::U8,
                0x0c => TypeKind::R4,
                0x0d => TypeKind::R8,
                0x0e => TypeKind::String,
                0x0f => TypeKind::Ptr,
                0x10 => TypeKind::ByRef,
                0x11 => TypeKind::ValueType,
                0x12 => TypeKind::Class,
                0x13 => TypeKind::Var,
                0x14 => TypeKind::Array,
                0x15 => TypeKind::GenericInst,
                0x16 => TypeKind::TypedByRef,
                0x18 => TypeKind::I,
                0x19 => TypeKind::U,
                0x1b => TypeKind::FnPtr,
                0x1c => TypeKind::Object,
                0x1d => TypeKind::SzArray,
                _ => TypeKind::MVar,
            };
            assert(k.is_named() && k.code() == v);
        }
    }
}

/// Decoding a named kind's discriminant gives that kind back. (`Other(v)` with a named `v` is
/// the one kind that does not survive a round trip: it decodes to the named variant.)
pub proof fn lemma_decode_encode(k: TypeKind)
    requires
        k.is_named() || !is_named_code(k.code()),
    ensures
        decoded_kind(k.code()) == k,
{
    lemma_decode_unique(k.code(), k);
}

} // verus!
