use mono_rt::{MonoType, TypeKind};

#[test]
fn named_discriminants_decode_to_their_variants() {
    let table = [
        (0x00, TypeKind::End),
        (0x01, TypeKind::Void),
        (0x02, TypeKind::Boolean),
        (0x03, TypeKind::Char),
        (0x04, TypeKind::I1),
        (0x05, TypeKind::U1),
        (0x06, TypeKind::I2),
        (0x07, TypeKind::U2),
        (0x08, TypeKind::I4),
        (0x09, TypeKind::U4),
        (0x0a, TypeKind::I8),
        (0x0b, TypeKind::U8),
        (0x0c, TypeKind::R4),
        (0x0d, TypeKind::R8),
        (0x0e, TypeKind::String),
        (0x0f, TypeKind::Ptr),
        (0x10, TypeKind::ByRef),
        (0x11, TypeKind::ValueType),
        (0x12, TypeKind::Class),
        (0x13, TypeKind::Var),
        (0x14, TypeKind::Array),
        (0x15, TypeKind::GenericInst),
        (0x16, TypeKind::TypedByRef),
        (0x18, TypeKind::I),
        (0x19, TypeKind::U),
        (0x1b, TypeKind::FnPtr),
        (0x1c, TypeKind::Object),
        (0x1d, TypeKind::SzArray),
        (0x1e, TypeKind::MVar),
    ];
    for (code, kind) in table {
        assert_eq!(TypeKind::from(code), kind);
    }
}

#[test]
fn gaps_and_large_values_decode_to_other() {
    assert_eq!(TypeKind::from(0x17), TypeKind::Other(0x17));
    assert_eq!(TypeKind::from(0x1a), TypeKind::Other(0x1a));
    assert_eq!(TypeKind::from(0x1f), TypeKind::Other(0x1f));
    assert_eq!(TypeKind::from(0x55), TypeKind::Other(0x55));
    assert_eq!(TypeKind::from(u32::MAX), TypeKind::Other(u32::MAX));
}

#[test]
fn kind_reads_the_runtime_discriminant() {
    let t = MonoType::from_ptr_unchecked(0x1000);
    assert_eq!(t.kind(Some(0x08)).unwrap(), TypeKind::I4);
    assert_eq!(t.kind(Some(0x0c)).unwrap(), TypeKind::R4);
    assert_eq!(t.kind(Some(0x02)).unwrap(), TypeKind::Boolean);
    assert_eq!(t.kind(Some(0x17)).unwrap(), TypeKind::Other(0x17));
}
