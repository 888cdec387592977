// No runtime is ever bound in this suite: every runtime reply is `None`, as it is before
// init() has succeeded.

use mono_rt::{
    ImageSearch, MonoArray, MonoAssembly, MonoClass, MonoClassField, MonoDomain, MonoError,
    MonoImage, MonoMethod, MonoObject, MonoString, MonoType,
};

fn fake_ptr() -> usize {
    std::mem::align_of::<u8>()
}

// MonoDomain

#[test]
fn domain_root_requires_init() {
    assert!(matches!(MonoDomain::root(None), Err(MonoError::Uninitialized)));
}

#[test]
fn domain_open_assembly_requires_init() {
    let domain = MonoDomain::from_ptr_unchecked(fake_ptr());
    assert!(matches!(
        domain.open_assembly("Assembly-CSharp.dll", None),
        Err(MonoError::Uninitialized)
    ));
}

// MonoImage

#[test]
fn image_find_requires_init() {
    assert!(matches!(
        MonoImage::find(ImageSearch::new("Assembly-CSharp"), None),
        Err(MonoError::Uninitialized)
    ));
}

#[test]
fn image_class_from_name_requires_init() {
    let image = MonoImage::from_ptr_unchecked(fake_ptr());
    assert!(matches!(
        image.class_from_name("", "Player", None),
        Err(MonoError::Uninitialized)
    ));
}

// MonoAssembly

#[test]
fn assembly_image_requires_init() {
    let assembly = MonoAssembly::from_ptr_unchecked(fake_ptr());
    assert!(matches!(assembly.image(None), Err(MonoError::Uninitialized)));
}

// MonoClass

#[test]
fn class_field_lookup_requires_init() {
    let cls = MonoClass::from_ptr_unchecked(fake_ptr());
    assert!(matches!(
        cls.field("health", None),
        Err(MonoError::Uninitialized)
    ));
}

#[test]
fn class_method_lookup_requires_init() {
    let cls = MonoClass::from_ptr_unchecked(fake_ptr());
    assert!(matches!(
        cls.method("Update", None, None),
        Err(MonoError::Uninitialized)
    ));
}

#[test]
fn class_method_with_arity_requires_init() {
    let cls = MonoClass::from_ptr_unchecked(fake_ptr());
    assert!(matches!(
        cls.method("TakeDamage", Some(1), None),
        Err(MonoError::Uninitialized)
    ));
}

#[test]
fn class_mono_type_requires_init() {
    let cls = MonoClass::from_ptr_unchecked(fake_ptr());
    assert!(matches!(cls.get_type(None), Err(MonoError::Uninitialized)));
}

#[test]
fn class_vtable_requires_init() {
    let cls = MonoClass::from_ptr_unchecked(fake_ptr());
    let domain = MonoDomain::from_ptr_unchecked(fake_ptr());
    assert!(matches!(
        cls.get_vtable(domain, None),
        Err(MonoError::Uninitialized)
    ));
}

#[test]
fn class_new_object_requires_init() {
    let cls = MonoClass::from_ptr_unchecked(fake_ptr());
    let domain = MonoDomain::from_ptr_unchecked(fake_ptr());
    assert!(matches!(
        cls.new_object(domain, None),
        Err(MonoError::Uninitialized)
    ));
}

#[test]
fn class_fields_requires_init() {
    let cls = MonoClass::from_ptr_unchecked(fake_ptr());
    assert!(matches!(cls.fields(None), Err(MonoError::Uninitialized)));
}

#[test]
fn class_methods_requires_init() {
    let cls = MonoClass::from_ptr_unchecked(fake_ptr());
    assert!(matches!(cls.methods(None), Err(MonoError::Uninitialized)));
}

// MonoClassField

#[test]
fn field_offset_requires_init() {
    let field = MonoClassField::from_ptr_unchecked(fake_ptr());
    assert!(matches!(field.offset(None), Err(MonoError::Uninitialized)));
}

#[test]
fn field_name_requires_init() {
    let field = MonoClassField::from_ptr_unchecked(fake_ptr());
    assert!(matches!(field.name(None), Err(MonoError::Uninitialized)));
}

#[test]
fn field_mono_type_requires_init() {
    let field = MonoClassField::from_ptr_unchecked(fake_ptr());
    assert!(matches!(field.mono_type(None), Err(MonoError::Uninitialized)));
}

// MonoMethod

#[test]
fn method_name_requires_init() {
    let method = MonoMethod::from_ptr_unchecked(fake_ptr());
    assert!(matches!(method.name(None), Err(MonoError::Uninitialized)));
}

#[test]
fn method_invoke_requires_init() {
    let method = MonoMethod::from_ptr_unchecked(fake_ptr());
    let result = method.invoke(None);
    assert!(matches!(result, Err(MonoError::Uninitialized)));
}

// MonoObject

#[test]
fn object_unbox_requires_init() {
    let obj = MonoObject::from_ptr_unchecked(fake_ptr());
    assert!(matches!(obj.unbox(None), Err(MonoError::Uninitialized)));
}

// MonoArray

#[test]
fn array_len_requires_init() {
    let arr = MonoArray::from_ptr_unchecked(fake_ptr());
    assert!(matches!(arr.len(None), Err(MonoError::Uninitialized)));
}

#[test]
fn array_is_empty_requires_init() {
    let arr = MonoArray::from_ptr_unchecked(fake_ptr());
    assert!(matches!(arr.is_empty(None), Err(MonoError::Uninitialized)));
}

#[test]
fn array_addr_requires_init() {
    let arr = MonoArray::from_ptr_unchecked(fake_ptr());
    assert!(matches!(arr.addr(4, 0, None), Err(MonoError::Uninitialized)));
}

// MonoString

#[test]
fn string_new_with_valid_text_requires_init() {
    let domain = MonoDomain::from_ptr_unchecked(fake_ptr());
    assert!(matches!(
        MonoString::new(domain, "hello", None),
        Err(MonoError::Uninitialized)
    ));
}

#[test]
fn string_to_string_lossy_requires_init() {
    let s = MonoString::from_ptr_unchecked(fake_ptr());
    assert!(matches!(s.to_string_lossy(None), Err(MonoError::Uninitialized)));
}

// MonoType

#[test]
fn mono_type_kind_requires_init() {
    let t = MonoType::from_ptr_unchecked(fake_ptr());
    assert!(matches!(t.kind(None), Err(MonoError::Uninitialized)));
}

#[test]
fn mono_type_object_requires_init() {
    let t = MonoType::from_ptr_unchecked(fake_ptr());
    let domain = MonoDomain::from_ptr_unchecked(fake_ptr());
    assert!(matches!(t.object(domain, None), Err(MonoError::Uninitialized)));
}
