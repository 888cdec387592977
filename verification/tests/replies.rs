use mono_rt::{
    Enumeration, MonoArray, MonoAssembly, MonoClass, MonoClassField, MonoDomain, MonoError,
    MonoImage, MonoImageOpenStatus, MonoMethod, MonoObject, MonoString, MonoType, MonoVTable,
};

const ADDR: usize = 0x1000;

#[test]
fn lookups_wrap_the_answered_address() {
    let cls = MonoClass::from_ptr_unchecked(ADDR);
    assert_eq!(cls.field("health", Some(0x2000)).unwrap().unwrap().as_ptr(), 0x2000);
    assert!(cls.field("health", Some(0)).unwrap().is_none());
    assert_eq!(cls.get_field("health", Some(0x2100)).unwrap().unwrap().as_ptr(), 0x2100);
    assert_eq!(
        cls.method("TakeDamage", Some(1), Some(0x3000)).unwrap().unwrap().as_ptr(),
        0x3000
    );
    assert!(cls.get_method("Update", -1, Some(0)).unwrap().is_none());
    let image = MonoImage::from_ptr_unchecked(ADDR);
    assert_eq!(
        image.class_from_name("MonoRtTest", "Player", Some(0x4000)).unwrap().unwrap().as_ptr(),
        0x4000
    );
    let domain = MonoDomain::from_ptr_unchecked(ADDR);
    assert_eq!(
        domain.open_assembly("fixture.dll", Some(0x5000)).unwrap().unwrap().as_ptr(),
        0x5000
    );
    assert_eq!(MonoString::new(domain, "hello", Some(0x6000)).unwrap().unwrap().as_ptr(), 0x6000);
}

#[test]
fn lookup_arity_defaults_to_any_count() {
    assert_eq!(MonoClass::lookup_arity(None), -1);
    assert_eq!(MonoClass::lookup_arity(Some(0)), 0);
    assert_eq!(MonoClass::lookup_arity(Some(3)), 3);
}

#[test]
fn handle_answers_become_optional_handles() {
    let cls = MonoClass::from_ptr_unchecked(ADDR);
    let domain = MonoDomain::from_ptr_unchecked(0x10);
    assert_eq!(cls.get_type(Some(0x20)).unwrap().unwrap().as_ptr(), 0x20);
    assert!(cls.get_vtable(domain, Some(0)).unwrap().is_none());
    assert_eq!(cls.new_object(domain, Some(0x30)).unwrap().unwrap().as_ptr(), 0x30);
    assert_eq!(MonoDomain::root(Some(0x40)).unwrap().unwrap().as_ptr(), 0x40);
    assert!(MonoDomain::root(Some(0)).unwrap().is_none());
    let assembly = MonoAssembly::from_ptr_unchecked(ADDR);
    assert_eq!(assembly.image(Some(0x50)).unwrap().unwrap().as_ptr(), 0x50);
    let obj = MonoObject::from_ptr_unchecked(ADDR);
    assert_eq!(obj.get_class(Some(0x60)).unwrap().unwrap().as_ptr(), 0x60);
    assert!(matches!(obj.get_class(None), Err(MonoError::Uninitialized)));
    assert_eq!(obj.unbox(Some(0x1010)).unwrap(), 0x1010);
    let t = MonoType::from_ptr_unchecked(ADDR);
    assert_eq!(t.object(domain, Some(0x70)).unwrap().unwrap().as_ptr(), 0x70);
}

#[test]
fn plain_answers_pass_through() {
    let field = MonoClassField::from_ptr_unchecked(ADDR);
    assert_eq!(field.offset(Some(16)).unwrap(), 16);
    assert_eq!(field.name(Some(Some(b"health".to_vec()))).unwrap(), "health");
    assert_eq!(field.name(Some(None)).unwrap(), "");
    assert_eq!(field.mono_type(Some(0x80)).unwrap().unwrap().as_ptr(), 0x80);
    let vtable = MonoVTable::from_ptr_unchecked(0x90);
    assert!(field.static_value(vtable, Some(())).is_ok());
    assert!(matches!(field.static_value(vtable, None), Err(MonoError::Uninitialized)));
    let array = MonoArray::from_ptr_unchecked(ADDR);
    assert_eq!(array.len(Some(4)).unwrap(), 4);
    assert!(!array.is_empty(Some(4)).unwrap());
    assert!(array.is_empty(Some(0)).unwrap());
    assert_eq!(array.addr(4, 2, Some(0x2008)).unwrap(), 0x2008);
    let s = MonoString::from_ptr_unchecked(ADDR);
    assert_eq!(s.to_string_lossy(Some(Some(b"hello".to_vec()))).unwrap(), "hello");
    assert_eq!(s.to_string_lossy(Some(None)).unwrap(), "");
    let method = MonoMethod::from_ptr_unchecked(ADDR);
    assert_eq!(method.name(Some(Some(b"TakeDamage".to_vec()))).unwrap(), "TakeDamage");
    let cls = MonoClass::from_ptr_unchecked(ADDR);
    assert_eq!(cls.name(Some(Some(b"Player".to_vec()))).unwrap(), "Player");
}

#[test]
fn enumerations_stop_at_the_first_null() {
    let cls = MonoClass::from_ptr_unchecked(ADDR);
    let fields = cls.fields(Some(vec![0x10, 0x20, 0, 0x30])).unwrap();
    let addrs: Vec<usize> = fields.iter().map(|f| f.as_ptr()).collect();
    assert_eq!(addrs, vec![0x10, 0x20]);
    let methods = cls.methods(Some(vec![0x40])).unwrap();
    assert_eq!(methods.len(), 1);
    assert_eq!(methods[0].as_ptr(), 0x40);
    assert!(cls.methods(Some(vec![0])).unwrap().is_empty());
    assert!(cls.fields(Some(vec![])).unwrap().is_empty());
}

#[test]
fn enumeration_asks_until_null() {
    let mut e = Enumeration::new();
    assert!(e.take(0x10));
    assert!(e.take(0x20));
    assert!(!e.take(0));
    assert!(!e.take(0x30));
    let answers = e.into_answers();
    assert_eq!(answers, vec![0x10, 0x20, 0]);
    let cls = MonoClass::from_ptr_unchecked(ADDR);
    assert_eq!(cls.fields(Some(answers)).unwrap().len(), 2);
}

#[test]
fn invoke_reports_exceptions_first() {
    let method = MonoMethod::from_ptr_unchecked(ADDR);
    assert_eq!(method.invoke(Some((0x10, 0))).unwrap().unwrap().as_ptr(), 0x10);
    assert!(method.invoke(Some((0, 0))).unwrap().is_none());
    match method.invoke(Some((0x10, 0x99))) {
        Err(MonoError::ManagedException(exc)) => assert_eq!(exc.as_ptr(), 0x99),
        other => panic!("expected a managed exception, got {other:?}"),
    }
}

#[test]
fn load_from_image_checks_status_then_address() {
    let image = MonoImage::from_ptr_unchecked(ADDR);
    let assembly = MonoAssembly::load_from_image(image, None, Some((0x20, 0))).unwrap().unwrap();
    assert_eq!(assembly.as_ptr(), 0x20);
    assert!(matches!(
        MonoAssembly::load_from_image(image, Some("dir"), Some((0x20, 2))),
        Err(MonoError::ImageOpenFailed(MonoImageOpenStatus::MissingAssemblyRef))
    ));
    assert!(matches!(
        MonoAssembly::load_from_image(image, None, Some((0, 0))),
        Err(MonoError::ImageOpenFailed(MonoImageOpenStatus::Success))
    ));
    assert!(matches!(
        MonoAssembly::load_from_image(image, None, Some((0x20, 7))),
        Err(MonoError::ImageOpenFailed(MonoImageOpenStatus::ImageInvalid))
    ));
    assert!(matches!(
        MonoAssembly::load_from_image(image, None, None),
        Err(MonoError::Uninitialized)
    ));
}

#[test]
fn base_dir_defaults_to_empty_c_string() {
    assert_eq!(MonoAssembly::base_dir_c_string(None).unwrap(), vec![0]);
    assert_eq!(MonoAssembly::base_dir_c_string(Some("ab")).unwrap(), vec![b'a', b'b', 0]);
    assert!(matches!(
        MonoAssembly::base_dir_c_string(Some("a\0b")),
        Err(MonoError::NullByteInName)
    ));
}

#[test]
fn open_from_data_checks_status_then_address() {
    assert_eq!(MonoImage::open_from_data(Some((0x30, 0))).unwrap().as_ptr(), 0x30);
    assert!(matches!(
        MonoImage::open_from_data(Some((0x30, 1))),
        Err(MonoError::ImageOpenFailed(MonoImageOpenStatus::ErrorErrno))
    ));
    assert!(matches!(
        MonoImage::open_from_data(Some((0, 0))),
        Err(MonoError::ImageOpenFailed(MonoImageOpenStatus::Success))
    ));
    assert!(matches!(
        MonoImage::open_from_data(None),
        Err(MonoError::Uninitialized)
    ));
    assert_eq!(
        MonoImage::open_status_message(Some(Some(b"Image is invalid".to_vec()))).unwrap(),
        "Image is invalid"
    );
}

#[test]
fn close_reports_only_an_unbound_runtime() {
    let assembly = MonoAssembly::from_ptr_unchecked(ADDR);
    assert!(assembly.close(Some(())).is_ok());
    assert!(matches!(assembly.close(None), Err(MonoError::Uninitialized)));
}
