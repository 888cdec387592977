use mono_rt::MonoImageOpenStatus;

#[test]
fn from_raw_known_values() {
    assert_eq!(MonoImageOpenStatus::from_raw(0), MonoImageOpenStatus::Success);
    assert_eq!(
        MonoImageOpenStatus::from_raw(1),
        MonoImageOpenStatus::ErrorErrno
    );
    assert_eq!(
        MonoImageOpenStatus::from_raw(2),
        MonoImageOpenStatus::MissingAssemblyRef
    );
    assert_eq!(
        MonoImageOpenStatus::from_raw(3),
        MonoImageOpenStatus::ImageInvalid
    );
}

#[test]
fn from_raw_unknown_maps_to_invalid() {
    assert_eq!(
        MonoImageOpenStatus::from_raw(99),
        MonoImageOpenStatus::ImageInvalid
    );
    assert_eq!(
        MonoImageOpenStatus::from_raw(-1),
        MonoImageOpenStatus::ImageInvalid
    );
}

#[test]
fn is_ok_only_for_ok() {
    assert!(MonoImageOpenStatus::Success.is_ok());
    assert!(!MonoImageOpenStatus::ErrorErrno.is_ok());
    assert!(!MonoImageOpenStatus::MissingAssemblyRef.is_ok());
    assert!(!MonoImageOpenStatus::ImageInvalid.is_ok());
}

#[test]
fn display_messages() {
    assert_eq!(MonoImageOpenStatus::Success.to_string(), "ok");
    assert_eq!(MonoImageOpenStatus::ErrorErrno.to_string(), "errno error");
    assert_eq!(
        MonoImageOpenStatus::MissingAssemblyRef.to_string(),
        "missing assembly reference"
    );
    assert_eq!(
        MonoImageOpenStatus::ImageInvalid.to_string(),
        "invalid image"
    );
}

#[test]
fn status_round_trips_through_its_code() {
    let all = [
        (0, MonoImageOpenStatus::Success),
        (1, MonoImageOpenStatus::ErrorErrno),
        (2, MonoImageOpenStatus::MissingAssemblyRef),
        (3, MonoImageOpenStatus::ImageInvalid),
    ];
    for (code, status) in all {
        assert_eq!(MonoImageOpenStatus::from_raw(code), status);
        assert_eq!(MonoImageOpenStatus::from_raw(code).is_ok(), code == 0);
    }
    assert!(!MonoImageOpenStatus::from_raw(i32::MIN).is_ok());
    assert!(!MonoImageOpenStatus::from_raw(i32::MAX).is_ok());
}

#[test]
fn as_str_matches_to_string() {
    assert_eq!(MonoImageOpenStatus::ErrorErrno.as_str(), "errno error");
    assert_eq!(
        MonoImageOpenStatus::MissingAssemblyRef.as_str(),
        MonoImageOpenStatus::MissingAssemblyRef.to_string()
    );
}
