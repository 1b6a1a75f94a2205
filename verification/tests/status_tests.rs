use dotnet_hostfxr::error::HostFxrError;
use dotnet_hostfxr::hresult::HResult;

#[test]
fn test_from_status_negative_is_error_with_code() {
    for code in [-1, -2, i32::MIN, -0x7FF8_0008] {
        assert_eq!(
            HostFxrError::from_status(code),
            Err(HostFxrError::Status(code))
        );
    }
}

#[test]
fn test_from_status_non_negative_is_success() {
    for code in [0, 1, 2, 0x4000_0000, i32::MAX] {
        assert_eq!(HostFxrError::from_status(code), Ok(()));
    }
}

#[test]
fn test_from_status_is_pure() {
    assert_eq!(
        HostFxrError::from_status(-7),
        HostFxrError::from_status(-7)
    );
    assert_eq!(HostFxrError::from_status(3), HostFxrError::from_status(3));
}

#[test]
fn test_hresult_classification() {
    let failure = HResult::new(-5);
    assert!(failure.is_failure());
    assert!(!failure.is_success());
    assert!(matches!(failure, HResult::Failure(-5)));
    assert!(matches!(failure.to_result(), Err(HResult::Failure(-5))));

    let success = HResult::new(0);
    assert!(success.is_success());
    assert!(!success.is_failure());
    assert!(matches!(success, HResult::Success(0)));
    assert!(matches!(success.to_result(), Ok(HResult::Success(0))));

    let warning = HResult::new(1);
    assert!(warning.is_success());
    assert!(matches!(warning.to_result(), Ok(HResult::Success(1))));
}
