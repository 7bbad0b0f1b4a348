use pharia_kernel::csi_shell::{CsiShellError, SupportedVersion, UnknownCsiRequest};

fn error_for(version: Option<&str>) -> CsiShellError {
    let request = UnknownCsiRequest {
        version: version.map(str::to_owned),
    };
    request.into()
}

#[test]
fn no_longer_supported_version() {
    let request = UnknownCsiRequest {
        version: Some("0.1.0".to_string()),
    };
    let error: CsiShellError = request.into();
    assert!(matches!(error, CsiShellError::NoLongerSupported));
}

#[test]
fn not_supported_minor_version() {
    let request = UnknownCsiRequest {
        version: Some("0.9.0".to_string()),
    };
    let error: CsiShellError = request.into();
    assert!(matches!(error, CsiShellError::NotSupported));
}

#[test]
fn not_supported_major_version() {
    let request = UnknownCsiRequest {
        version: Some("1.0.0".to_string()),
    };
    let error: CsiShellError = request.into();
    assert!(matches!(error, CsiShellError::NotSupported));
}

#[test]
fn invalid_version() {
    let request = UnknownCsiRequest {
        version: Some("invalid".to_string()),
    };
    let error: CsiShellError = request.into();
    assert!(matches!(error, CsiShellError::InvalidVersion));
}

#[test]
fn missing_version_is_invalid() {
    assert_eq!(error_for(None), CsiShellError::InvalidVersion);
}

#[test]
fn latest_version_is_no_longer_supported_once_it_is_unknown() {
    let latest = SupportedVersion::latest_supported_version();
    assert_eq!(latest, SupportedVersion { major: 0, minor: 4 });
    assert_eq!(error_for(Some("0.4.0")), CsiShellError::NoLongerSupported);
    assert_eq!(error_for(Some("0.5")), CsiShellError::NotSupported);
    assert_eq!(error_for(Some("0")), CsiShellError::NoLongerSupported);
}

#[test]
fn version_ranges_with_several_comparators_are_invalid() {
    assert_eq!(error_for(Some(">=0.2, <0.4")), CsiShellError::InvalidVersion);
}

#[test]
fn only_internal_errors_are_server_errors() {
    assert_eq!(CsiShellError::Internal("boom".to_owned()).status_code(), 500);
    assert_eq!(CsiShellError::NotSupported.status_code(), 400);
    assert_eq!(CsiShellError::NoLongerSupported.status_code(), 400);
    assert_eq!(CsiShellError::InvalidVersion.status_code(), 400);
    assert_eq!(
        CsiShellError::UnknownFunction("x".to_owned()).status_code(),
        400
    );
    for version in ["0.1.0", "9.9.9", "invalid", ""] {
        assert_eq!(error_for(Some(version)).status_code(), 400);
    }
}

#[test]
fn error_messages() {
    assert_eq!(
        CsiShellError::unknown_function(Some("frobnicate".to_owned())).message(),
        "The CSI function frobnicate is not supported by this Kernel installation yet. Try updating your Kernel version or downgrading your SDK."
    );
    assert_eq!(
        CsiShellError::unknown_function(None),
        CsiShellError::UnknownFunction("specified".to_owned())
    );
    assert_eq!(
        CsiShellError::NotSupported.message(),
        "The specified CSI version is not supported by this Kernel installation yet. Try updating your Kernel version or downgrading your SDK."
    );
    assert_eq!(
        CsiShellError::NoLongerSupported.message(),
        "This CSI version is no longer supported by the Kernel. Try upgrading your SDK."
    );
    assert_eq!(
        CsiShellError::InvalidVersion.message(),
        "A valid CSI version is required. Try upgrading your SDK."
    );
    assert_eq!(CsiShellError::Internal("boom".to_owned()).message(), "boom");
}
