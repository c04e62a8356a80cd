use openai_azure_proxy::errors::AzureError;
use openai_azure_proxy::utils::check_api_version;

#[test]
fn supported_versions_pass() {
    assert!(check_api_version(Some("2024-05-01-preview".to_string())).is_ok());
    assert!(check_api_version(Some("2025-04-01".to_string())).is_ok());
}

#[test]
fn missing_version_is_refused() {
    let error = check_api_version(None).unwrap_err();
    assert!(matches!(error, AzureError::MissingApiVersionParameter));
    assert_eq!(error.status(), 400);
    assert_eq!(error.code(), "MissingApiVersionParameter");
    assert_eq!(
        error.message(),
        "The api-version query parameter (?api-version=) is required for all requests."
    );
}

#[test]
fn unsupported_version_is_refused_with_both_values() {
    let error = check_api_version(Some("2023-01-01".to_string())).unwrap_err();
    match &error {
        AzureError::UnsupportedApiVersionValue(got, supported) => {
            assert_eq!(got, "2023-01-01");
            assert_eq!(supported, "2024-05-01-preview, 2025-04-01");
        }
        _ => panic!("expected an unsupported version"),
    }
    assert_eq!(error.status(), 400);
    assert_eq!(error.code(), "UnsupportedApiVersionValue");
    assert_eq!(
        error.message(),
        "Unsupported api-version '2023-01-01'. The supported api-versions are '2024-05-01-preview, 2025-04-01'."
    );
}

#[test]
fn version_is_compared_exactly() {
    assert!(check_api_version(Some(String::new())).is_err());
    assert!(check_api_version(Some("2025-04-01 ".to_string())).is_err());
    assert!(check_api_version(Some("2024-05-01-PREVIEW".to_string())).is_err());
    assert!(check_api_version(Some("2024-05-01-preview, 2025-04-01".to_string())).is_err());
}
