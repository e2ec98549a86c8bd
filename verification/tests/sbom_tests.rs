use venom::sbom::{Sbom, SbomLocation, SbomLocationError};

#[test]
fn test_sbom_from_valid_url_str() {
    let url = "https://example.com/sbom.json";
    let sbom = Sbom::from_url_str(url).expect("Expected Sbom from valid URL");
    assert!(matches!(sbom.location(), SbomLocation::Remote(_)));
}

#[test]
fn test_sbom_from_invalid_url_str() {
    let url = "ht!tp:/::invalid";
    let err = Sbom::from_url_str(url).expect_err("Expected error for invalid URL");
    match err {
        SbomLocationError::InvalidUrl(u, _) => assert_eq!(u, url),
        _ => panic!("Unexpected error type"),
    }
}

#[test]
fn test_sbom_from_nonexistent_path_str() {
    let path = "/tmp/this_should_not_exist_123456.json";
    let err = Sbom::from_path_str(path).expect_err("Expected error for non-existent path");
    match err {
        SbomLocationError::NonExistentPath(p) => assert_eq!(p, path),
        _ => panic!("Unexpected error type"),
    }
}

#[test]
fn test_sbom_try_from_valid_url_str() {
    let url = "https://example.com/sbom.json";
    let sbom = Sbom::try_from(url).expect("Expected TryFrom to succeed with valid URL");
    assert!(matches!(sbom.location(), SbomLocation::Remote(_)));
}

#[test]
fn test_sbom_from_invalid_path_format() {
    let input = "";
    let err = Sbom::from_path_str(input).expect_err("Expected failure for empty path");
    match err {
        SbomLocationError::InvalidPathFormat(p) => assert_eq!(p, input),
        _ => panic!("Unexpected error type"),
    }
}

#[test]
fn test_sbom_try_from_invalid_path_format() {
    let input = "";
    let err = Sbom::try_from(input).expect_err("Expected error for empty path in TryFrom");
    match err {
        SbomLocationError::NotUrlNorPath(p) => assert_eq!(p, input),
        _ => panic!("Unexpected error type"),
    }
}

#[test]
fn test_sbom_try_from_not_url_nor_path() {
    let input = "not-a-valid-url-and-no-file";
    let err = Sbom::try_from(input).expect_err("Expected error for invalid string");
    match err {
        SbomLocationError::NotUrlNorPath(p) => assert_eq!(p, input),
        _ => panic!("Unexpected error type"),
    }
}

#[test]
fn remote_location_keeps_the_uri_text() {
    let sbom = Sbom::from_url_str("https://example.com/a.json").unwrap();
    match sbom.location() {
        SbomLocation::Remote(u) => assert_eq!(u, "https://example.com/a.json"),
        _ => panic!("Expected a remote location"),
    }
}

#[test]
fn sbom_equality_is_by_location() {
    let a = Sbom::from_url_str("https://example.com/a.json").unwrap();
    let b = Sbom::from_url_str("https://example.com/a.json").unwrap();
    let c = Sbom::from_url_str("https://example.com/c.json").unwrap();
    assert_eq!(a, b);
    assert_ne!(a, c);
}
