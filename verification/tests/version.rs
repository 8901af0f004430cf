use libreofficekit::ProductVersion;

/// Formatting then parsing gives the version back, identically.
#[test]
fn test_version_roundtrip() {
    let cases = [(7u32, 6u32), (24, 2), (4, 3), (0, 0), (u32::MAX, u32::MAX)];
    for (major, minor) in cases {
        let version = ProductVersion::new(major, minor);
        let text = version.display_string();
        let parsed: ProductVersion = text.parse().unwrap();
        assert_eq!(parsed, version);
        assert_eq!(parsed.display_string(), text);
    }
}

/// Exact formatted text.
#[test]
fn test_version_display() {
    assert_eq!(ProductVersion::new(7, 6).display_string(), "7.6");
    assert_eq!(ProductVersion::new(24, 2).display_string(), "24.2");
    assert_eq!(ProductVersion::new(0, 10).display_string(), "0.10");
}

/// Exact parses.
#[test]
fn test_version_parse() {
    assert_eq!(
        ProductVersion::parse("24.2").unwrap(),
        ProductVersion::new(24, 2)
    );
    assert_eq!(
        ProductVersion::parse("4294967295.0").unwrap(),
        ProductVersion::new(u32::MAX, 0)
    );
}

/// Malformed version strings fail with the structured error, never
/// panic: missing separator, empty or non-numeric components, values
/// out of range.
#[test]
fn test_version_parse_malformed() {
    for text in [
        "", "7", "7.", ".6", ".", "a.b", "7.x", "x.6", "7..6", "-1.2", " 7.6", "7.6 ",
        "4294967296.0", "0.4294967296",
    ] {
        assert!(ProductVersion::parse(text).is_err(), "accepted {:?}", text);
    }
}

/// The capability gates follow the documented minimum versions.
#[test]
fn test_capability_gates() {
    let old = ProductVersion::new(4, 2);
    let v43 = ProductVersion::new(4, 3);
    let v52 = ProductVersion::new(5, 2);
    let v54 = ProductVersion::new(5, 4);
    let v60 = ProductVersion::new(6, 0);
    let v76 = ProductVersion::new(7, 6);

    assert!(!old.is_document_load_available());
    assert!(v43.is_document_load_available());
    assert!(!v43.is_document_load_options_available());
    assert!(ProductVersion::new(5, 0).is_document_load_options_available());
    assert!(!ProductVersion::new(5, 1).is_free_error_available());
    assert!(v52.is_free_error_available());
    assert!(!v54.is_register_callback_available());
    assert!(v60.is_register_callback_available());
    assert!(v60.is_filter_types_available());
    assert!(v60.is_optional_features_available());
    assert!(v60.is_set_document_password_available());
    assert!(v60.is_get_version_info_available());
    assert!(v60.is_run_macro_available());
    assert!(!ProductVersion::new(7, 5).is_trim_memory_available());
    assert!(v76.is_trim_memory_available());
    assert!(ProductVersion::new(8, 0).is_trim_memory_available());
}
