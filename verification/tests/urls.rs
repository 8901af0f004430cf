use libreofficekit::DocUrl;

/// Tests a valid absolute URL
#[test]
fn test_absolute() {
    let path = "/src";
    let _url = DocUrl::from_absolute_path(path).unwrap();
}

/// Tests a non absolute URL fails the checks
#[test]
fn test_invalid_absolute() {
    let path = "./src";
    let _url = DocUrl::from_absolute_path(path).unwrap_err();
}

/// Tests a remote URL path
#[test]
fn test_remote_path() {
    let path = "http://localhost:5555/file.docx";
    let _url = DocUrl::from_remote_uri(path).unwrap();

    let path = "file://file.docx";
    let _url = DocUrl::from_remote_uri(path).unwrap();
}

/// Tests an invalid remote paths
#[test]
fn test_invalid_remote_path() {
    let path = "h/malformed";
    let _url = DocUrl::from_remote_uri(path).unwrap_err();

    let path = "h";
    let _url = DocUrl::from_remote_uri(path).unwrap_err();
}

/// The URL built for an absolute path is the file URL, with special
/// characters percent-encoded, not the raw path handed in.
#[test]
fn test_absolute_path_becomes_file_url() {
    let url = DocUrl::from_absolute_path("/tmp/test.pdf").unwrap();
    assert_eq!(url.as_str(), "file:///tmp/test.pdf");

    let url = DocUrl::from_absolute_path("/tmp/a b.txt").unwrap();
    assert_eq!(url.as_str(), "file:///tmp/a%20b.txt");
    assert_eq!(url.to_display_string(), "file:///tmp/a%20b.txt");
}

/// A remote URI is kept as given once the parser accepts it.
#[test]
fn test_remote_uri_kept_verbatim() {
    let url = DocUrl::from_remote_uri("http://localhost:5555/file.docx").unwrap();
    assert_eq!(url.as_str(), "http://localhost:5555/file.docx");
}

/// An embedded null byte in a remote URI is rejected.
#[test]
fn test_remote_uri_null_byte() {
    let err = DocUrl::from_remote_uri("http://localhost/a\0b").unwrap_err();
    assert!(matches!(err, libreofficekit::OfficeError::InvalidString));
}
