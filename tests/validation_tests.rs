use shorturl::responses::{rejection, STATUS_BAD_REQUEST};
use shorturl::validation::{check_scheme, validate_url, ValidationError};

#[test]
fn empty_and_blank_urls_are_empty() {
    assert_eq!(validate_url(""), Err(ValidationError::Empty));
    assert_eq!(validate_url("   "), Err(ValidationError::Empty));
    assert_eq!(validate_url("\t\n \u{3000}"), Err(ValidationError::Empty));
}

#[test]
fn malformed_or_other_scheme_is_invalid_format() {
    assert_eq!(validate_url("not a url"), Err(ValidationError::InvalidFormat));
    assert_eq!(validate_url("ftp://x"), Err(ValidationError::InvalidFormat));
    assert_eq!(validate_url("mailto:someone@example.com"), Err(ValidationError::InvalidFormat));
}

#[test]
fn http_and_https_urls_are_accepted() {
    assert_eq!(validate_url("https://example.com"), Ok(()));
    assert_eq!(validate_url("http://example.com/path?q=1"), Ok(()));
    assert_eq!(validate_url("HTTPS://EXAMPLE.COM"), Ok(()));
}

#[test]
fn surrounding_whitespace_is_ignored_by_the_check() {
    assert_eq!(validate_url("  https://example.com  "), Ok(()));
    assert_eq!(validate_url("\u{3000}https://example.com\u{3000}"), Ok(()));
}

#[test]
fn scheme_check_on_parsed_schemes() {
    assert_eq!(check_scheme(Some("http".to_string())), Ok(()));
    assert_eq!(check_scheme(Some("https".to_string())), Ok(()));
    assert_eq!(check_scheme(Some("ftp".to_string())), Err(ValidationError::InvalidFormat));
    assert_eq!(check_scheme(Some("httpx".to_string())), Err(ValidationError::InvalidFormat));
    assert_eq!(check_scheme(None), Err(ValidationError::InvalidFormat));
}

#[test]
fn rejection_reasons() {
    let e = rejection(ValidationError::Empty);
    assert_eq!(e.status, STATUS_BAD_REQUEST);
    assert_eq!(e.status, 400);
    assert_eq!(e.error, "Invalid URL");
    assert_eq!(e.reason, "URL must not be empty");
    let f = rejection(ValidationError::InvalidFormat);
    assert_eq!(f.status, 400);
    assert_eq!(f.error, "Invalid URL");
    assert_eq!(f.reason, "URL must be a valid http or https URL");
}
