use ccrop::error::CropError;
use ccrop::fetch::{status_to_result, validate_url};

#[test]
fn rejects_ftp_url_without_network() {
    let r = validate_url("ftp://example.com/a.png");
    match r {
        Err(CropError::InvalidUrlError(m)) => {
            assert_eq!(m, "URL must start with http:// or https://");
        }
        other => panic!("expected InvalidUrlError, got {:?}", other),
    }
}

#[test]
fn accepts_http_and_https() {
    assert!(validate_url("http://example.com/a.png").is_ok());
    assert!(validate_url("https://example.com/a.png").is_ok());
    assert!(validate_url("http://").is_ok());
    assert!(validate_url("https://").is_ok());
}

#[test]
fn rejects_near_miss_schemes() {
    assert!(matches!(validate_url(""), Err(CropError::InvalidUrlError(_))));
    assert!(matches!(validate_url("http:/"), Err(CropError::InvalidUrlError(_))));
    assert!(matches!(validate_url("https:/"), Err(CropError::InvalidUrlError(_))));
    assert!(matches!(validate_url("HTTP://example.com"), Err(CropError::InvalidUrlError(_))));
    assert!(matches!(validate_url("httpx://example.com"), Err(CropError::InvalidUrlError(_))));
    assert!(matches!(validate_url("example.com/a.png"), Err(CropError::InvalidUrlError(_))));
}

#[test]
fn status_404_is_network_error() {
    let r = status_to_result(404, "HTTP status 404 Not Found");
    match r {
        Err(CropError::NetworkError(m)) => assert_eq!(m, "HTTP status 404 Not Found"),
        other => panic!("expected NetworkError, got {:?}", other),
    }
}

#[test]
fn status_success_range_bounds() {
    assert!(status_to_result(200, "").is_ok());
    assert!(status_to_result(299, "").is_ok());
    assert!(matches!(status_to_result(199, "x"), Err(CropError::NetworkError(_))));
    assert!(matches!(status_to_result(300, "x"), Err(CropError::NetworkError(_))));
    assert!(matches!(status_to_result(500, "x"), Err(CropError::NetworkError(_))));
}

#[test]
fn clipboard_error_carries_message() {
    let e = CropError::ClipboardError("no display".to_string());
    assert!(matches!(e, CropError::ClipboardError(ref m) if m == "no display"));
}
