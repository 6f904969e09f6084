use vstd::prelude::*;

use crate::error::CropError;

verus! {

/// The URL starts with the literal, case-sensitive prefix `http://`.
pub open spec fn has_http_prefix(s: Seq<char>) -> bool {
    s.len() >= 7 && s[0] == 'h' && s[1] == 't' && s[2] == 't' && s[3] == 'p' && s[4] == ':'
        && s[5] == '/' && s[6] == '/'
}

/// The URL starts with the literal, case-sensitive prefix `https://`.
pub open spec fn has_https_prefix(s: Seq<char>) -> bool {
    s.len() >= 8 && s[0] == 'h' && s[1] == 't' && s[2] == 't' && s[3] == 'p' && s[4] == 's'
        && s[5] == ':' && s[6] == '/' && s[7] == '/'
}

/// The only URL schemes the fetcher accepts.
pub open spec fn valid_url_scheme(s: Seq<char>) -> bool {
    has_http_prefix(s) || has_https_prefix(s)
}

/// The message carried by the invalid-URL error.
pub open spec fn invalid_url_text() -> Seq<char> {
    "URL must start with http:// or https://"@
}

/// Checks the URL's scheme prefix before any network activity: accepts the
/// URL exactly when it starts with `http://` or `https://`, and rejects
/// every other value with `InvalidUrlError`.
pub fn validate_url(url: &str) -> (r: Result<(), CropError>)
    ensures
        r is Ok <==> valid_url_scheme(url@),
        r matches Err(e) ==> e matches CropError::InvalidUrlError(m) && m@ == invalid_url_text(),
{
    let n = url.unicode_len();
    let ok = if n < 7 {
        false
    } else if !(url.get_char(0) == 'h' && url.get_char(1) == 't' && url.get_char(2) == 't'
        && url.get_char(3) == 'p') {
        false
    } else if url.get_char(4) == ':' && url.get_char(5) == '/' && url.get_char(6) == '/' {
        true
    } else if n >= 8 && url.get_char(4) == 's' && url.get_char(5) == ':' && url.get_char(6) == '/'
        && url.get_char(7) == '/' {
        true
    } else {
        false
    };
    if ok {
        Ok(())
    } else {
        Err(CropError::InvalidUrlError("URL must start with http:// or https://".to_owned()))
    }
}

/// The HTTP statuses that count as success: the 2xx range.
pub open spec fn is_success_status(status: u16) -> bool {
    200 <= status < 300
}

/// Decides whether an HTTP response status lets the pipeline go on:
/// accepts exactly the 2xx statuses and turns every other status into
/// `NetworkError` carrying the caller's description of the response.
pub fn status_to_result(status: u16, detail: &str) -> (r: Result<(), CropError>)
    ensures
        r is Ok <==> is_success_status(status),
        r matches Err(e) ==> e matches CropError::NetworkError(m) && m@ == detail@,
{
    if 200 <= status && status < 300 {
        Ok(())
    } else {
        Err(CropError::NetworkError(detail.to_owned()))
    }
}

} // verus!
