use rs621::decimal::decimal_text;
use rs621::error::Error;

#[test]
fn error_display_above_limit() {
    assert_eq!(
        Error::AboveLimit(400, 320).to_string(),
        String::from("limit:400 is above the maximum value for ordered queries (320)")
    );
}

#[test]
fn error_display_http() {
    assert_eq!(Error::Http(404).to_string(), String::from("HTTP error: 404"));
}

#[test]
fn error_display_serial() {
    assert_eq!(
        Error::Serial(String::from("foo")).to_string(),
        String::from("Serialization error: foo")
    );
}

#[test]
fn error_display_redirect() {
    assert_eq!(
        Error::Redirect(String::from("foo")).to_string(),
        String::from("Redirection error: foo")
    );
}

#[test]
fn error_display_cannot_send_request() {
    assert_eq!(
        Error::CannotSendRequest(String::from("foo")).to_string(),
        String::from("Couldn't send request: foo")
    );
}

#[test]
fn error_display_cannot_create_client() {
    assert_eq!(
        Error::CannotCreateClient(String::from("foo")).to_string(),
        String::from("Couldn't create client: foo")
    );
}

#[test]
fn error_display_extreme_numbers() {
    assert_eq!(
        Error::AboveLimit(0, usize::MAX).to_string(),
        format!(
            "limit:0 is above the maximum value for ordered queries ({})",
            usize::MAX
        )
    );
    assert_eq!(Error::Http(0).to_string(), "HTTP error: 0");
    assert_eq!(Error::Http(65535).to_string(), "HTTP error: 65535");
    assert_eq!(Error::Serial(String::new()).to_string(), "Serialization error: ");
}

#[test]
fn error_equality_is_structural() {
    assert_eq!(Error::AboveLimit(400, 320), Error::AboveLimit(400, 320));
    assert_ne!(Error::AboveLimit(400, 320), Error::AboveLimit(400, 321));
    assert_ne!(Error::AboveLimit(400, 320), Error::AboveLimit(401, 320));
    assert_eq!(Error::Http(404), Error::Http(404));
    assert_ne!(Error::Http(404), Error::Http(500));
    assert_ne!(
        Error::Serial(String::from("foo")),
        Error::Redirect(String::from("foo"))
    );
    assert_ne!(
        Error::CannotSendRequest(String::from("foo")),
        Error::CannotSendRequest(String::from("bar"))
    );
    assert_eq!(
        Error::CannotCreateClient(String::from("foo")),
        Error::CannotCreateClient(String::from("foo"))
    );
}

#[test]
fn decimal_text_values() {
    assert_eq!(decimal_text(0), "0");
    assert_eq!(decimal_text(9), "9");
    assert_eq!(decimal_text(10), "10");
    assert_eq!(decimal_text(320), "320");
    assert_eq!(decimal_text(u64::MAX), "18446744073709551615");
}

#[test]
fn error_from_invalid_header_value() {
    let refused = reqwest::header::HeaderValue::from_bytes(b"a\nb").unwrap_err();
    assert_eq!(
        Error::from(refused),
        Error::CannotCreateClient(String::from(
            "Invalid header value: failed to parse header value"
        ))
    );
}

#[test]
fn error_result_alias() {
    let r: rs621::error::Result<u8> = Err(Error::Http(404));
    assert_eq!(r.unwrap_err().to_string(), "HTTP error: 404");
    let ok: rs621::error::Result<u8> = Ok(7);
    assert_eq!(ok.unwrap(), 7);
}
