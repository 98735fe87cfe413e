use rs621::client::Client;
use rs621::error::Error;

#[test]
fn client_new() {
    Client::new(b"rs621/unit_test").unwrap();
}

#[test]
fn client_new_requires_valid_user_agent() {
    assert!(Client::new(b"\n").is_err());
}

#[test]
fn client_new_requires_non_empty_user_agent() {
    assert!(Client::new(b"").is_err());
}

#[test]
fn client_new_keeps_user_agent() {
    let client = Client::new(b"rs621/unit_test (by someone)").unwrap();
    assert_eq!(client.user_agent(), b"rs621/unit_test (by someone)");
    assert_eq!(client.timeout_ms(), None);
}

#[test]
fn client_new_accepts_tab_and_high_bytes() {
    let ua: &[u8] = &[b'a', b'\t', b' ', 0x80, 0xff, b'~'];
    let client = Client::new(ua).unwrap();
    assert_eq!(client.user_agent(), ua);
}

#[test]
fn client_new_empty_message() {
    let err = Client::new(b"").err().unwrap();
    assert_eq!(
        err,
        Error::CannotCreateClient(String::from("User Agent mustn't be empty"))
    );
}

#[test]
fn client_new_newline_message() {
    let err = Client::new(b"\n").err().unwrap();
    match err {
        Error::CannotCreateClient(msg) => {
            assert!(msg.starts_with("Invalid header value: "));
            assert_eq!(msg, "Invalid header value: failed to parse header value");
        }
        other => panic!("unexpected error: {:?}", other),
    }
}

#[test]
fn client_new_refuses_control_bytes() {
    for bad in [&b"a\rb"[..], &b"\x00"[..], &b"abc\x7f"[..], &b"\x1f"[..]] {
        assert_eq!(
            Client::new(bad).err().unwrap(),
            Error::CannotCreateClient(String::from(
                "Invalid header value: failed to parse header value"
            ))
        );
    }
}

#[test]
fn client_new_checks_emptiness_first() {
    assert_eq!(
        Client::new(b"").err().unwrap().to_string(),
        "Couldn't create client: User Agent mustn't be empty"
    );
}

#[test]
fn client_with_timeout_keeps_bound() {
    let client = Client::with_timeout(b"rs621/unit_test", Some(2500)).unwrap();
    assert_eq!(client.timeout_ms(), Some(2500));
    assert_eq!(client.user_agent(), b"rs621/unit_test");
    assert!(Client::with_timeout(b"", Some(10)).is_err());
}

#[test]
fn client_new_twice_configured_alike() {
    let a = Client::new(b"rs621/unit_test").unwrap();
    let b = Client::new(b"rs621/unit_test").unwrap();
    assert_eq!(a.user_agent(), b.user_agent());
    assert_eq!(a.timeout_ms(), b.timeout_ms());
    drop(a);
    assert_eq!(b.user_agent(), b"rs621/unit_test");
    assert_eq!(Client::new(b"").err().unwrap(), Client::new(b"").err().unwrap());
}
