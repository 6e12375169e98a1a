use quilore::auth::{auth_generator_for, AuthGenerator, GuestAuth, UserAuth};
use quilore::authcookie::AuthCookie;
use quilore::authentication::EAuthentication;
use quilore::credentials::{AuthCredential, AuthError};

#[test]
fn test_auth_generator_for() {
    // Test with Guest authentication type
    let guest_generator = auth_generator_for(EAuthentication::Guest);
    assert!(guest_generator.generator_name().contains("GuestAuth"));

    // Test with User authentication type
    let user_generator = auth_generator_for(EAuthentication::User);
    assert!(user_generator.generator_name().contains("UserAuth"));
}

#[test]
fn test_parse_header_string() {
    let input = "ct0=123; auth_token=456; twid=789; kdt=abc";
    let cookie = AuthCookie::parse(input);
    assert_eq!(cookie.ct0, Some("123".to_string()));
    assert_eq!(cookie.auth_token, Some("456".to_string()));
    assert_eq!(cookie.twid, Some("789".to_string()));
    assert_eq!(cookie.kdt, Some("abc".to_string()));
    assert!(cookie.is_valid());
}

#[test]
fn test_parse_json() {
    let input = r#"{"ct0":"123","auth_token":"456","twid":"789","kdt":"abc"}"#;
    let cookie = AuthCookie::parse(input);
    assert_eq!(cookie.ct0, Some("123".to_string()));
    assert_eq!(cookie.auth_token, Some("456".to_string()));
    assert_eq!(cookie.twid, Some("789".to_string()));
    assert_eq!(cookie.kdt, Some("abc".to_string()));
    assert!(cookie.is_valid());
}

#[test]
fn generators_make_their_kind() {
    let guest = auth_generator_for(EAuthentication::Guest);
    assert_eq!(guest.auth_type(), EAuthentication::Guest);
    let user = auth_generator_for(EAuthentication::User);
    assert_eq!(user.auth_type(), EAuthentication::User);
}

#[test]
fn guest_generator_needs_a_token() {
    let guest = auth_generator_for(EAuthentication::Guest);
    assert_eq!(guest.generate(None).err(), Some(AuthError::NoGuestToken));
    let credential = guest.generate(Some("g-1".to_string())).unwrap();
    assert_eq!(credential.guest_token, Some("g-1".to_string()));
    assert!(credential.cookie.is_none());
    let headers = credential.header_pairs();
    assert!(headers.iter().any(|(k, v)| k == "x-guest-token" && v == "g-1"));
}

#[test]
fn user_generator_needs_a_cookie() {
    let user = auth_generator_for(EAuthentication::User);
    let missing = user.generate(None).err().unwrap();
    assert_eq!(missing, AuthError::NoCookie);
    assert_eq!(missing.message(), "No Twitter cookie found");
    let credential = user.generate(Some("ct0=c; twid=u%3D7; auth_token=a; kdt=k".to_string())).unwrap();
    assert_eq!(credential.csrf_token, Some("c".to_string()));
    let headers = credential.header_pairs();
    assert_eq!(headers[0].0, "authorization");
    assert!(headers[0].1.starts_with("Bearer "));
    assert!(headers.iter().any(|(k, v)| k == "x-csrf-token" && v == "c"));
    assert!(headers
        .iter()
        .any(|(k, v)| k == "cookie" && v == "ct0=c; twid=u%3D7; auth_token=a; kdt=k"));
}

#[test]
fn cookie_file_lines_give_their_sixth_and_seventh_column() {
    let input = "# Netscape HTTP Cookie File\n\n.x.com\tTRUE\t/\tTRUE\t0\tct0\tabc\n.x.com\tTRUE\t/\tTRUE\t0\ttwid\tu=1\nshort\tline\n";
    let cookie = AuthCookie::parse(input);
    assert_eq!(cookie.raw, vec![("ct0".to_string(), "abc".to_string()), ("twid".to_string(), "u=1".to_string())]);
    assert_eq!(cookie.ct0, Some("abc".to_string()));
    assert_eq!(cookie.kdt, None);
    assert!(!cookie.is_valid());
}

#[test]
fn json_that_is_no_object_holds_no_cookie() {
    let cookie = AuthCookie::parse("[1, 2]");
    assert!(cookie.raw.is_empty());
    assert!(!cookie.is_valid());
    let cookie = AuthCookie::parse(r#"{"ct0": 5, "kdt": "k"}"#);
    assert_eq!(cookie.raw, vec![("kdt".to_string(), "k".to_string())]);
}

#[test]
fn cookie_prints_as_header() {
    let cookie = AuthCookie::parse("kdt=k; ct0=c; other=o");
    assert_eq!(cookie.to_string(), "kdt=k; ct0=c; other=o");
    assert_eq!(cookie.collect_fields(), "ct0=c; kdt=k");
    let empty = AuthCookie::parse("");
    assert_eq!(empty.to_string(), "");
    assert_eq!(empty.collect_fields(), "");
}

#[test]
fn guest_credential_carries_the_bearer_token() {
    let credential = AuthCredential::guest("t".to_string());
    assert_eq!(credential.kind(), EAuthentication::Guest);
    assert_eq!(credential.header_pairs().len(), 2);
    let map = credential.headers();
    assert_eq!(map.len(), 2);
    assert!(map.get("authorization").unwrap().to_str().unwrap().starts_with("Bearer AAAA"));
    assert_eq!(map.get("x-guest-token").unwrap(), "t");
}

#[test]
fn headers_are_refused_where_a_value_cannot_be_sent() {
    let bad = AuthCredential::guest("line\nbreak".to_string());
    assert!(bad.try_headers().is_none());
    let tab = AuthCredential::guest("a\tb \u{e9}".to_string());
    assert_eq!(tab.try_headers().unwrap().get("x-guest-token").unwrap().as_bytes(), "a\tb \u{e9}".as_bytes());
    let user = AuthCredential::user("ct0=c; twid=u; auth_token=a; kdt=k".to_string()).unwrap();
    let map = user.try_headers().unwrap();
    assert_eq!(map.len(), 3);
    assert_eq!(map.get("x-csrf-token").unwrap(), "c");
    assert_eq!(map.get("cookie").unwrap(), "ct0=c; twid=u; auth_token=a; kdt=k");
}

#[test]
fn cookie_file_lines_may_end_with_carriage_returns() {
    let input = ".x.com\tTRUE\t/\tTRUE\t0\tct0\tabc\r\n.x.com\tTRUE\t/\tTRUE\t0\tkdt\tk\r";
    let cookie = AuthCookie::parse(input);
    assert_eq!(cookie.ct0, Some("abc".to_string()));
    // a carriage return that no line feed follows belongs to the line
    assert_eq!(cookie.kdt, Some("k\r".to_string()));
}

#[test]
fn header_parts_are_cut_at_the_first_equals_sign() {
    let cookie = AuthCookie::parse(" a = b=c ;novalue; =e; twid = u%3D5 ");
    assert_eq!(
        cookie.raw,
        vec![
            ("a".to_string(), "b=c".to_string()),
            ("".to_string(), "e".to_string()),
            ("twid".to_string(), "u%3D5".to_string())
        ]
    );
}

#[test]
fn test_guest_auth_generate() {
    // Create a GuestAuth instance
    let auth = GuestAuth;

    // Call generate method with the token that the platform answered with
    let result = auth.generate(Some("1234567890".to_string()));

    // Check if the result is Ok
    assert!(result.is_ok(), "GuestAuth generate failed: {:?}", result.err());

    // Get the AuthCredential from the result
    let credential = result.unwrap();

    // Check that the guest_token is Some
    let headers = credential.headers();
    assert!(headers.contains_key("x-guest-token"), "Guest token header not found");
}

#[test]
fn test_user_auth_generate() {
    // Create a UserAuth instance
    let auth = UserAuth;

    for stored in [Some("ct0=c; twid=u%3D1; auth_token=a; kdt=k".to_string()), None] {
        // Call generate method with what the store holds
        let result = auth.generate(stored);

        match result {
            Ok(credential) => {
                // If we have a credential, check that it has the expected headers
                let headers = credential.headers();
                assert!(headers.contains_key("cookie"), "Cookie header not found");
                assert!(headers.contains_key("x-csrf-token"), "CSRF token header not found");
            }
            Err(e) => {
                // If there's an error, it should be because no Twitter cookie was found
                println!("UserAuth generate failed as expected: {}", e.message());
                assert!(
                    e.message().contains("No Twitter cookie found")
                        || e.message().contains("Failed to read stored Twitter cookie"),
                    "Unexpected error: {}",
                    e.message()
                );
            }
        }
    }
}
