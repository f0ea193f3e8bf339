use registration::handler::{register, validate_registration, STATUS_BAD_REQUEST, STATUS_OK};
use registration::schema::Register;

fn decode(body: &str) -> Register {
    let value: serde_json::Value = serde_json::from_str(body).expect("well-formed payload");
    Register {
        username: value["username"].as_str().expect("username field").to_string(),
        password: value["password"].as_str().expect("password field").to_string(),
    }
}

fn encode(payload: &Register) -> serde_json::Value {
    let mut object = serde_json::Map::new();
    object.insert(
        "username".to_string(),
        serde_json::Value::String(payload.username.clone()),
    );
    object.insert(
        "password".to_string(),
        serde_json::Value::String(payload.password.clone()),
    );
    serde_json::Value::Object(object)
}

#[test]
fn scenario_valid_registration() {
    let body = r#"{"username":"JohnDoe","password":"Xi481caqe9ro8r7isq821"}"#;
    let input = decode(body);
    let (status, echoed) = register(input.clone()).expect("valid payload is accepted");
    assert_eq!(status, 200);
    assert_eq!(echoed, input);
    let original: serde_json::Value = serde_json::from_str(body).unwrap();
    assert_eq!(encode(&echoed), original);
}

#[test]
fn scenario_username_too_long() {
    let input = decode(r#"{"username":"ThisUsernameIsWayTooLongToBeValid","password":"longenough"}"#);
    let (status, error) = register(input).expect_err("over-long username is rejected");
    assert_eq!(status, 400);
    assert_eq!(error.error_type, "validation_error");
    assert_eq!(error.message, "Username must be less than 24 characters long");
}

#[test]
fn scenario_password_too_short() {
    let input = decode(r#"{"username":"ok","password":"short"}"#);
    let (status, error) = register(input).expect_err("short password is rejected");
    assert_eq!(status, 400);
    assert_eq!(error.error_type, "validation_error");
    assert!(error.message.contains("Password must be at least 8 characters long"));
}

#[test]
fn both_violations_reported_in_declaration_order() {
    let input = Register {
        username: "ThisUsernameIsWayTooLongToBeValid".to_string(),
        password: "short".to_string(),
    };
    let (status, error) = register(input).expect_err("doubly invalid payload is rejected");
    assert_eq!(status, 400);
    assert_eq!(
        error.message,
        "Username must be less than 24 characters long, Password must be at least 8 characters long"
    );
    let username_at = error
        .message
        .find("Username must be less than 24 characters long")
        .unwrap();
    let password_at = error
        .message
        .find("Password must be at least 8 characters long")
        .unwrap();
    assert!(username_at < password_at);
}

#[test]
fn repeated_request_yields_identical_response() {
    for input in [
        decode(r#"{"username":"JohnDoe","password":"Xi481caqe9ro8r7isq821"}"#),
        decode(r#"{"username":"ok","password":"short"}"#),
    ] {
        let first = register(input.clone());
        for _ in 0..3 {
            let again = register(input.clone());
            match (&first, &again) {
                (Ok((s1, b1)), Ok((s2, b2))) => {
                    assert_eq!(s1, s2);
                    assert_eq!(b1, b2);
                }
                (Err((s1, e1)), Err((s2, e2))) => {
                    assert_eq!(s1, s2);
                    assert_eq!(e1, e2);
                }
                _ => panic!("outcome changed between identical requests"),
            }
        }
    }
}

#[test]
fn username_of_exactly_24_characters_is_accepted() {
    let input = Register {
        username: "A".repeat(24),
        password: "longenough".to_string(),
    };
    let (status, echoed) = register(input.clone()).expect("boundary username is accepted");
    assert_eq!(status, 200);
    assert_eq!(echoed, input);
}

#[test]
fn username_of_25_characters_is_rejected() {
    let input = Register {
        username: "A".repeat(25),
        password: "longenough".to_string(),
    };
    let (status, error) = register(input).expect_err("25-character username is rejected");
    assert_eq!(status, 400);
    assert_eq!(error.message, "Username must be less than 24 characters long");
}

#[test]
fn password_of_exactly_8_characters_is_accepted() {
    let input = Register {
        username: "ok".to_string(),
        password: "B".repeat(8),
    };
    let (status, _) = register(input).expect("boundary password is accepted");
    assert_eq!(status, 200);
}

#[test]
fn password_of_7_characters_is_rejected() {
    let input = Register {
        username: "ok".to_string(),
        password: "B".repeat(7),
    };
    let (status, error) = register(input).expect_err("7-character password is rejected");
    assert_eq!(status, 400);
    assert_eq!(error.message, "Password must be at least 8 characters long");
}

#[test]
fn lengths_are_measured_in_characters_not_bytes() {
    let username = "\u{e9}".repeat(24);
    assert_eq!(username.chars().count(), 24);
    assert!(username.len() > 24);
    let password = "p\u{e4}ssw\u{f6}rd".to_string();
    assert_eq!(password.chars().count(), 8);
    assert!(password.len() > 8);
    let input = Register { username, password };
    let (status, echoed) = register(input.clone()).expect("character counts are within bounds");
    assert_eq!(status, 200);
    assert_eq!(echoed, input);
}

#[test]
fn empty_username_is_accepted_and_empty_password_rejected() {
    let accepted = Register {
        username: String::new(),
        password: "longenough".to_string(),
    };
    assert!(register(accepted).is_ok());
    let rejected = Register {
        username: "ok".to_string(),
        password: String::new(),
    };
    let (status, error) = register(rejected).expect_err("empty password is rejected");
    assert_eq!(status, 400);
    assert_eq!(error.message, "Password must be at least 8 characters long");
}

#[test]
fn validate_registration_echoes_the_payload_on_success() {
    let input = decode(r#"{"username":"JohnDoe","password":"Xi481caqe9ro8r7isq821"}"#);
    let echoed = validate_registration(input.clone()).expect("valid payload is accepted");
    assert_eq!(echoed, input);
}

#[test]
fn malformed_body_is_a_decode_failure_not_a_validation_failure() {
    // A body that is not well-formed structured data fails at the decoding
    // step, before the validator is ever consulted.
    let malformed = serde_json::from_str::<serde_json::Value>(r#"{"username":"#);
    assert!(malformed.is_err());
    let missing_field: serde_json::Value = serde_json::from_str(r#"{"username":"ok"}"#).unwrap();
    assert!(missing_field["password"].as_str().is_none());
    // A validation failure, by contrast, is a decoded payload answered with
    // the structured error.
    let input = Register { username: "ok".to_string(), password: "short".to_string() };
    let (_, error) = register(input).expect_err("short password is rejected");
    assert_eq!(error.error_type, "validation_error");
}

#[test]
fn status_constants_match_the_protocol() {
    assert_eq!(STATUS_OK, 200);
    assert_eq!(STATUS_BAD_REQUEST, 400);
}
