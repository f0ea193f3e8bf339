use registration::description::schema_description;
use registration::schema::{field_rules, FieldName, Register, PASSWORD_MIN_LEN, USERNAME_MAX_LEN};
use registration::validator::{aggregate_message, validate};

#[test]
fn declared_rules_carry_the_enforced_bounds() {
    let rules = field_rules();
    assert_eq!(rules.len(), 2);

    assert_eq!(rules[0].field, FieldName::Username);
    assert_eq!(rules[0].min_len, None);
    assert_eq!(rules[0].max_len, Some(24));
    assert_eq!(rules[0].message, "Username must be less than 24 characters long");
    assert_eq!(rules[0].example, "JohnDoe");

    assert_eq!(rules[1].field, FieldName::Password);
    assert_eq!(rules[1].min_len, Some(8));
    assert_eq!(rules[1].max_len, None);
    assert_eq!(rules[1].message, "Password must be at least 8 characters long");
    assert_eq!(rules[1].example, "Xi481caqe9ro8r7isq821");

    assert_eq!(USERNAME_MAX_LEN, 24);
    assert_eq!(PASSWORD_MIN_LEN, 8);
}

#[test]
fn field_names_match_the_payload_keys() {
    assert_eq!(FieldName::Username.name(), "username");
    assert_eq!(FieldName::Password.name(), "password");
}

#[test]
fn validate_returns_no_violation_for_a_valid_payload() {
    let input = Register {
        username: "JohnDoe".to_string(),
        password: "Xi481caqe9ro8r7isq821".to_string(),
    };
    assert!(validate(&input).is_empty());
}

#[test]
fn validate_reports_every_violation_in_field_order() {
    let input = Register {
        username: "C".repeat(30),
        password: "tiny".to_string(),
    };
    let violations = validate(&input);
    assert_eq!(violations.len(), 2);
    assert_eq!(violations[0].field, FieldName::Username);
    assert_eq!(violations[0].message, "Username must be less than 24 characters long");
    assert_eq!(violations[1].field, FieldName::Password);
    assert_eq!(violations[1].message, "Password must be at least 8 characters long");
}

#[test]
fn validate_does_not_stop_at_the_first_failure() {
    let input = Register {
        username: "D".repeat(25),
        password: "1234567".to_string(),
    };
    let violations = validate(&input);
    assert!(violations.iter().any(|v| v.field == FieldName::Username));
    assert!(violations.iter().any(|v| v.field == FieldName::Password));
}

#[test]
fn aggregate_message_joins_in_order_with_separator() {
    let input = Register {
        username: "E".repeat(25),
        password: "no".to_string(),
    };
    let violations = validate(&input);
    let message = aggregate_message(&violations);
    assert_eq!(
        message,
        "Username must be less than 24 characters long, Password must be at least 8 characters long"
    );
}

#[test]
fn aggregate_message_of_a_single_violation_is_its_text() {
    let input = Register {
        username: "ok".to_string(),
        password: "no".to_string(),
    };
    let violations = validate(&input);
    assert_eq!(violations.len(), 1);
    let message = aggregate_message(&violations);
    assert_eq!(message, "Password must be at least 8 characters long");
}

#[test]
fn schema_description_is_derived_from_the_declared_rules() {
    let description = schema_description();
    assert_eq!(description.path, "/register");
    assert_eq!(description.method, "POST");
    assert_eq!(description.success_status, 200);
    assert_eq!(description.error_status, 400);
    assert_eq!(description.error_type_value, "validation_error");

    let rules = field_rules();
    assert_eq!(description.request_fields.len(), rules.len());
    for (described, enforced) in description.request_fields.iter().zip(rules.iter()) {
        assert_eq!(described.field, enforced.field);
        assert_eq!(described.min_len, enforced.min_len);
        assert_eq!(described.max_len, enforced.max_len);
        assert_eq!(described.message, enforced.message);
        assert_eq!(described.example, enforced.example);
    }
}
