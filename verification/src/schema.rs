//! Schema model: the shape of the registration input and the declared
//! constraints on each of its fields.
//!
//! The field rules returned by [`field_rules`] are the single source of
//! truth for both the validator and the published schema description.

use vstd::prelude::*;

verus! {

/// The maximum number of characters a username may have.
pub const USERNAME_MAX_LEN: usize = 24;

/// The minimum number of characters a password must have.
pub const PASSWORD_MIN_LEN: usize = 8;

/// A decoded registration payload. Decoding is structural only: the length
/// constraints are not applied here but by the validator.
#[derive(Clone, PartialEq, Eq, Debug)]
pub struct Register {
    pub username: String,
    pub password: String,
}

/// The fields of [`Register`], in declaration order.
#[derive(Clone, Copy, PartialEq, Eq, Structural, Debug)]
pub enum FieldName {
    Username,
    Password,
}

/// One declared constraint: length bounds on a field, the fixed message
/// reported when the bounds are not met, and an example value for the
/// published schema description.
pub struct FieldRule {
    pub field: FieldName,
    pub min_len: Option<usize>,
    pub max_len: Option<usize>,
    pub message: String,
    pub example: String,
}

/// The mathematical content of a [`FieldRule`].
pub struct FieldRuleModel {
    pub field: FieldName,
    pub min_len: Option<usize>,
    pub max_len: Option<usize>,
    pub message: Seq<char>,
    pub example: Seq<char>,
}

impl View for FieldRule {
    type V = FieldRuleModel;

    open spec fn view(&self) -> FieldRuleModel {
        FieldRuleModel {
            field: self.field,
            min_len: self.min_len,
            max_len: self.max_len,
            message: self.message@,
            example: self.example@,
        }
    }
}

/// The fixed message reported when the username is too long.
pub open spec fn spec_username_message() -> Seq<char> {
    "Username must be less than 24 characters long"@
}

/// The fixed message reported when the password is too short.
pub open spec fn spec_password_message() -> Seq<char> {
    "Password must be at least 8 characters long"@
}

/// The name of a field as it appears in the serialized payload.
pub open spec fn spec_field_name(f: FieldName) -> Seq<char> {
    match f {
        FieldName::Username => "username"@,
        FieldName::Password => "password"@,
    }
}

/// A rule accepts a value exactly when the value's character count lies
/// within the declared bounds.
pub open spec fn rule_accepts(rule: FieldRuleModel, value: Seq<char>) -> bool {
    &&& (rule.min_len matches Some(m) ==> value.len() >= m)
    &&& (rule.max_len matches Some(m) ==> value.len() <= m)
}

/// The declared rules, in field declaration order: username first, then
/// password.
pub open spec fn spec_field_rules() -> Seq<FieldRuleModel> {
    seq![
        FieldRuleModel {
            field: FieldName::Username,
            min_len: None,
            max_len: Some(USERNAME_MAX_LEN),
            message: spec_username_message(),
            example: "JohnDoe"@,
        },
        FieldRuleModel {
            field: FieldName::Password,
            min_len: Some(PASSWORD_MIN_LEN),
            max_len: None,
            message: spec_password_message(),
            example: "Xi481caqe9ro8r7isq821"@,
        },
    ]
}

impl FieldName {
    /// The field's name as it appears in the serialized payload.
    pub fn name(&self) -> (s: String)
        ensures
            s@ == spec_field_name(*self),
    {
        match self {
            FieldName::Username => String::from_str("username"),
            FieldName::Password => String::from_str("password"),
        }
    }
}

/// The declared rules as concrete data, consulted by the validator and by
/// the schema description alike.
pub fn field_rules() -> (rules: Vec<FieldRule>)
    ensures
        rules@.len() == spec_field_rules().len(),
        forall|i: int| 0 <= i < rules@.len() ==> rules@[i]@ == spec_field_rules()[i],
{
    let mut rules: Vec<FieldRule> = Vec::new();
    rules.push(FieldRule {
        field: FieldName::Username,
        min_len: None,
        max_len: Some(USERNAME_MAX_LEN),
        message: String::from_str("Username must be less than 24 characters long"),
        example: String::from_str("JohnDoe"),
    });
    rules.push(FieldRule {
        field: FieldName::Password,
        min_len: Some(PASSWORD_MIN_LEN),
        max_len: None,
        message: String::from_str("Password must be at least 8 characters long"),
        example: String::from_str("Xi481caqe9ro8r7isq821"),
    });
    assert(rules@[0]@ == spec_field_rules()[0]);
    assert(rules@[1]@ == spec_field_rules()[1]);
    rules
}

} // verus!
