//! Request handler: maps a decoded registration payload to either a success
//! result carrying the payload unchanged, or a failure result carrying a
//! structured validation error with an aggregated message.

use vstd::prelude::*;
use crate::schema::{
    Register, USERNAME_MAX_LEN, PASSWORD_MIN_LEN, spec_username_message, spec_password_message,
};
use crate::validator::{
    Violation, validate, aggregate_message, spec_violations, violation_messages, spec_joined,
    spec_separator, username_valid, password_valid, spec_accepted,
};

verus! {

/// The HTTP-style status of a success response.
pub const STATUS_OK: u16 = 200;

/// The HTTP-style status of a validation-failure response.
pub const STATUS_BAD_REQUEST: u16 = 400;

/// The structured error returned when one or more constraints are unmet:
/// a constant error type and a single aggregated message.
#[derive(Clone, PartialEq, Eq, Debug)]
pub struct ErrorResponse {
    pub error_type: String,
    pub message: String,
}

/// The constant value of [`ErrorResponse::error_type`].
pub open spec fn spec_error_type() -> Seq<char> {
    "validation_error"@
}

/// The aggregated message for a rejected payload: all violation messages,
/// joined with the separator, in field declaration order.
pub open spec fn spec_error_message(username: Seq<char>, password: Seq<char>) -> Seq<char> {
    spec_joined(violation_messages(spec_violations(username, password)))
}

/// An abstract response: a status code and either the echoed registration
/// payload or the structured error.
pub struct ResponseModel {
    pub status: u16,
    pub body: BodyModel,
}

/// The body of an abstract response.
pub enum BodyModel {
    Registration { username: Seq<char>, password: Seq<char> },
    Failure { error_type: Seq<char>, message: Seq<char> },
}

/// The one response the system owes a decoded payload: status 200 with the
/// payload echoed back unchanged when it is accepted, status 400 with the
/// structured error otherwise.
pub open spec fn spec_response(username: Seq<char>, password: Seq<char>) -> ResponseModel {
    if spec_accepted(username, password) {
        ResponseModel {
            status: STATUS_OK,
            body: BodyModel::Registration { username, password },
        }
    } else {
        ResponseModel {
            status: STATUS_BAD_REQUEST,
            body: BodyModel::Failure {
                error_type: spec_error_type(),
                message: spec_error_message(username, password),
            },
        }
    }
}

/// The abstract response that a concrete handler result stands for.
pub open spec fn response_model(
    result: Result<(u16, Register), (u16, ErrorResponse)>,
) -> ResponseModel {
    match result {
        Ok((status, body)) => ResponseModel {
            status,
            body: BodyModel::Registration {
                username: body.username@,
                password: body.password@,
            },
        },
        Err((status, error)) => ResponseModel {
            status,
            body: BodyModel::Failure {
                error_type: error.error_type@,
                message: error.message@,
            },
        },
    }
}

/// Validate a decoded payload: `Ok` with the payload unchanged exactly when
/// every constraint is met, `Err` with the structured validation error
/// otherwise.
pub fn validate_registration(input: Register) -> (result: Result<Register, ErrorResponse>)
    ensures
        spec_accepted(input.username@, input.password@) <==> result is Ok,
        result matches Ok(echoed) ==> echoed == input,
        result matches Err(error) ==> {
            &&& error.error_type@ == spec_error_type()
            &&& error.message@ == spec_error_message(input.username@, input.password@)
        },
{
    let ghost u = input.username@;
    let ghost p = input.password@;
    let violations = validate(&input);
    if violations.len() == 0 {
        proof {
            assert(spec_violations(u, p).len() == 0);
            assert(spec_accepted(u, p));
        }
        Ok(input)
    } else {
        let message = aggregate_message(&violations);
        proof {
            assert(violation_messages(violations@.map_values(|v: Violation| v@))
                == violation_messages(spec_violations(u, p)));
            assert(!spec_accepted(u, p));
        }
        Err(ErrorResponse { error_type: String::from_str("validation_error"), message })
    }
}

/// Handle one decoded registration request: status 200 and the payload
/// echoed back unchanged when it is accepted, status 400 and the structured
/// error otherwise. The outcome is a pure function of the payload alone.
pub fn register(input: Register) -> (response: Result<(u16, Register), (u16, ErrorResponse)>)
    ensures
        response_model(response) == spec_response(input.username@, input.password@),
        spec_accepted(input.username@, input.password@) <==> response is Ok,
        response matches Ok((status, echoed)) ==> status == STATUS_OK && echoed == input,
        response matches Err((status, error)) ==> {
            &&& status == STATUS_BAD_REQUEST
            &&& error.error_type@ == spec_error_type()
            &&& error.message@ == spec_error_message(input.username@, input.password@)
        },
{
    match validate_registration(input) {
        Ok(echoed) => Ok((STATUS_OK, echoed)),
        Err(error) => Err((STATUS_BAD_REQUEST, error)),
    }
}

/// An accepted payload is answered with status 200 and echoed back
/// byte-for-byte: the response body is the input, unmodified.
pub proof fn lemma_accepted_input_echoed(username: Seq<char>, password: Seq<char>)
    requires
        username.len() <= USERNAME_MAX_LEN,
        password.len() >= PASSWORD_MIN_LEN,
    ensures
        spec_response(username, password) == (ResponseModel {
            status: STATUS_OK,
            body: BodyModel::Registration { username, password },
        }),
{
}

/// Some text occurs contiguously inside another.
pub open spec fn text_contains(text: Seq<char>, part: Seq<char>) -> bool {
    exists|k: int|
        0 <= k && k + part.len() <= text.len() && #[trigger] text.subrange(k, k + part.len())
            == part
}

/// The aggregated message for a rejected payload, by case: the username
/// violation message, the password violation message, or both joined in
/// field declaration order (username before password).
pub proof fn lemma_error_message_cases(username: Seq<char>, password: Seq<char>)
    ensures
        !username_valid(username) && password_valid(password) ==> spec_error_message(
            username,
            password,
        ) == spec_username_message(),
        username_valid(username) && !password_valid(password) ==> spec_error_message(
            username,
            password,
        ) == spec_password_message(),
        !username_valid(username) && !password_valid(password) ==> spec_error_message(
            username,
            password,
        ) == spec_username_message() + spec_separator() + spec_password_message(),
{
    let msgs = violation_messages(spec_violations(username, password));
    if !username_valid(username) && !password_valid(password) {
        assert(msgs.len() == 2);
        assert(msgs[0] == spec_username_message());
        assert(msgs[1] == spec_password_message());
        assert(msgs.drop_first().len() == 1);
        assert(msgs.drop_first().first() == spec_password_message());
        assert(spec_joined(msgs.drop_first()) == spec_password_message());
        assert(spec_joined(msgs) == spec_username_message() + spec_separator()
            + spec_password_message());
    } else if !username_valid(username) {
        assert(msgs.len() == 1);
        assert(msgs.first() == spec_username_message());
    } else if !password_valid(password) {
        assert(msgs.len() == 1);
        assert(msgs.first() == spec_password_message());
    }
}

/// Every username-length violation is reported: whenever the username is
/// too long, the response has status 400 and its message contains the
/// username violation text.
pub proof fn lemma_long_username_reported(username: Seq<char>, password: Seq<char>)
    requires
        username.len() > USERNAME_MAX_LEN,
    ensures
        spec_response(username, password).status == STATUS_BAD_REQUEST,
        spec_response(username, password).body matches BodyModel::Failure { error_type, message }
            && error_type == spec_error_type()
            && text_contains(message, spec_username_message()),
{
    lemma_error_message_cases(username, password);
    let message = spec_error_message(username, password);
    let part = spec_username_message();
    let k: int = 0;
    assert(message.subrange(k, k + part.len()) =~= part);
    assert(text_contains(message, part));
}

/// Every password-length violation is reported: whenever the password is
/// too short, the response has status 400 and its message contains the
/// password violation text.
pub proof fn lemma_short_password_reported(username: Seq<char>, password: Seq<char>)
    requires
        password.len() < PASSWORD_MIN_LEN,
    ensures
        spec_response(username, password).status == STATUS_BAD_REQUEST,
        spec_response(username, password).body matches BodyModel::Failure { error_type, message }
            && error_type == spec_error_type()
            && text_contains(message, spec_password_message()),
{
    lemma_error_message_cases(username, password);
    let message = spec_error_message(username, password);
    let part = spec_password_message();
    let k = message.len() - part.len();
    assert(message.subrange(k, k + part.len()) =~= part);
    assert(text_contains(message, part));
}

/// When both constraints are violated at once, the message carries both
/// violation texts, username before password, joined by the separator.
pub proof fn lemma_both_violations_reported(username: Seq<char>, password: Seq<char>)
    requires
        username.len() > USERNAME_MAX_LEN,
        password.len() < PASSWORD_MIN_LEN,
    ensures
        spec_response(username, password).status == STATUS_BAD_REQUEST,
        spec_error_message(username, password) == spec_username_message() + spec_separator()
            + spec_password_message(),
{
    lemma_error_message_cases(username, password);
}

/// Handling the same payload twice yields the same response: the handler's
/// contract pins the whole response to the payload, so nothing can differ
/// between repetitions.
pub proof fn lemma_register_idempotent(
    input: Register,
    first: Result<(u16, Register), (u16, ErrorResponse)>,
    second: Result<(u16, Register), (u16, ErrorResponse)>,
)
    requires
        response_model(first) == spec_response(input.username@, input.password@),
        response_model(second) == spec_response(input.username@, input.password@),
    ensures
        response_model(first) == response_model(second),
{
}

} // verus!
