//! Documentation publisher: a machine-readable description of the
//! endpoint's request shape, field constraints and response shapes,
//! derived from the same declarations the validator enforces, so the
//! documented rules and the enforced rules cannot drift apart.

use vstd::prelude::*;
use crate::schema::{FieldRule, field_rules, spec_field_rules};
use crate::handler::{STATUS_OK, STATUS_BAD_REQUEST, spec_error_type};

verus! {

/// A static description of the endpoint: its path and method, the declared
/// field rules of the request body, and the two possible response shapes.
pub struct SchemaDescription {
    pub path: String,
    pub method: String,
    pub request_fields: Vec<FieldRule>,
    pub success_status: u16,
    pub error_status: u16,
    pub error_type_value: String,
}

/// Derive the schema description from the declared field rules. The
/// description carries exactly the rules the validator enforces, and the
/// statuses and error type the handler produces.
pub fn schema_description() -> (description: SchemaDescription)
    ensures
        description.path@ == "/register"@,
        description.method@ == "POST"@,
        description.request_fields@.len() == spec_field_rules().len(),
        forall|i: int|
            0 <= i < description.request_fields@.len() ==> (
            #[trigger] description.request_fields@[i])@ == spec_field_rules()[i],
        description.success_status == STATUS_OK,
        description.error_status == STATUS_BAD_REQUEST,
        description.error_type_value@ == spec_error_type(),
{
    SchemaDescription {
        path: String::from_str("/register"),
        method: String::from_str("POST"),
        request_fields: field_rules(),
        success_status: STATUS_OK,
        error_status: STATUS_BAD_REQUEST,
        error_type_value: String::from_str("validation_error"),
    }
}

} // verus!
