//! The payment receipt.

use vstd::prelude::*;
use crate::base::error::DocumentError;
use crate::json::json_members;
use crate::templates::template_trait::{field_names, validate_payload, validation_failure};

verus! {

/// A receipt of payment.
#[derive(Debug, Clone, Copy)]
pub struct ReceiptTemplate {}

/// The fields that the data of the template must have, in the order in which
/// they are checked.
pub open spec fn receipt_fields() -> Seq<Seq<char>> {
    seq!["receipt_number"@, "date"@, "vendor"@, "items"@, "total"@, "payment_method"@, "currency"@]
}

impl ReceiptTemplate {
    /// The template.
    pub fn new() -> (template: ReceiptTemplate) {
        ReceiptTemplate {  }
    }

    /// The identifier of the template.
    pub fn template_id(&self) -> (id: &'static str)
        ensures
            id@ == "receipt"@,
    {
        "receipt"
    }

    /// What the template is for, in a few words.
    pub fn description(&self) -> (text: &'static str)
        ensures
            text@ == "Recibo de Pago"@,
    {
        "Recibo de Pago"
    }

    /// The fields that the data must have.
    pub fn required_fields(&self) -> (fields: Vec<String>)
        ensures
            field_names(fields@) == receipt_fields(),
    {
        let mut fields: Vec<String> = Vec::new();
        fields.push("receipt_number".to_owned());
        fields.push("date".to_owned());
        fields.push("vendor".to_owned());
        fields.push("items".to_owned());
        fields.push("total".to_owned());
        fields.push("payment_method".to_owned());
        fields.push("currency".to_owned());
        assert(field_names(fields@) =~= receipt_fields());
        fields
    }

    /// Checks that the JSON text `data` is an object with every required
    /// field.
    pub fn validate(&self, data: &str) -> (checked: Result<(), DocumentError>)
        ensures
            match validation_failure(json_members(data@), receipt_fields(), false) {
                Some(reason) => checked matches Err(DocumentError::ValidationError(message))
                    && message@ == reason,
                None => checked is Ok,
            },
    {
        let required = self.required_fields();
        validate_payload(data, &required, false)
    }
}

} // verus!
