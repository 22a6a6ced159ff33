//! The plain invoice.

use vstd::prelude::*;
use crate::base::error::DocumentError;
use crate::json::json_members;
use crate::templates::template_trait::{field_names, validate_payload, validation_failure};

verus! {

/// An invoice without fiscal data.
#[derive(Debug, Clone, Copy)]
pub struct SimpleInvoiceTemplate {}

/// The fields that the data of the template must have, in the order in which
/// they are checked.
pub open spec fn simple_invoice_fields() -> Seq<Seq<char>> {
    seq!["invoice_number"@, "company_info"@, "client_info"@, "items"@, "totals"@]
}

impl SimpleInvoiceTemplate {
    /// The template.
    pub fn new() -> (template: SimpleInvoiceTemplate) {
        SimpleInvoiceTemplate {  }
    }

    /// The identifier of the template.
    pub fn template_id(&self) -> (id: &'static str)
        ensures
            id@ == "simple_invoice"@,
    {
        "simple_invoice"
    }

    /// What the template is for, in a few words.
    pub fn description(&self) -> (text: &'static str)
        ensures
            text@ == "Factura Simple (sin información fiscal)"@,
    {
        "Factura Simple (sin información fiscal)"
    }

    /// The fields that the data must have.
    pub fn required_fields(&self) -> (fields: Vec<String>)
        ensures
            field_names(fields@) == simple_invoice_fields(),
    {
        let mut fields: Vec<String> = Vec::new();
        fields.push("invoice_number".to_owned());
        fields.push("company_info".to_owned());
        fields.push("client_info".to_owned());
        fields.push("items".to_owned());
        fields.push("totals".to_owned());
        assert(field_names(fields@) =~= simple_invoice_fields());
        fields
    }

    /// Checks that the JSON text `data` is an object with every required
    /// field.
    pub fn validate(&self, data: &str) -> (checked: Result<(), DocumentError>)
        ensures
            match validation_failure(json_members(data@), simple_invoice_fields(), false) {
                Some(reason) => checked matches Err(DocumentError::ValidationError(message))
                    && message@ == reason,
                None => checked is Ok,
            },
    {
        let required = self.required_fields();
        validate_payload(data, &required, false)
    }
}

} // verus!
