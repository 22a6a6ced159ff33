//! The parts of an invoice request that carry no amounts.

use vstd::prelude::*;
use std::collections::HashMap;

verus! {

/// Where an invoice stands with its customer.
#[derive(Debug, Clone, Copy, PartialEq, Eq, Structural)]
pub enum InvoiceStatus {
    Draft,
    Sent,
    Paid,
    Partial,
    Overdue,
    Cancelled,
}

impl InvoiceStatus {
    /// Whether nothing more is owed or expected on the invoice.
    pub fn is_closed(&self) -> (closed: bool)
        ensures
            closed == (*self == InvoiceStatus::Paid || *self == InvoiceStatus::Cancelled),
    {
        match self {
            InvoiceStatus::Paid => true,
            InvoiceStatus::Cancelled => true,
            _ => false,
        }
    }
}

/// The bank details printed on an invoice.
#[derive(Debug, Clone)]
pub struct PaymentInfo {
    pub bank_name: Option<String>,
    pub account_name: Option<String>,
    pub account_number: Option<String>,
    pub routing_number: Option<String>,
    pub swift_code: Option<String>,
    pub payment_methods: Option<Vec<PaymentMethod>>,
}

/// One accepted way of paying, such as a bank transfer or a credit card, with
/// its details.
#[derive(Debug, Clone)]
pub struct PaymentMethod {
    pub method_type: String,
    pub details: HashMap<String, String>,
}

} // verus!
