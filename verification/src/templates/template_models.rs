//! The data that the built-in templates are filled with, as far as it holds
//! no amounts.

use vstd::prelude::*;

verus! {

/// The company that issues a document.
#[derive(Debug, Clone)]
pub struct CompanyInfo {
    pub name: String,
    pub legal_name: Option<String>,
    pub tax_id: String,
    pub address: Address,
    pub phone: Option<String>,
    pub email: Option<String>,
    pub website: Option<String>,
    pub logo_path: Option<String>,
}

/// The client that a document is issued to.
#[derive(Debug, Clone)]
pub struct ClientInfo {
    pub name: String,
    pub legal_name: Option<String>,
    pub tax_id: String,
    pub address: Option<Address>,
    pub phone: Option<String>,
    pub email: Option<String>,
}

/// A postal address.
#[derive(Debug, Clone)]
pub struct Address {
    pub street: String,
    pub city: String,
    pub state: Option<String>,
    pub postal_code: Option<String>,
    pub country: String,
}

/// The fiscal data of an electronic invoice.
#[derive(Debug, Clone)]
pub struct FiscalInfo {
    pub e_ncf: String,
    pub security_code: String,
    pub signature_date: String,
    pub qr_data: String,
    pub expiration_date: Option<String>,
}

/// How an invoice is paid.
#[derive(Debug, Clone)]
pub struct PaymentInfo {
    pub method: String,
    pub terms: Option<String>,
    pub bank_info: Option<BankInfo>,
    pub paid: bool,
    pub paid_date: Option<String>,
}

/// The bank account to which an invoice is paid.
#[derive(Debug, Clone)]
pub struct BankInfo {
    pub bank_name: String,
    pub account_number: String,
    pub routing_number: Option<String>,
    pub swift_code: Option<String>,
}

/// The period that a report covers.
#[derive(Debug, Clone)]
pub struct ReportPeriod {
    pub start_date: String,
    pub end_date: String,
}

impl PaymentInfo {
    /// The payment terms as they are printed: those given, else immediate
    /// payment.
    pub open spec fn terms_text(self) -> Seq<char> {
        match self.terms {
            Some(terms) => terms@,
            None => "Inmediato"@,
        }
    }

    /// The payment terms as they are printed.
    pub fn printed_terms(&self) -> (text: String)
        ensures
            text@ == self.terms_text(),
    {
        match &self.terms {
            Some(terms) => terms.clone(),
            None => "Inmediato".to_owned(),
        }
    }
}

impl FiscalInfo {
    /// The date until which the invoice is valid, as it is printed: the one
    /// given, else without limit.
    pub open spec fn validity_text(self) -> Seq<char> {
        match self.expiration_date {
            Some(date) => date@,
            None => "Indefinido"@,
        }
    }

    /// The date until which the invoice is valid, as it is printed.
    pub fn printed_validity(&self) -> (text: String)
        ensures
            text@ == self.validity_text(),
    {
        match &self.expiration_date {
            Some(date) => date.clone(),
            None => "Indefinido".to_owned(),
        }
    }
}

} // verus!
