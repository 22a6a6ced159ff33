//! What every built-in template offers, and the registry that finds a
//! template by its identifier.

use vstd::prelude::*;
use crate::base::error::DocumentError;
use crate::json::{json_members, members_view, payload_members, JsonKind, JsonMember};
use crate::templates::templates::fiscal_invoice::FiscalInvoiceTemplate;
use crate::templates::templates::receipt::ReceiptTemplate;
use crate::templates::templates::report::ReportTemplate;
use crate::templates::templates::simple_invoice::SimpleInvoiceTemplate;
use crate::text::{push_text, same_text};

verus! {

/// What one character becomes in markup: the at sign, the hash and the
/// dollar sign get a backslash in front, every other character stays.
pub open spec fn escaped_char(c: char) -> Seq<char> {
    if c == '@' || c == '#' || c == '$' {
        seq!['\\', c]
    } else {
        seq![c]
    }
}

/// A text with the characters that mean something in markup escaped.
pub open spec fn escaped_text(text: Seq<char>) -> Seq<char>
    decreases text.len(),
{
    if text.len() == 0 {
        Seq::empty()
    } else {
        escaped_text(text.drop_last()) + escaped_char(text.last())
    }
}

/// Escapes the characters of `text` that mean something in markup.
pub fn escape_typst(text: &str) -> (escaped: String)
    ensures
        escaped@ == escaped_text(text@),
{
    let chars = crate::text::chars_of(text);
    let mut out = String::new();
    let mut i: usize = 0;
    while i < chars.len()
        invariant
            chars@ == text@,
            0 <= i <= chars.len(),
            out@ == escaped_text(text@.subrange(0, i as int)),
        decreases chars.len() - i,
    {
        let c = chars[i];
        proof {
            assert(text@.subrange(0, i + 1).drop_last() =~= text@.subrange(0, i as int));
            assert(text@.subrange(0, i + 1).last() == c);
        }
        if c == '@' || c == '#' || c == '$' {
            out.push('\\');
        }
        out.push(c);
        i = i + 1;
        assert(out@ =~= escaped_text(text@.subrange(0, i as int)));
    }
    assert(text@.subrange(0, i as int) =~= text@);
    out
}

/// Whether one of `members` has the name `name`.
pub open spec fn has_member(members: Seq<(Seq<char>, JsonKind)>, name: Seq<char>) -> bool {
    exists|i: int| 0 <= i < members.len() && (#[trigger] members[i]).0 == name
}

/// Whether one of `members` has the name `name` and holds an array.
pub open spec fn has_array_member(members: Seq<(Seq<char>, JsonKind)>, name: Seq<char>) -> bool {
    exists|i: int|
        0 <= i < members.len() && (#[trigger] members[i]).0 == name && members[i].1
            == JsonKind::Array
}

/// The first of the `required` names that none of `members` has, if any.
pub open spec fn missing_field(required: Seq<Seq<char>>, members: Seq<(Seq<char>, JsonKind)>)
    -> Option<Seq<char>>
    decreases required.len(),
{
    if required.len() == 0 {
        None
    } else if !has_member(members, required[0]) {
        Some(required[0])
    } else {
        missing_field(required.drop_first(), members)
    }
}

/// Why data is refused by a template, if it is: it is no object, or it lacks
/// a required field, or its `items` are no array where the template needs
/// one.
pub open spec fn validation_failure(
    described: Option<Seq<(Seq<char>, JsonKind)>>,
    required: Seq<Seq<char>>,
    items_array: bool,
) -> Option<Seq<char>> {
    match described {
        None => Some("Los datos deben ser un objeto JSON"@),
        Some(members) => match missing_field(required, members) {
            Some(field) => Some("Campo requerido faltante: "@ + field),
            None => if items_array && !has_array_member(members, "items"@) {
                Some("El campo 'items' debe ser un array"@)
            } else {
                None
            },
        },
    }
}

/// The names of a list of fields.
pub open spec fn field_names(fields: Seq<String>) -> Seq<Seq<char>> {
    Seq::new(fields.len(), |i: int| fields[i]@)
}

fn find_member(members: &Vec<JsonMember>, name: &str, array_only: bool) -> (found: bool)
    ensures
        !array_only ==> found == has_member(members_view(members@), name@),
        array_only ==> found == has_array_member(members_view(members@), name@),
{
    let mut i: usize = 0;
    while i < members.len()
        invariant
            0 <= i <= members@.len(),
            forall|j: int|
                0 <= j < i ==> !((#[trigger] members_view(members@)[j]).0 == name@ && (!array_only
                    || members_view(members@)[j].1 == JsonKind::Array)),
        decreases members.len() - i,
    {
        let member = &members[i];
        assert(members_view(members@)[i as int] == (member.name@, member.kind));
        if same_text(member.name.as_str(), name) {
            let is_array = match member.kind {
                JsonKind::Array => true,
                _ => false,
            };
            if !array_only || is_array {
                return true;
            }
        }
        i = i + 1;
    }
    false
}

/// Checks the members of a payload against what a template needs: the
/// fields named in `required`, and an array under `items` where
/// `items_array` is set. `members` is `None` for a payload that is no
/// object.
pub fn validate_members(members: &Option<Vec<JsonMember>>, required: &Vec<String>, items_array: bool) -> (checked:
    Result<(), DocumentError>)
    ensures
        match validation_failure(
            match *members {
                Some(list) => Some(members_view(list@)),
                None => None,
            },
            field_names(required@),
            items_array,
        ) {
            Some(reason) => checked matches Err(DocumentError::ValidationError(message))
                && message@ == reason,
            None => checked is Ok,
        },
{
    match members {
        None => Err(DocumentError::ValidationError("Los datos deben ser un objeto JSON".to_owned())),
        Some(list) => {
            let mut i: usize = 0;
            assert(field_names(required@).subrange(0, required@.len() as int) =~= field_names(
                required@,
            ));
            while i < required.len()
                invariant
                    0 <= i <= required@.len(),
                    *members == Some(*list),
                    missing_field(field_names(required@), members_view(list@)) == missing_field(
                        field_names(required@).subrange(i as int, required@.len() as int),
                        members_view(list@),
                    ),
                decreases required.len() - i,
            {
                let ghost rest = field_names(required@).subrange(
                    i as int,
                    required@.len() as int,
                );
                assert(rest.len() > 0);
                assert(rest[0] == required@[i as int]@);
                assert(missing_field(rest, members_view(list@)) == if !has_member(
                    members_view(list@),
                    rest[0],
                ) {
                    Some(rest[0])
                } else {
                    missing_field(rest.drop_first(), members_view(list@))
                });
                assert(rest.drop_first() =~= field_names(required@).subrange(
                    i + 1,
                    required@.len() as int,
                ));
                if !find_member(list, required[i].as_str(), false) {
                    let mut message = String::new();
                    push_text(&mut message, "Campo requerido faltante: ");
                    push_text(&mut message, required[i].as_str());
                    assert(message@ =~= "Campo requerido faltante: "@ + required@[i as int]@);
                    return Err(DocumentError::ValidationError(message));
                }
                i = i + 1;
            }
            assert(field_names(required@).subrange(i as int, required@.len() as int).len() == 0);
            if items_array && !find_member(list, "items", true) {
                return Err(
                    DocumentError::ValidationError("El campo 'items' debe ser un array".to_owned()),
                );
            }
            Ok(())
        },
    }
}

/// Validates the JSON text `data` for a template that needs the fields
/// `required`.
pub fn validate_payload(data: &str, required: &Vec<String>, items_array: bool) -> (checked: Result<
    (),
    DocumentError,
>)
    ensures
        match validation_failure(json_members(data@), field_names(required@), items_array) {
            Some(reason) => checked matches Err(DocumentError::ValidationError(message))
                && message@ == reason,
            None => checked is Ok,
        },
{
    let members = payload_members(data);
    validate_members(&members, required, items_array)
}

/// One of the built-in templates.
#[derive(Debug, Clone, Copy, PartialEq, Eq, Structural)]
pub enum TemplateKind {
    FiscalInvoice,
    SimpleInvoice,
    Receipt,
    Report,
}

impl TemplateKind {
    /// The identifier of the template.
    pub open spec fn id_text(self) -> Seq<char> {
        match self {
            TemplateKind::FiscalInvoice => "fiscal_invoice"@,
            TemplateKind::SimpleInvoice => "simple_invoice"@,
            TemplateKind::Receipt => "receipt"@,
            TemplateKind::Report => "report"@,
        }
    }

    /// The identifier of the template.
    pub fn template_id(&self) -> (id: &'static str)
        ensures
            id@ == self.id_text(),
    {
        match self {
            TemplateKind::FiscalInvoice => FiscalInvoiceTemplate::new().template_id(),
            TemplateKind::SimpleInvoice => SimpleInvoiceTemplate::new().template_id(),
            TemplateKind::Receipt => ReceiptTemplate::new().template_id(),
            TemplateKind::Report => ReportTemplate::new().template_id(),
        }
    }

    /// What the template is for, in a few words.
    pub open spec fn description_text(self) -> Seq<char> {
        match self {
            TemplateKind::FiscalInvoice => "Factura Fiscal Electrónica (República Dominicana)"@,
            TemplateKind::SimpleInvoice => "Factura Simple (sin información fiscal)"@,
            TemplateKind::Receipt => "Recibo de Pago"@,
            TemplateKind::Report => "Reporte General con Datos y Resumen"@,
        }
    }

    /// What the template is for, in a few words.
    pub fn description(&self) -> (text: &'static str)
        ensures
            text@ == self.description_text(),
    {
        match self {
            TemplateKind::FiscalInvoice => FiscalInvoiceTemplate::new().description(),
            TemplateKind::SimpleInvoice => SimpleInvoiceTemplate::new().description(),
            TemplateKind::Receipt => ReceiptTemplate::new().description(),
            TemplateKind::Report => ReportTemplate::new().description(),
        }
    }

    /// Checks that the JSON text `data` has what the template needs.
    pub fn validate(&self, data: &str) -> (checked: Result<(), DocumentError>)
        ensures
            match validation_failure(
                json_members(data@),
                self.required_names(),
                *self == TemplateKind::FiscalInvoice,
            ) {
                Some(reason) => checked matches Err(DocumentError::ValidationError(message))
                    && message@ == reason,
                None => checked is Ok,
            },
    {
        match self {
            TemplateKind::FiscalInvoice => FiscalInvoiceTemplate::new().validate(data),
            TemplateKind::SimpleInvoice => SimpleInvoiceTemplate::new().validate(data),
            TemplateKind::Receipt => ReceiptTemplate::new().validate(data),
            TemplateKind::Report => ReportTemplate::new().validate(data),
        }
    }

    /// The fields that the data of the template must have.
    pub open spec fn required_names(self) -> Seq<Seq<char>> {
        match self {
            TemplateKind::FiscalInvoice => crate::templates::templates::fiscal_invoice::fiscal_invoice_fields(),
            TemplateKind::SimpleInvoice => crate::templates::templates::simple_invoice::simple_invoice_fields(),
            TemplateKind::Receipt => crate::templates::templates::receipt::receipt_fields(),
            TemplateKind::Report => crate::templates::templates::report::report_fields(),
        }
    }
}

/// The template that `id` names, if it names one.
pub open spec fn kind_of_id(id: Seq<char>) -> Option<TemplateKind> {
    if id == "fiscal_invoice"@ {
        Some(TemplateKind::FiscalInvoice)
    } else if id == "simple_invoice"@ {
        Some(TemplateKind::SimpleInvoice)
    } else if id == "receipt"@ {
        Some(TemplateKind::Receipt)
    } else if id == "report"@ {
        Some(TemplateKind::Report)
    } else {
        None
    }
}

/// The built-in templates, found by their identifiers in a table that is built once.
#[derive(Debug)]
pub struct TemplateRegistry { templates: Vec<TemplateKind> }

impl TemplateRegistry {
    /// The registry of the built-in templates, with its table filled.
    pub fn new() -> (registry: TemplateRegistry)
        ensures
            registry.table() == Self::kinds(),
    {
        let mut templates: Vec<TemplateKind> = Vec::new();
        templates.push(TemplateKind::FiscalInvoice);
        templates.push(TemplateKind::SimpleInvoice);
        templates.push(TemplateKind::Receipt);
        templates.push(TemplateKind::Report);
        assert(templates@ =~= Self::kinds());
        TemplateRegistry { templates }
    }

    #[verifier::type_invariant]
    spec fn holds_the_built_ins(self) -> bool {
        self.templates@ == Self::kinds()
    }

    /// The templates of the table, in the order in which they were entered.
    pub closed spec fn table(self) -> Seq<TemplateKind> {
        self.templates@
    }

    /// The kinds of the built-in templates, in the order in which they are
    /// entered and listed.
    pub open spec fn kinds() -> Seq<TemplateKind> {
        seq![
            TemplateKind::FiscalInvoice,
            TemplateKind::SimpleInvoice,
            TemplateKind::Receipt,
            TemplateKind::Report,
        ]
    }

    /// The template with the identifier `template_id`: the first of the
    /// table that has it.
    pub fn get(&self, template_id: &str) -> (found: Option<TemplateKind>)
        ensures
            found == kind_of_id(template_id@),
            self.table() == Self::kinds(),
    {
        proof {
            use_type_invariant(self);
        }
        let mut i: usize = 0;
        while i < self.templates.len()
            invariant
                0 <= i <= self.templates@.len(),
                self.templates@ == Self::kinds(),
                forall|j: int| 0 <= j < i ==> (#[trigger] Self::kinds()[j]).id_text() != template_id@,
            decreases self.templates.len() - i,
        {
            let kind = self.templates[i];
            if same_text(kind.template_id(), template_id) {
                proof {
                    if i >= 1 {
                        assert(Self::kinds()[0].id_text() != template_id@);
                    }
                    if i >= 2 {
                        assert(Self::kinds()[1].id_text() != template_id@);
                    }
                    if i >= 3 {
                        assert(Self::kinds()[2].id_text() != template_id@);
                    }
                }
                return Some(kind);
            }
            i = i + 1;
        }
        proof {
            assert(Self::kinds()[0].id_text() != template_id@);
            assert(Self::kinds()[1].id_text() != template_id@);
            assert(Self::kinds()[2].id_text() != template_id@);
            assert(Self::kinds()[3].id_text() != template_id@);
        }
        None
    }

    /// Whether a template has the identifier `template_id`.
    pub fn contains(&self, template_id: &str) -> (known: bool)
        ensures
            known == kind_of_id(template_id@) is Some,
    {
        self.get(template_id).is_some()
    }

    /// Every template of the table with its description: fiscal invoice,
    /// simple invoice, receipt and report, in this order.
    pub fn list(&self) -> (templates: Vec<(String, String)>)
        ensures
            templates@.len() == 4,
            forall|i: int|
                0 <= i < 4 ==> (#[trigger] templates@[i]).0@ == Self::kinds()[i].id_text()
                    && templates@[i].1@ == Self::kinds()[i].description_text(),
    {
        proof {
            use_type_invariant(self);
        }
        let mut templates: Vec<(String, String)> = Vec::new();
        let mut i: usize = 0;
        while i < self.templates.len()
            invariant
                0 <= i <= self.templates@.len(),
                self.templates@ == Self::kinds(),
                templates@.len() == i,
                forall|j: int|
                    0 <= j < i ==> (#[trigger] templates@[j]).0@ == Self::kinds()[j].id_text()
                        && templates@[j].1@ == Self::kinds()[j].description_text(),
            decreases self.templates.len() - i,
        {
            let kind = self.templates[i];
            templates.push((kind.template_id().to_owned(), kind.description().to_owned()));
            i = i + 1;
        }
        templates
    }
}

impl Default for TemplateRegistry {
    fn default() -> (registry: TemplateRegistry)
        ensures
            registry.table() == TemplateRegistry::kinds(),
    {
        TemplateRegistry::new()
    }
}

} // verus!
