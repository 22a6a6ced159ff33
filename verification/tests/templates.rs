use document_generator::base::error::DocumentError;
use document_generator::json::{payload_members, JsonKind};
use document_generator::templates::template_engine::{
    compiler_result, invoice_template, render_paths, resolve_template,
};
use document_generator::templates::template_models::{FiscalInfo, PaymentInfo};
use document_generator::templates::template_trait::{
    escape_typst, validate_members, validate_payload, TemplateKind, TemplateRegistry,
};
use document_generator::templates::templates::fiscal_invoice::FiscalInvoiceTemplate;
use document_generator::templates::templates::receipt::ReceiptTemplate;
use document_generator::templates::templates::report::ReportTemplate;
use document_generator::templates::templates::simple_invoice::SimpleInvoiceTemplate;

fn validation_message(checked: Result<(), DocumentError>) -> String {
    match checked {
        Err(DocumentError::ValidationError(message)) => message,
        other => panic!("unexpected result {:?}", other),
    }
}

#[test]
fn markup_characters_are_escaped() {
    assert_eq!(escape_typst(""), "");
    assert_eq!(escape_typst("plain text"), "plain text");
    assert_eq!(escape_typst("a@b.com"), "a\\@b.com");
    assert_eq!(escape_typst("#1 costs $5 @home"), "\\#1 costs \\$5 \\@home");
    assert_eq!(escape_typst("$$"), "\\$\\$");
    assert_eq!(escape_typst("back\\slash"), "back\\slash");
    assert_eq!(escape_typst("niño #ñ"), "niño \\#ñ");
    let text = "x@y#z$";
    assert_eq!(
        escape_typst(text),
        text.replace('@', "\\@").replace('#', "\\#").replace('$', "\\$")
    );
}

#[test]
fn members_of_a_payload_are_read_with_their_kinds() {
    let members = payload_members("{\"b\": [1], \"a\": null, \"c\": {\"d\": 1}, \"e\": \"s\", \"f\": 1.5, \"g\": true}")
        .expect("an object");
    let described: Vec<(String, JsonKind)> =
        members.into_iter().map(|member| (member.name, member.kind)).collect();
    assert_eq!(
        described,
        vec![
            ("a".to_string(), JsonKind::Null),
            ("b".to_string(), JsonKind::Array),
            ("c".to_string(), JsonKind::Object),
            ("e".to_string(), JsonKind::Text),
            ("f".to_string(), JsonKind::Number),
            ("g".to_string(), JsonKind::Bool),
        ]
    );
    assert!(payload_members("[1, 2]").is_none());
    assert!(payload_members("12").is_none());
    assert!(payload_members("{").is_none());
    assert_eq!(payload_members("{}").expect("empty object").len(), 0);
}

#[test]
fn built_in_templates_have_ids_and_descriptions() {
    assert_eq!(FiscalInvoiceTemplate::new().template_id(), "fiscal_invoice");
    assert_eq!(SimpleInvoiceTemplate::new().template_id(), "simple_invoice");
    assert_eq!(ReceiptTemplate::new().template_id(), "receipt");
    assert_eq!(ReportTemplate::new().template_id(), "report");
    assert_eq!(
        FiscalInvoiceTemplate::new().description(),
        "Factura Fiscal Electrónica (República Dominicana)"
    );
    assert_eq!(
        SimpleInvoiceTemplate::new().description(),
        "Factura Simple (sin información fiscal)"
    );
    assert_eq!(ReceiptTemplate::new().description(), "Recibo de Pago");
    assert_eq!(ReportTemplate::new().description(), "Reporte General con Datos y Resumen");
}

#[test]
fn registry_finds_the_built_in_templates() {
    let registry = TemplateRegistry::new();
    assert_eq!(registry.get("fiscal_invoice"), Some(TemplateKind::FiscalInvoice));
    assert_eq!(registry.get("simple_invoice"), Some(TemplateKind::SimpleInvoice));
    assert_eq!(registry.get("receipt"), Some(TemplateKind::Receipt));
    assert_eq!(registry.get("report"), Some(TemplateKind::Report));
    assert_eq!(registry.get("Report"), None);
    assert_eq!(registry.get(""), None);
    assert!(registry.contains("receipt"));
    assert!(!registry.contains("fiscal_electronic"));
    let listed = TemplateRegistry::default().list();
    assert_eq!(listed.len(), 4);
    assert_eq!(listed[0], ("fiscal_invoice".to_string(), "Factura Fiscal Electrónica (República Dominicana)".to_string()));
    assert_eq!(listed[1].0, "simple_invoice");
    assert_eq!(listed[2].0, "receipt");
    assert_eq!(listed[3], ("report".to_string(), "Reporte General con Datos y Resumen".to_string()));
    for (id, description) in listed {
        let kind = registry.get(&id).expect("listed template");
        assert_eq!(kind.template_id(), id);
        assert_eq!(kind.description(), description);
    }
}

#[test]
fn fiscal_invoice_needs_every_field_and_an_items_array() {
    let template = FiscalInvoiceTemplate::new();
    let complete = "{\"invoice_number\":\"1\",\"issue_date\":\"d\",\"due_date\":\"d\",\"company_info\":{},\"client_info\":{},\"items\":[],\"totals\":{}}";
    assert!(template.validate(complete).is_ok());
    assert!(TemplateKind::FiscalInvoice.validate(complete).is_ok());
    assert_eq!(
        validation_message(template.validate("[]")),
        "Los datos deben ser un objeto JSON"
    );
    assert_eq!(
        validation_message(template.validate("not json")),
        "Los datos deben ser un objeto JSON"
    );
    assert_eq!(
        validation_message(template.validate("{}")),
        "Campo requerido faltante: invoice_number"
    );
    assert_eq!(
        validation_message(template.validate("{\"invoice_number\":\"1\",\"due_date\":\"d\"}")),
        "Campo requerido faltante: issue_date"
    );
    let without_totals = "{\"invoice_number\":\"1\",\"issue_date\":\"d\",\"due_date\":\"d\",\"company_info\":{},\"client_info\":{},\"items\":[]}";
    assert_eq!(
        validation_message(template.validate(without_totals)),
        "Campo requerido faltante: totals"
    );
    let items_not_array = complete.replace("\"items\":[]", "\"items\":{}");
    assert_eq!(
        validation_message(template.validate(&items_not_array)),
        "El campo 'items' debe ser un array"
    );
}

#[test]
fn other_templates_check_their_own_fields() {
    let simple = SimpleInvoiceTemplate::new();
    let invoice = "{\"invoice_number\":\"1\",\"company_info\":{},\"client_info\":{},\"items\":{},\"totals\":{}}";
    assert!(simple.validate(invoice).is_ok());
    assert_eq!(
        validation_message(simple.validate("{\"invoice_number\":\"1\"}")),
        "Campo requerido faltante: company_info"
    );
    let receipt = ReceiptTemplate::new();
    let paid = "{\"receipt_number\":\"1\",\"date\":\"d\",\"vendor\":{},\"items\":[],\"total\":1,\"payment_method\":\"cash\",\"currency\":\"DOP\"}";
    assert!(receipt.validate(paid).is_ok());
    assert_eq!(
        validation_message(receipt.validate(&paid.replace(",\"currency\":\"DOP\"", ""))),
        "Campo requerido faltante: currency"
    );
    let report = ReportTemplate::new();
    assert!(report.validate("{\"title\":\"t\",\"generated_date\":\"d\",\"period\":{}}").is_ok());
    assert_eq!(
        validation_message(report.validate("{\"generated_date\":\"d\",\"period\":{}}")),
        "Campo requerido faltante: title"
    );
    assert_eq!(
        validation_message(report.validate("{\"title\":\"t\",\"period\":{}}")),
        "Campo requerido faltante: generated_date"
    );
    assert_eq!(
        validation_message(report.validate("{\"title\":\"t\",\"generated_date\":\"d\"}")),
        "Campo requerido faltante: period"
    );
    assert_eq!(
        validation_message(TemplateKind::Report.validate("3")),
        "Los datos deben ser un objeto JSON"
    );
}

#[test]
fn members_are_checked_in_the_order_of_the_required_fields() {
    let required = vec!["b".to_string(), "a".to_string()];
    assert_eq!(
        validation_message(validate_payload("{\"c\": 1}", &required, false)),
        "Campo requerido faltante: b"
    );
    assert_eq!(
        validation_message(validate_payload("{\"b\": 1}", &required, false)),
        "Campo requerido faltante: a"
    );
    assert!(validate_payload("{\"a\": 1, \"b\": 2}", &required, false).is_ok());
    assert_eq!(
        validation_message(validate_payload("{\"a\": 1, \"b\": 2}", &required, true)),
        "El campo 'items' debe ser un array"
    );
    assert!(validate_payload("{\"a\": 1, \"b\": 2, \"items\": []}", &required, true).is_ok());
    assert_eq!(
        validation_message(validate_members(&None, &Vec::new(), false)),
        "Los datos deben ser un objeto JSON"
    );
    assert!(validate_members(&Some(Vec::new()), &Vec::new(), false).is_ok());
}

#[test]
fn invoice_template_follows_fiscal_data() {
    assert_eq!(invoice_template(true), TemplateKind::FiscalInvoice);
    assert_eq!(invoice_template(false), TemplateKind::SimpleInvoice);
}

#[test]
fn render_files_are_named_after_request_or_template() {
    let named = render_paths("facturas", "receipt", &Some("preview_receipt".to_string()), 99);
    assert_eq!(named.markup, "facturas/preview_receipt.typ");
    assert_eq!(named.document, "facturas/preview_receipt.pdf");
    let stamped = render_paths("output", "report", &None, 1_700_000_000);
    assert_eq!(stamped.markup, "output/report_1700000000.typ");
    assert_eq!(stamped.document, "output/report_1700000000.pdf");
    let early = render_paths("output", "report", &None, -5);
    assert_eq!(early.markup, "output/report_-5.typ");
}

#[test]
fn compiler_exit_is_the_only_error_signal() {
    assert!(compiler_result(true, "warning: font missing").is_ok());
    match compiler_result(false, "error: unknown variable") {
        Err(DocumentError::GenerationError(message)) => {
            assert_eq!(message, "Typst compilation failed: error: unknown variable")
        }
        other => panic!("unexpected result {:?}", other),
    }
}

#[test]
fn unknown_template_is_a_template_error() {
    let registry = TemplateRegistry::new();
    assert_eq!(resolve_template(&registry, "receipt").expect("known"), TemplateKind::Receipt);
    match resolve_template(&registry, "fiscal_electronic") {
        Err(DocumentError::TemplateError(message)) => {
            assert_eq!(message, "Template not found: fiscal_electronic")
        }
        other => panic!("unexpected result {:?}", other),
    }
}

#[test]
fn printed_defaults_of_template_data() {
    let mut payment = PaymentInfo {
        method: "Crédito".to_string(),
        terms: None,
        bank_info: None,
        paid: false,
        paid_date: None,
    };
    assert_eq!(payment.printed_terms(), "Inmediato");
    payment.terms = Some("30 días".to_string());
    assert_eq!(payment.printed_terms(), "30 días");
    let mut fiscal = FiscalInfo {
        e_ncf: "E310000000001".to_string(),
        security_code: "S7DQdu".to_string(),
        signature_date: "2024-01-15".to_string(),
        qr_data: "q".to_string(),
        expiration_date: None,
    };
    assert_eq!(fiscal.printed_validity(), "Indefinido");
    fiscal.expiration_date = Some("2025-12-31".to_string());
    assert_eq!(fiscal.printed_validity(), "2025-12-31");
}

#[test]
fn dates_are_written_in_another_format() {
    let format_date_string = document_generator::templates::helpers::format_date_string;
    let choose_date_text = document_generator::templates::helpers::choose_date_text;
    assert_eq!(format_date_string("2024-01-15", "%d/%m/%Y"), "15/01/2024");
    assert_eq!(format_date_string("2024-01-15", "%Y"), "2024");
    assert_eq!(format_date_string("2024-01-15T10:30:00Z", "%d/%m/%Y %H:%M"), "15/01/2024 10:30");
    assert_eq!(format_date_string("2024-01-15T23:30:00-04:00", "%H:%M %:z"), "23:30 -04:00");
    assert_eq!(format_date_string("15 de enero", "%d/%m/%Y"), "15 de enero");
    assert_eq!(format_date_string("2024-02-30", "%d/%m/%Y"), "2024-02-30");
    assert_eq!(format_date_string("", "%d/%m/%Y"), "");
    assert_eq!(format_date_string("2024-01-15", "%H:%M"), "2024-01-15");
    assert_eq!(
        choose_date_text("x", Some("a".to_string()), Some("b".to_string())),
        "a"
    );
    assert_eq!(choose_date_text("x", None, Some("b".to_string())), "b");
    assert_eq!(choose_date_text("x", None, None), "x");
}

#[test]
fn custom_templates_are_filled_with_the_data() {
    let render = document_generator::templates::engine::render_custom_template;
    let accept = document_generator::templates::engine::accept_rendered;
    assert_eq!(
        render("= {{ title }}\n{% for item in items %}- {{ item.name }}: {{ item.count }}\n{% endfor %}", "{\"title\": \"Lista\", \"items\": [{\"name\": \"a\", \"count\": 2}, {\"name\": \"b\", \"count\": 3}]}").expect("rendered"),
        "= Lista\n- a: 2\n- b: 3\n"
    );
    assert_eq!(
        render("{{ price }} {{ 2 * count }}", "{\"price\": 1.5, \"count\": 21}").expect("rendered"),
        "1.5 42"
    );
    assert_eq!(
        render("{{ big }} {{ small }}", "{\"big\": 18446744073709551615, \"small\": -9223372036854775808}")
            .expect("rendered"),
        "18446744073709551615 -9223372036854775808"
    );
    match render("{{ title", "{}") {
        Err(DocumentError::TemplateError(message)) => assert!(!message.is_empty()),
        other => panic!("unexpected result {:?}", other),
    }
    match render("{{ title }}", "not json") {
        Err(DocumentError::TemplateError(message)) => assert!(!message.is_empty()),
        other => panic!("unexpected result {:?}", other),
    }
    match render("{{ missing }}", "{}") {
        Err(DocumentError::ValidationError(message)) => {
            assert_eq!(message, "El contenido del documento está vacío")
        }
        other => panic!("unexpected result {:?}", other),
    }
    assert_eq!(accept(Ok("body".to_string())).expect("kept"), "body");
    match accept(Err("syntax error".to_string())) {
        Err(DocumentError::TemplateError(message)) => assert_eq!(message, "syntax error"),
        other => panic!("unexpected result {:?}", other),
    }
    match accept(Ok(String::new())) {
        Err(DocumentError::ValidationError(_)) => {}
        other => panic!("unexpected result {:?}", other),
    }
}
