use document_generator::base::config::Orientation;
use document_generator::base::data::{Address, ColumnAlign, Company};
use document_generator::base::error::DocumentError;
use document_generator::models::common::OutputFormat;
use document_generator::models::document::{
    parse_status_label, DocumentMetadata, DocumentStatus, DEFAULT_TTL_SECONDS,
};
use document_generator::models::invoice::InvoiceStatus;
use document_generator::models::report::{AggregateOperation, Aggregation, DataType};
use document_generator::status::{expiry_of, StatusRecord, StatusStore};
use document_generator::storage::{artifact_key, format_uuid, object_url};
use document_generator::text::i64_to_string;

#[test]
fn status_names_round_trip() {
    for status in [
        DocumentStatus::Queued,
        DocumentStatus::Processing,
        DocumentStatus::Completed,
        DocumentStatus::Failed,
        DocumentStatus::Cancelled,
    ] {
        assert_eq!(DocumentStatus::from_str(&status.to_text()), Ok(status));
        assert_eq!(parse_status_label(&status.to_text()), Some(status));
    }
    assert_eq!(DocumentStatus::Queued.to_text(), "queued");
    assert_eq!(DocumentStatus::Processing.to_text(), "processing");
    assert_eq!(DocumentStatus::Completed.to_text(), "completed");
    assert_eq!(DocumentStatus::Failed.to_text(), "failed");
    assert_eq!(DocumentStatus::Cancelled.to_text(), "cancelled");
}

#[test]
fn status_is_read_in_any_case() {
    assert_eq!(DocumentStatus::from_str("QUEUED"), Ok(DocumentStatus::Queued));
    assert_eq!(DocumentStatus::from_str("Completed"), Ok(DocumentStatus::Completed));
    assert_eq!(parse_status_label("QUEUED"), None);
    assert_eq!(
        DocumentStatus::from_str("Done"),
        Err("Unknown status: Done".to_string())
    );
    assert_eq!(DocumentStatus::from_str(""), Err("Unknown status: ".to_string()));
}

#[test]
fn lifecycle_moves_forward_only() {
    let (queued, processing, completed, failed, cancelled) = (
        DocumentStatus::Queued,
        DocumentStatus::Processing,
        DocumentStatus::Completed,
        DocumentStatus::Failed,
        DocumentStatus::Cancelled,
    );
    assert!(queued.can_become(processing));
    assert!(!queued.can_become(completed));
    assert!(!queued.can_become(queued));
    assert!(processing.can_become(completed));
    assert!(processing.can_become(failed));
    assert!(processing.can_become(cancelled));
    assert!(!processing.can_become(queued));
    for terminal in [completed, failed, cancelled] {
        assert!(terminal.is_terminal());
        for next in [queued, processing, completed, failed, cancelled] {
            assert!(!terminal.can_become(next));
        }
    }
    assert!(!queued.is_terminal());
    assert!(!processing.is_terminal());
}

#[test]
fn metadata_defaults() {
    let metadata = DocumentMetadata::at(123);
    assert_eq!(metadata.tenant_id, 0);
    assert_eq!(metadata.user_id, 0);
    assert_eq!(metadata.organization_id, None);
    assert_eq!(metadata.request_time, 123);
    assert_eq!(metadata.ttl_seconds, Some(86400));
    assert_eq!(DEFAULT_TTL_SECONDS, 86400);
    assert!(metadata.tags.is_none());
}

#[test]
fn decimal_text_of_integers() {
    assert_eq!(i64_to_string(0), "0");
    assert_eq!(i64_to_string(7), "7");
    assert_eq!(i64_to_string(10), "10");
    assert_eq!(i64_to_string(-1), "-1");
    assert_eq!(i64_to_string(1_234_567_890), "1234567890");
    assert_eq!(i64_to_string(i64::MAX), "9223372036854775807");
    assert_eq!(i64_to_string(i64::MIN), "-9223372036854775808");
}

#[test]
fn uuid_text_matches_the_usual_form() {
    for id in [
        0u128,
        1,
        0x67e5_5044_10b1_426f_9247_bb68_0e5f_e0c8,
        u128::MAX,
        0x0000_0000_0000_0000_ffff_0000_0000_000a,
    ] {
        assert_eq!(format_uuid(id), uuid::Uuid::from_u128(id).to_string());
    }
    assert_eq!(format_uuid(0), "00000000-0000-0000-0000-000000000000");
    assert_eq!(format_uuid(u128::MAX), "ffffffff-ffff-ffff-ffff-ffffffffffff");
}

#[test]
fn artifact_keys_and_addresses() {
    assert_eq!(
        artifact_key("invoices", "acme", 0xab, "pdf"),
        "invoices/acme/00000000-0000-0000-0000-0000000000ab.pdf"
    );
    assert_eq!(
        object_url(&None, "documents", "invoices/a.pdf"),
        "https://documents.s3.amazonaws.com/invoices/a.pdf"
    );
    assert_eq!(
        object_url(&Some("https://cdn.example".to_string()), "documents", "invoices/a.pdf"),
        "https://cdn.example/invoices/a.pdf"
    );
}

#[test]
fn expiry_is_clamped_to_the_clock() {
    assert_eq!(expiry_of(1_000, None), None);
    assert_eq!(expiry_of(1_000, Some(60)), Some(61_000));
    assert_eq!(expiry_of(1_000, Some(-1)), Some(0));
    assert_eq!(expiry_of(i64::MAX, Some(1)), Some(i64::MAX));
    assert_eq!(expiry_of(i64::MIN, Some(-1)), Some(i64::MIN));
    assert_eq!(expiry_of(0, Some(i64::MAX)), Some(i64::MAX));
}

#[test]
fn store_replaces_whole_records() {
    let request = document_generator::models::document::DocumentRequest {
        id: 5,
        template_id: "t".to_string(),
        document_type: document_generator::models::document::DocumentType::Invoice,
        data: "{}".to_string(),
        priority: document_generator::models::common::Priority::Low,
        format: OutputFormat::Pdf,
        callback_url: None,
        metadata: DocumentMetadata::at(0),
    };
    let mut store = StatusStore::new();
    assert_eq!(store.len(), 0);
    assert!(store.get(5, 0).is_none());
    store.upsert(StatusRecord::queued(&request, 1));
    store.upsert(StatusRecord::failed(&request, "boom".to_string(), 2));
    store.upsert(StatusRecord::failed(&request, "boom".to_string(), 2));
    assert_eq!(store.len(), 1);
    let record = store.get(5, 0).expect("record");
    assert_eq!(record.status, DocumentStatus::Failed);
    assert_eq!(record.error.as_deref(), Some("boom"));
    assert_eq!(record.created_at, 2);
    let copy = record.duplicate();
    assert_eq!(copy.id, record.id);
    assert_eq!(copy.error, record.error);
    let response = record.to_response();
    assert_eq!(response.status, DocumentStatus::Failed);
    assert_eq!(response.error.as_deref(), Some("boom"));
    assert_eq!(response.expires_at, Some(2 + 86_400_000));
}

#[test]
fn document_errors_are_shown_with_their_kind() {
    assert_eq!(DocumentError::IoError("disk".to_string()).to_text(), "Error de E/S: disk");
    assert_eq!(
        DocumentError::GenerationError("typst".to_string()).to_text(),
        "Error de generación: typst"
    );
    assert_eq!(
        DocumentError::TemplateError("t".to_string()).to_text(),
        "Error de plantilla: t"
    );
    assert_eq!(
        DocumentError::ValidationError("v".to_string()).to_text(),
        "Error de validación: v"
    );
    assert_eq!(
        DocumentError::ConfigError("c".to_string()).to_text(),
        "Error de configuración: c"
    );
}

#[test]
fn address_is_printed_on_three_lines() {
    let mut address = Address {
        street: "Calle Segunda #01".to_string(),
        city: "Santo Domingo".to_string(),
        state: Some("Distrito Nacional".to_string()),
        postal_code: Some("10210".to_string()),
        country: "República Dominicana".to_string(),
    };
    assert_eq!(
        address.format_multiline(),
        "Calle Segunda #01\nSanto Domingo, Distrito Nacional 10210\nRepública Dominicana"
    );
    address.state = None;
    assert_eq!(
        address.format_multiline(),
        "Calle Segunda #01\nSanto Domingo 10210\nRepública Dominicana"
    );
    address.postal_code = None;
    assert_eq!(
        address.format_multiline(),
        "Calle Segunda #01\nSanto Domingo\nRepública Dominicana"
    );
}

#[test]
fn new_company_has_only_a_name() {
    let company = Company::new("ZYL".to_string());
    assert_eq!(company.name, "ZYL");
    assert!(company.tax_id.is_none());
    assert!(company.address.is_none());
    assert!(company.phone.is_none());
    assert!(company.email.is_none());
    assert!(company.website.is_none());
}

#[test]
fn labels_of_small_enums() {
    assert_eq!(Orientation::Portrait.to_text(), "portrait");
    assert_eq!(Orientation::Landscape.to_text(), "landscape");
    assert!(Orientation::Landscape.is_flipped());
    assert!(!Orientation::Portrait.is_flipped());
    assert_eq!(ColumnAlign::Left.to_text(), "left");
    assert_eq!(ColumnAlign::Center.to_text(), "center");
    assert_eq!(ColumnAlign::Right.to_text(), "right");
    assert_eq!(OutputFormat::Pdf.to_text(), "Pdf");
    assert_eq!(OutputFormat::Excel.to_text(), "Excel");
    assert_eq!(OutputFormat::Csv.to_text(), "Csv");
    assert!(InvoiceStatus::Paid.is_closed());
    assert!(InvoiceStatus::Cancelled.is_closed());
    assert!(!InvoiceStatus::Overdue.is_closed());
    assert!(DataType::Currency.is_formatted());
    assert!(DataType::DateTime.is_formatted());
    assert!(!DataType::Number.is_formatted());
}

#[test]
fn aggregation_result_is_named_by_alias_or_field() {
    let mut aggregation = Aggregation {
        field: "amount".to_string(),
        operation: AggregateOperation::Average,
        alias: None,
    };
    assert_eq!(aggregation.result_key(), "amount_average");
    aggregation.operation = AggregateOperation::Distinct;
    assert_eq!(aggregation.result_key(), "amount_distinct");
    aggregation.alias = Some("mean".to_string());
    assert_eq!(aggregation.result_key(), "mean");
}
