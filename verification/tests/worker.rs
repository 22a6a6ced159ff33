use document_generator::api::handlers::{
    admit_async, get_status, publish_resolved, Admission, Reply,
};
use document_generator::models::common::{OutputFormat, Priority};
use document_generator::queue::PublishOutcome;
use document_generator::models::document::{
    DocumentMetadata, DocumentRequest, DocumentStatus, DocumentType,
};
use document_generator::models::report::{CompressionFormat, DataSource, FileFormat};
use document_generator::status::StatusStore;
use document_generator::templates::cache::TieredCache;
use document_generator::worker::{
    after_action, begin_job, document_type_label, finish_job, plan_generation,
    read_report_source, select_report_input, ActionStep, Callback, GeneratorKind, JobOutcome,
    JobStart, JobState, ReportInput, UsageUpdate, WorkerAction, WorkerConfig, WorkerSlots,
};
use std::io::Write;

const JOB_ID: u128 = 0x0123_4567_89ab_cdef_0123_4567_89ab_cdef;

fn job(document_type: DocumentType, format: OutputFormat) -> DocumentRequest {
    let mut metadata = DocumentMetadata::at(1_000);
    metadata.tenant_id = 8;
    metadata.user_id = 2;
    DocumentRequest {
        id: JOB_ID,
        template_id: "simple_invoice".to_string(),
        document_type,
        data: "{\"items\":[1,2,3]}".to_string(),
        priority: Priority::Normal,
        format,
        callback_url: None,
        metadata,
    }
}

fn commits(actions: &[WorkerAction]) -> usize {
    actions.iter().filter(|action| matches!(action, WorkerAction::Commit)).count()
}

#[test]
fn worker_defaults() {
    let config = WorkerConfig::with_defaults("postgres://db".to_string());
    assert_eq!(config.kafka_brokers, "localhost:9092");
    assert_eq!(config.kafka_group_id, "doc-workers");
    assert_eq!(config.kafka_topics, vec!["doc.requests.priority", "doc.requests.bulk"]);
    assert_eq!(config.max_concurrent, 20);
    assert_eq!(config.worker_threads, 4);
    assert_eq!(config.database_url, "postgres://db");
    assert_eq!(config.redis_url, "redis://localhost");
    assert_eq!(config.s3_bucket_documents, "documents");
    assert_eq!(config.s3_bucket_temp, "temp-uploads");
}

#[test]
fn slots_bound_the_jobs_in_flight() {
    let mut slots = WorkerSlots::new(2);
    assert_eq!(slots.available(), 2);
    assert!(slots.try_acquire());
    assert!(slots.try_acquire());
    assert!(!slots.try_acquire());
    assert_eq!(slots.available(), 0);
    slots.release();
    assert_eq!(slots.available(), 1);
    assert!(slots.try_acquire());
    slots.release();
    slots.release();
    slots.release();
    assert_eq!(slots.available(), 2);
    let mut none = WorkerSlots::new(0);
    assert!(!none.try_acquire());
}

#[test]
fn poison_message_is_committed_without_render_or_record() {
    match begin_job(&None, 5) {
        JobStart::Discard { state, actions } => {
            assert_eq!(state, JobState::CommittedFailure);
            assert!(state.is_committed());
            assert_eq!(actions.len(), 1);
            assert!(matches!(actions[0], WorkerAction::Commit));
        }
        other => panic!("unexpected start {:?}", other),
    }
}

#[test]
fn decoded_job_is_recorded_as_processing() {
    let request = job(DocumentType::Invoice, OutputFormat::Pdf);
    match begin_job(&Some(request), 77) {
        JobStart::Begin { state, record } => {
            assert_eq!(state, JobState::Rendering);
            assert!(!state.is_committed());
            assert_eq!(record.id, JOB_ID);
            assert_eq!(record.tenant_id, 8);
            assert_eq!(record.status, DocumentStatus::Processing);
            assert_eq!(record.updated_at, 77);
            assert_eq!(record.url, None);
            assert_eq!(record.error, None);
        }
        other => panic!("unexpected start {:?}", other),
    }
}

#[test]
fn plans_name_generator_key_and_content_type() {
    let invoice = plan_generation(&job(DocumentType::Invoice, OutputFormat::Pdf), "documents").expect("plan");
    assert_eq!(invoice.kind, GeneratorKind::InvoicePdf);
    assert_eq!(invoice.bucket, "documents");
    assert_eq!(invoice.key, "invoices/tenant_8/01234567-89ab-cdef-0123-456789abcdef.pdf");
    assert_eq!(invoice.content_type, "application/pdf");

    let sheet = plan_generation(&job(DocumentType::Report, OutputFormat::Excel), "documents").expect("plan");
    assert_eq!(sheet.kind, GeneratorKind::ReportExcel);
    assert_eq!(sheet.key, "reports/tenant_8/01234567-89ab-cdef-0123-456789abcdef.xlsx");
    assert_eq!(
        sheet.content_type,
        "application/vnd.openxmlformats-officedocument.spreadsheetml.sheet"
    );

    let mut owned = job(DocumentType::Report, OutputFormat::Pdf);
    owned.metadata.organization_id = Some("org-1".to_string());
    let printed = plan_generation(&owned, "documents").expect("plan");
    assert_eq!(printed.kind, GeneratorKind::ReportPdf);
    assert_eq!(printed.key, "reports/org-1/01234567-89ab-cdef-0123-456789abcdef.pdf");
    assert_eq!(printed.content_type, "application/pdf");
}

#[test]
fn unsupported_requests_fail_with_their_reason() {
    assert_eq!(
        plan_generation(&job(DocumentType::Report, OutputFormat::Csv), "documents").unwrap_err(),
        "Unsupported format"
    );
    for document_type in [
        DocumentType::Certificate,
        DocumentType::Statement,
        DocumentType::Receipt,
        DocumentType::Custom("badge".to_string()),
    ] {
        assert_eq!(
            plan_generation(&job(document_type, OutputFormat::Pdf), "documents").unwrap_err(),
            "Custom document type not implemented"
        );
    }
}

#[test]
fn success_writes_record_counts_commits_and_notifies() {
    let mut request = job(DocumentType::Invoice, OutputFormat::Pdf);
    request.callback_url = Some("https://client.example/hook".to_string());
    let end = finish_job(&request, JobOutcome::Stored { key: "invoices/tenant_8/doc.pdf".to_string(), url: "https://cdn/doc.pdf".to_string() }, 250, 9_000);
    assert_eq!(end.state, JobState::CommittedSuccess);
    assert_eq!(end.actions.len(), 4);
    assert_eq!(commits(&end.actions), 1);
    match &end.actions[0] {
        WorkerAction::WriteStatus(record) => {
            assert_eq!(record.id, JOB_ID);
            assert_eq!(record.status, DocumentStatus::Completed);
            assert_eq!(record.url.as_deref(), Some("https://cdn/doc.pdf"));
            assert_eq!(record.key.as_deref(), Some("invoices/tenant_8/doc.pdf"));
            assert_eq!(record.processing_time_ms, 250);
            assert_eq!(record.updated_at, 9_000);
        }
        other => panic!("unexpected action {:?}", other),
    }
    match &end.actions[1] {
        WorkerAction::RecordUsage(update) => {
            assert!(update.success);
            assert_eq!(update.document_type, "Invoice");
            assert_eq!(update.format, "Pdf");
            assert_eq!(update.processing_time_ms, 250);
            assert_eq!(update.organization_id, None);
        }
        other => panic!("unexpected action {:?}", other),
    }
    assert!(matches!(end.actions[2], WorkerAction::Commit));
    match &end.actions[3] {
        WorkerAction::Notify(callback) => {
            assert_eq!(callback.url, "https://client.example/hook");
            assert_eq!(callback.document_id, JOB_ID);
        }
        other => panic!("unexpected action {:?}", other),
    }
}

#[test]
fn success_without_callback_ends_with_the_commit() {
    let request = job(DocumentType::Invoice, OutputFormat::Pdf);
    let end = finish_job(&request, JobOutcome::Stored { key: "k".to_string(), url: "u".to_string() }, 1, 2);
    assert_eq!(end.actions.len(), 3);
    assert!(matches!(end.actions[0], WorkerAction::WriteStatus(_)));
    assert!(matches!(end.actions[1], WorkerAction::RecordUsage(_)));
    assert!(matches!(end.actions[2], WorkerAction::Commit));
}

#[test]
fn failure_is_terminal_and_still_committed() {
    let mut request = job(DocumentType::Report, OutputFormat::Excel);
    request.callback_url = Some("https://client.example/hook".to_string());
    let end = finish_job(&request, JobOutcome::Failed("upload refused".to_string()), 999, 3);
    assert_eq!(end.state, JobState::CommittedFailure);
    assert_eq!(end.actions.len(), 3);
    assert_eq!(commits(&end.actions), 1);
    match &end.actions[0] {
        WorkerAction::WriteStatus(record) => {
            assert_eq!(record.status, DocumentStatus::Failed);
            assert_eq!(record.error.as_deref(), Some("upload refused"));
            assert_eq!(record.url, None);
            assert_eq!(record.key, None);
        }
        other => panic!("unexpected action {:?}", other),
    }
    match &end.actions[1] {
        WorkerAction::RecordUsage(update) => {
            assert!(!update.success);
            assert_eq!(update.processing_time_ms, 0);
            assert_eq!(update.document_type, "Report");
            assert_eq!(update.format, "Excel");
        }
        other => panic!("unexpected action {:?}", other),
    }
    assert!(matches!(end.actions[2], WorkerAction::Commit));
}

#[test]
fn usage_labels_name_type_and_format() {
    assert_eq!(document_type_label(&DocumentType::Invoice), "Invoice");
    assert_eq!(document_type_label(&DocumentType::Certificate), "Certificate");
    assert_eq!(document_type_label(&DocumentType::Statement), "Statement");
    assert_eq!(document_type_label(&DocumentType::Receipt), "Receipt");
    assert_eq!(
        document_type_label(&DocumentType::Custom("a \"b\"".to_string())),
        "Custom(\"a \\\"b\\\"\")"
    );
    let mut request = job(DocumentType::Custom("badge".to_string()), OutputFormat::Csv);
    request.metadata.organization_id = Some("org".to_string());
    let update = UsageUpdate::new(&request, true, 12);
    assert_eq!(update.document_type, "Custom(\"badge\")");
    assert_eq!(update.format, "Csv");
    assert_eq!(update.organization_id.as_deref(), Some("org"));
}

#[test]
fn redelivery_reaches_one_terminal_record_and_one_key() {
    let request = job(DocumentType::Invoice, OutputFormat::Pdf);
    let first_plan = plan_generation(&request, "documents").expect("plan");
    let second_plan = plan_generation(&request, "documents").expect("plan");
    assert_eq!(first_plan.key, second_plan.key);
    assert_eq!(first_plan.bucket, second_plan.bucket);

    let mut store = StatusStore::new();
    for (elapsed, now) in [(10u64, 100i64), (12u64, 200i64)] {
        if let JobStart::Begin { record, .. } = begin_job(&Some(job(DocumentType::Invoice, OutputFormat::Pdf)), now) {
            store.upsert(record);
        }
        let end = finish_job(&request, JobOutcome::Stored { key: first_plan.key.clone(), url: "https://cdn/a.pdf".to_string() }, elapsed, now);
        assert_eq!(commits(&end.actions), 1);
        for action in end.actions {
            if let WorkerAction::WriteStatus(record) = action {
                store.upsert(record);
            }
        }
    }
    assert_eq!(store.len(), 1);
    let record = store.get(JOB_ID, 8).expect("record");
    assert_eq!(record.status, DocumentStatus::Completed);
    assert!(record.status.is_terminal());
    assert_eq!(record.url.as_deref(), Some("https://cdn/a.pdf"));
    assert_eq!(record.updated_at, 200);
}

#[test]
fn inline_rows_are_taken_as_they_are() {
    let source = DataSource::Inline { rows: vec!["{\"a\":1}".to_string(), "{\"a\":2}".to_string()] };
    match read_report_source(&source) {
        Ok(ReportInput::Rows(rows)) => assert_eq!(rows, vec!["{\"a\":1}", "{\"a\":2}"]),
        other => panic!("unexpected input {:?}", other),
    }
}

#[test]
fn stored_rows_are_fetched() {
    let source = DataSource::R2Reference {
        bucket: "temp-uploads".to_string(),
        key: "uploads/1/data.json".to_string(),
        format: FileFormat::Json,
        row_count: Some(3),
        size_bytes: None,
    };
    match read_report_source(&source) {
        Ok(ReportInput::Fetch { bucket, key }) => {
            assert_eq!(bucket, "temp-uploads");
            assert_eq!(key, "uploads/1/data.json");
        }
        other => panic!("unexpected input {:?}", other),
    }
}

#[test]
fn compressed_rows_are_unpacked() {
    let mut encoder = flate2::write::GzEncoder::new(Vec::new(), flate2::Compression::default());
    encoder.write_all(b"[{\"a\":1},{\"a\":2}]").expect("write");
    let data = encoder.finish().expect("finish");
    let source = DataSource::Compressed { format: CompressionFormat::Gzip, data };
    match read_report_source(&source) {
        Ok(ReportInput::Unpacked(text)) => assert_eq!(text, "[{\"a\":1},{\"a\":2}]"),
        other => panic!("unexpected input {:?}", other),
    }
}

#[test]
fn damaged_compressed_rows_fail() {
    let source = DataSource::Compressed { format: CompressionFormat::Gzip, data: vec![1, 2, 3, 4] };
    assert_eq!(read_report_source(&source).unwrap_err(), "Failed to decompress report data");
    assert_eq!(
        select_report_input(&source, None).unwrap_err(),
        "Failed to decompress report data"
    );
}

#[test]
fn other_sources_are_refused() {
    let streaming = DataSource::StreamingEndpoint {
        url: "https://rows.example".to_string(),
        auth: None,
        pagination: None,
    };
    assert_eq!(read_report_source(&streaming).unwrap_err(), "Unsupported data source");
    let query = DataSource::DatabaseQuery {
        connection_id: "main".to_string(),
        query: "select 1".to_string(),
        parameters: None,
    };
    assert_eq!(read_report_source(&query).unwrap_err(), "Unsupported data source");
}

#[test]
fn async_invoice_is_queued_then_completed() {
    let mut request = job(DocumentType::Invoice, OutputFormat::Pdf);
    request.data = "{\"items\":[{\"quantity\":1,\"unit_price\":10.0},{\"quantity\":2,\"unit_price\":5.0},{\"quantity\":3,\"unit_price\":1.0}]}".to_string();
    let mut store = StatusStore::new();

    let envelope = match admit_async(true, request) {
        Admission::Enqueue(envelope) => envelope,
        other => panic!("unexpected decision {:?}", other),
    };
    let exchange = publish_resolved(&envelope, PublishOutcome::Acknowledged, 1_000);
    assert_eq!(exchange.reply.status_code(), 202);
    store.upsert(exchange.record.expect("queued record"));
    assert!(matches!(get_status(&store, JOB_ID, 8), Reply::Status(ref shown) if shown.status == DocumentStatus::Queued));

    let decoded = Some(envelope.request);
    let request = decoded.as_ref().expect("decoded");
    match begin_job(&decoded, 2_000) {
        JobStart::Begin { record, .. } => store.upsert(record),
        other => panic!("unexpected start {:?}", other),
    }
    assert!(matches!(get_status(&store, JOB_ID, 8), Reply::Status(ref shown) if shown.status == DocumentStatus::Processing));

    let plan = plan_generation(request, "documents").expect("plan");
    let url = document_generator::storage::object_url(&None, &plan.bucket, &plan.key);
    let end = finish_job(request, JobOutcome::Stored { key: plan.key.clone(), url: url.clone() }, 40, 3_000);
    assert_eq!(commits(&end.actions), 1);
    for action in end.actions {
        if let WorkerAction::WriteStatus(record) = action {
            store.upsert(record);
        }
    }
    match get_status(&store, JOB_ID, 8) {
        Reply::Status(shown) => {
            assert_eq!(shown.status, DocumentStatus::Completed);
            assert_eq!(
                shown.url.as_deref(),
                Some("https://documents.s3.amazonaws.com/invoices/tenant_8/01234567-89ab-cdef-0123-456789abcdef.pdf")
            );
            assert_eq!(shown.processing_time_ms, 40);
        }
        other => panic!("unexpected reply {:?}", other),
    }
}

#[test]
fn missing_template_fails_the_job_and_commits_once() {
    let mut request = job(DocumentType::Invoice, OutputFormat::Pdf);
    request.template_id = "no_such_template".to_string();
    let mut templates = TieredCache::new(3600);
    let error = templates.get(&request.template_id, 10).unwrap_err();
    let message = error.message();
    assert_eq!(message, "Template not found: no_such_template");
    assert!(message.contains("not found"));

    let end = finish_job(&request, JobOutcome::Failed(message), 3, 20);
    assert_eq!(end.state, JobState::CommittedFailure);
    assert_eq!(commits(&end.actions), 1);
    let mut store = StatusStore::new();
    for action in end.actions {
        if let WorkerAction::WriteStatus(record) = action {
            store.upsert(record);
        }
    }
    let record = store.get(JOB_ID, 8).expect("record");
    assert_eq!(record.status, DocumentStatus::Failed);
    assert!(record.error.expect("error text").contains("not found"));
}

fn attempt(actions: &[WorkerAction], outcomes: &[bool]) -> usize {
    let mut attempted = 0;
    for (action, succeeded) in actions.iter().zip(outcomes) {
        attempted += 1;
        if after_action(action, *succeeded) == ActionStep::Stop {
            break;
        }
    }
    attempted
}

#[test]
fn only_a_notification_may_fail_without_stopping_the_job() {
    let request = job(DocumentType::Invoice, OutputFormat::Pdf);
    let write = WorkerAction::WriteStatus(document_generator::status::StatusRecord::failed(
        &request,
        "x".to_string(),
        1,
    ));
    let count = WorkerAction::RecordUsage(UsageUpdate::new(&request, false, 0));
    let notify = WorkerAction::Notify(Callback { url: "https://c".to_string(), document_id: JOB_ID });
    for action in [&write, &count, &WorkerAction::Commit, &notify] {
        assert_eq!(after_action(action, true), ActionStep::Continue);
    }
    assert_eq!(after_action(&write, false), ActionStep::Stop);
    assert_eq!(after_action(&count, false), ActionStep::Stop);
    assert_eq!(after_action(&WorkerAction::Commit, false), ActionStep::Stop);
    assert_eq!(after_action(&notify, false), ActionStep::Continue);
}

#[test]
fn no_offset_is_committed_when_the_terminal_write_fails() {
    let mut request = job(DocumentType::Invoice, OutputFormat::Pdf);
    request.callback_url = Some("https://client.example/hook".to_string());
    for outcome in [
        JobOutcome::Stored { key: "k".to_string(), url: "u".to_string() },
        JobOutcome::Failed("compiler failed".to_string()),
    ] {
        let end = finish_job(&request, outcome, 5, 6);
        let all = vec![true; end.actions.len()];
        assert_eq!(attempt(&end.actions, &all), end.actions.len());

        let mut write_fails = all.clone();
        write_fails[0] = false;
        let attempted = attempt(&end.actions, &write_fails);
        assert_eq!(attempted, 1);
        assert_eq!(commits(&end.actions[..attempted]), 0);

        let mut count_fails = all.clone();
        count_fails[1] = false;
        let attempted = attempt(&end.actions, &count_fails);
        assert_eq!(attempted, 2);
        assert_eq!(commits(&end.actions[..attempted]), 0);

        let mut commit_fails = all.clone();
        commit_fails[2] = false;
        let attempted = attempt(&end.actions, &commit_fails);
        assert_eq!(attempted, 3);
        assert_eq!(commits(&end.actions[..attempted]), 1);
    }
}
