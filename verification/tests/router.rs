use document_generator::api::handlers::{
    admit_async, admit_sync, classify, download_document, download_resolved,
    estimate_processing_time, generate_async,
    generate_sync, get_status, inline_resolved, publish_resolved, rate_limit_key, status_url,
    Admission, AuthInfo, DownloadStep, InlineKind, InlineResolution, RenderOutcome, Reply, Route,
    DOWNLOAD_LINK_SECONDS,
    REPORT_INLINE_LIMIT_BYTES, RETRY_AFTER_SECONDS,
};
use document_generator::api::state::{ApiState, AppConfig, KeyedRateLimiter};
use document_generator::json::measure_payload;
use document_generator::models::common::{OutputFormat, Priority};
use document_generator::models::document::{
    DocumentMetadata, DocumentRequest, DocumentStatus, DocumentType,
};
use document_generator::queue::{select_lane, topic_for, JobEnvelope, Lane, PublishOutcome};
use document_generator::status::{StatusRecord, StatusStore};

const ID: u128 = 0x67e5_5044_10b1_426f_9247_bb68_0e5f_e0c8;

fn request(document_type: DocumentType, priority: Priority, data: &str) -> DocumentRequest {
    DocumentRequest {
        id: ID,
        template_id: "fiscal_invoice".to_string(),
        document_type,
        data: data.to_string(),
        priority,
        format: OutputFormat::Pdf,
        callback_url: None,
        metadata: DocumentMetadata::at(1_700_000_000_000),
    }
}

fn state_with(per_minute: u32, burst: u32) -> ApiState {
    let mut config = AppConfig::default();
    config.rate_limit_per_minute = per_minute;
    config.rate_limit_burst = burst;
    ApiState::new(config).expect("valid quota")
}

#[test]
fn default_config_has_documented_limits() {
    let config = AppConfig::default();
    assert_eq!(config.max_sync_size_bytes, 1_048_576);
    assert_eq!(config.max_upload_size_bytes, 104_857_600);
    assert_eq!(config.rate_limit_per_minute, 100);
    assert_eq!(config.rate_limit_burst, 20);
    assert_eq!(config.sync_timeout_ms, 5000);
    assert_eq!(config.kafka_topic_priority, "doc.requests.priority");
    assert_eq!(config.kafka_topic_bulk, "doc.requests.bulk");
    assert_eq!(config.s3_bucket_documents, "documents");
    assert_eq!(config.s3_bucket_temp, "temp-uploads");
    assert!(config.enable_compression);
}

#[test]
fn rate_limit_key_joins_tenant_and_user() {
    assert_eq!(rate_limit_key(12, 345), "12:345");
    assert_eq!(rate_limit_key(0, 0), "0:0");
    assert_eq!(rate_limit_key(-7, 10), "-7:10");
    assert_eq!(
        rate_limit_key(i64::MIN, i64::MAX),
        format!("{}:{}", i64::MIN, i64::MAX)
    );
}

#[test]
fn rate_limit_keys_of_different_senders_differ() {
    assert_ne!(rate_limit_key(1, 23), rate_limit_key(12, 3));
    assert_ne!(rate_limit_key(1, 1), rate_limit_key(1, 2));
    assert_ne!(rate_limit_key(1, 1), rate_limit_key(2, 1));
    assert_ne!(rate_limit_key(-1, 1), rate_limit_key(1, -1));
}

#[test]
fn payload_is_measured_in_compact_form() {
    assert_eq!(measure_payload("{ \"a\" : 1 }"), Some(7));
    assert_eq!(measure_payload("[1, 2, 3]"), Some(7));
    assert_eq!(measure_payload("\"text\""), Some(6));
    assert_eq!(measure_payload("{not json"), None);
    assert_eq!(measure_payload(""), None);
}

#[test]
fn classify_routes_by_size_and_type() {
    let config = AppConfig::default();
    assert_eq!(
        classify(10, &DocumentType::Invoice, &config),
        Route::Inline(InlineKind::Invoice)
    );
    assert_eq!(
        classify(1_048_576, &DocumentType::Invoice, &config),
        Route::Inline(InlineKind::Invoice)
    );
    assert_eq!(classify(1_048_577, &DocumentType::Invoice, &config), Route::Queue);
    assert_eq!(
        classify(REPORT_INLINE_LIMIT_BYTES - 1, &DocumentType::Report, &config),
        Route::Inline(InlineKind::Report)
    );
    assert_eq!(
        classify(REPORT_INLINE_LIMIT_BYTES, &DocumentType::Report, &config),
        Route::Queue
    );
    assert_eq!(classify(10, &DocumentType::Receipt, &config), Route::Queue);
    assert_eq!(classify(10, &DocumentType::Certificate, &config), Route::Queue);
    assert_eq!(classify(10, &DocumentType::Statement, &config), Route::Queue);
    assert_eq!(
        classify(10, &DocumentType::Custom("label".to_string()), &config),
        Route::Queue
    );
}

#[test]
fn estimates_come_from_the_table() {
    let estimate = |document_type: DocumentType, priority: Priority| {
        estimate_processing_time(&request(document_type, priority, "{}"))
    };
    assert_eq!(estimate(DocumentType::Invoice, Priority::High), 30);
    assert_eq!(estimate(DocumentType::Invoice, Priority::Normal), 60);
    assert_eq!(estimate(DocumentType::Invoice, Priority::Low), 60);
    assert_eq!(estimate(DocumentType::Report, Priority::High), 120);
    assert_eq!(estimate(DocumentType::Report, Priority::Normal), 300);
    assert_eq!(estimate(DocumentType::Report, Priority::Low), 300);
    assert_eq!(estimate(DocumentType::Receipt, Priority::High), 180);
    assert_eq!(estimate(DocumentType::Custom("x".to_string()), Priority::Low), 180);
}

#[test]
fn lanes_follow_priority() {
    assert_eq!(select_lane(Priority::High), Lane::Priority);
    assert_eq!(select_lane(Priority::Normal), Lane::Bulk);
    assert_eq!(select_lane(Priority::Low), Lane::Bulk);
    let config = AppConfig::default();
    assert_eq!(topic_for(Lane::Priority, &config), "doc.requests.priority");
    assert_eq!(topic_for(Lane::Bulk, &config), "doc.requests.bulk");
}

#[test]
fn envelope_is_keyed_by_request_id() {
    let envelope = JobEnvelope::new(request(DocumentType::Invoice, Priority::High, "{}"));
    assert_eq!(envelope.key, "67e55044-10b1-426f-9247-bb680e5fe0c8");
    assert_eq!(envelope.lane, Lane::Priority);
    assert_eq!(envelope.request.id, ID);
}

#[test]
fn status_path_names_the_request() {
    assert_eq!(
        status_url(ID),
        "/api/v1/documents/67e55044-10b1-426f-9247-bb680e5fe0c8/status"
    );
}

#[test]
fn sync_rejects_when_quota_is_exhausted() {
    let config = AppConfig::default();
    let decision = admit_sync(false, Some(10), request(DocumentType::Invoice, Priority::Normal, "{}"), &config);
    match decision {
        Admission::Rejected(reply) => {
            assert_eq!(reply.status_code(), 429);
            assert_eq!(reply.error_message(), "Rate limit exceeded");
            assert!(matches!(reply, Reply::RateLimited { retry_after } if retry_after == RETRY_AFTER_SECONDS));
        }
        other => panic!("unexpected decision {:?}", other),
    }
}

#[test]
fn sync_rejects_payload_that_is_not_json() {
    let config = AppConfig::default();
    let decision = admit_sync(true, None, request(DocumentType::Invoice, Priority::Normal, "{"), &config);
    match decision {
        Admission::Rejected(reply) => {
            assert_eq!(reply.status_code(), 400);
            assert!(matches!(reply, Reply::BadRequest { ref details } if details == "payload is not valid JSON"));
        }
        other => panic!("unexpected decision {:?}", other),
    }
}

#[test]
fn sync_renders_small_invoice_inline() {
    let config = AppConfig::default();
    let mut small = request(DocumentType::Invoice, Priority::Normal, "{}");
    small.metadata.tenant_id = 42;
    match admit_sync(true, Some(2), small, &config) {
        Admission::Render(job) => {
            assert_eq!(job.kind, InlineKind::Invoice);
            assert_eq!(job.key, "invoices/tenant_42/67e55044-10b1-426f-9247-bb680e5fe0c8.pdf");
            assert_eq!(job.content_type, "application/pdf");
            assert_eq!(job.budget_ms, 5000);
            assert_eq!(job.request.id, ID);
        }
        other => panic!("unexpected decision {:?}", other),
    }
}

#[test]
fn sync_renders_small_report_inline_as_spreadsheet() {
    let config = AppConfig::default();
    let mut small = request(DocumentType::Report, Priority::Normal, "{}");
    small.metadata.organization_id = Some("acme".to_string());
    match admit_sync(true, Some(2), small, &config) {
        Admission::Render(job) => {
            assert_eq!(job.kind, InlineKind::Report);
            assert_eq!(job.key, "reports/acme/67e55044-10b1-426f-9247-bb680e5fe0c8.xlsx");
            assert_eq!(
                job.content_type,
                "application/vnd.openxmlformats-officedocument.spreadsheetml.sheet"
            );
        }
        other => panic!("unexpected decision {:?}", other),
    }
}

#[test]
fn inline_success_completes_in_the_same_call() {
    let config = AppConfig::default();
    let job = match admit_sync(true, Some(2), request(DocumentType::Invoice, Priority::Normal, "{}"), &config) {
        Admission::Render(job) => job,
        other => panic!("unexpected decision {:?}", other),
    };
    let url = "https://documents.s3.amazonaws.com/invoices/tenant_0/x.pdf".to_string();
    match inline_resolved(job, RenderOutcome::Rendered(url.clone()), 37, 1_700_000_000_500) {
        InlineResolution::Respond(exchange) => {
            assert_eq!(exchange.reply.status_code(), 200);
            match exchange.reply {
                Reply::Completed(response) => {
                    assert_eq!(response.id, ID);
                    assert_eq!(response.status, DocumentStatus::Completed);
                    assert_eq!(response.url, Some(url.clone()));
                    assert_eq!(response.error, None);
                    assert_eq!(response.processing_time_ms, 37);
                    assert_eq!(response.created_at, 1_700_000_000_500);
                    assert_eq!(response.expires_at, None);
                }
                other => panic!("unexpected reply {:?}", other),
            }
            let record = exchange.record.expect("one record");
            assert_eq!(record.status, DocumentStatus::Completed);
            assert_ne!(record.status, DocumentStatus::Queued);
            assert_eq!(record.url, Some(url));
            assert_eq!(record.processing_time_ms, 37);
        }
        other => panic!("unexpected resolution {:?}", other),
    }
}

#[test]
fn inline_failure_is_terminal_and_not_queued() {
    let config = AppConfig::default();
    let job = match admit_sync(true, Some(2), request(DocumentType::Invoice, Priority::Normal, "{}"), &config) {
        Admission::Render(job) => job,
        other => panic!("unexpected decision {:?}", other),
    };
    match inline_resolved(job, RenderOutcome::Failed("compiler exited with 1".to_string()), 5, 9) {
        InlineResolution::Respond(exchange) => {
            assert_eq!(exchange.reply.status_code(), 500);
            assert_eq!(exchange.reply.error_message(), "Failed to generate document");
            assert!(matches!(exchange.reply, Reply::GenerationFailed { ref details } if details == "compiler exited with 1"));
            let record = exchange.record.expect("one record");
            assert_eq!(record.status, DocumentStatus::Failed);
            assert_eq!(record.error, Some("compiler exited with 1".to_string()));
            assert_eq!(record.url, None);
        }
        other => panic!("unexpected resolution {:?}", other),
    }
}

#[test]
fn inline_timeout_falls_back_to_the_queue() {
    let config = AppConfig::default();
    let job = match admit_sync(true, Some(2), request(DocumentType::Invoice, Priority::High, "{}"), &config) {
        Admission::Render(job) => job,
        other => panic!("unexpected decision {:?}", other),
    };
    match inline_resolved(job, RenderOutcome::TimedOut { uploaded: false }, 5000, 9) {
        InlineResolution::FallBack(envelope) => {
            assert_eq!(envelope.request.id, ID);
            assert_eq!(envelope.lane, Lane::Priority);
            assert_eq!(envelope.key, "67e55044-10b1-426f-9247-bb680e5fe0c8");
        }
        other => panic!("unexpected resolution {:?}", other),
    }
}

#[test]
fn inline_timeout_after_upload_is_awaited() {
    let config = AppConfig::default();
    let job = match admit_sync(true, Some(2), request(DocumentType::Invoice, Priority::High, "{}"), &config) {
        Admission::Render(job) => job,
        other => panic!("unexpected decision {:?}", other),
    };
    match inline_resolved(job, RenderOutcome::TimedOut { uploaded: true }, 5000, 9) {
        InlineResolution::Await(job) => {
            assert_eq!(job.request.id, ID);
            assert_eq!(job.kind, InlineKind::Invoice);
        }
        other => panic!("unexpected resolution {:?}", other),
    }
}

#[test]
fn large_payload_is_routed_like_the_async_endpoint() {
    let config = AppConfig::default();
    let through_sync = admit_sync(
        true,
        Some(config.max_sync_size_bytes + 1),
        request(DocumentType::Invoice, Priority::High, "{}"),
        &config,
    );
    let through_async = admit_async(true, request(DocumentType::Invoice, Priority::High, "{}"));
    match (through_sync, through_async) {
        (Admission::Enqueue(left), Admission::Enqueue(right)) => {
            assert_eq!(left.key, right.key);
            assert_eq!(left.lane, right.lane);
            assert_eq!(left.request.id, right.request.id);
            assert_eq!(left.request.data, right.request.data);
        }
        other => panic!("unexpected decisions {:?}", other),
    }
    let rejected_sync = admit_sync(
        false,
        Some(config.max_sync_size_bytes + 1),
        request(DocumentType::Invoice, Priority::High, "{}"),
        &config,
    );
    let rejected_async = admit_async(false, request(DocumentType::Invoice, Priority::High, "{}"));
    assert!(matches!(rejected_sync, Admission::Rejected(Reply::RateLimited { retry_after: 60 })));
    assert!(matches!(rejected_async, Admission::Rejected(Reply::RateLimited { retry_after: 60 })));
}

#[test]
fn acknowledged_publish_is_accepted_and_recorded_as_queued() {
    let envelope = JobEnvelope::new(request(DocumentType::Report, Priority::High, "{}"));
    let exchange = publish_resolved(&envelope, PublishOutcome::Acknowledged, 1_700_000_000_000);
    assert_eq!(exchange.reply.status_code(), 202);
    match exchange.reply {
        Reply::Accepted { id, estimated_time_seconds, status_url } => {
            assert_eq!(id, ID);
            assert_eq!(estimated_time_seconds, 120);
            assert_eq!(status_url, "/api/v1/documents/67e55044-10b1-426f-9247-bb680e5fe0c8/status");
        }
        other => panic!("unexpected reply {:?}", other),
    }
    let record = exchange.record.expect("one record");
    assert_eq!(record.id, ID);
    assert_eq!(record.status, DocumentStatus::Queued);
    assert_eq!(record.created_at, 1_700_000_000_000);
    assert_eq!(record.expires_at, Some(1_700_000_000_000 + 86_400_000));
}

#[test]
fn failed_publish_is_retryable_and_leaves_no_record() {
    let envelope = JobEnvelope::new(request(DocumentType::Report, Priority::High, "{}"));
    let timed_out = publish_resolved(&envelope, PublishOutcome::TimedOut, 5);
    assert_eq!(timed_out.reply.status_code(), 503);
    assert_eq!(timed_out.reply.error_message(), "Failed to queue document");
    assert!(matches!(timed_out.reply, Reply::QueueUnavailable { ref details } if details == "queue publish timed out"));
    assert!(timed_out.record.is_none());
    let refused = publish_resolved(&envelope, PublishOutcome::Failed("broker down".to_string()), 5);
    assert_eq!(refused.reply.status_code(), 503);
    assert!(matches!(refused.reply, Reply::QueueUnavailable { ref details } if details == "broker down"));
    assert!(refused.record.is_none());
}

#[test]
fn quota_must_be_positive_and_fit_the_clock() {
    assert!(KeyedRateLimiter::new(0, 5).is_none());
    assert!(KeyedRateLimiter::new(5, 0).is_none());
    assert!(KeyedRateLimiter::new(1, u32::MAX).is_none());
    assert!(KeyedRateLimiter::new(100, 20).is_some());
    let mut config = AppConfig::default();
    config.rate_limit_burst = 0;
    assert!(ApiState::new(config).is_err());
}

#[test]
fn burst_plus_one_is_rejected_with_429() {
    let state = state_with(1, 3);
    let sender = AuthInfo { tenant_id: 7, user_id: 9 };
    for _ in 0..3 {
        let decision = generate_async(&state, request(DocumentType::Invoice, Priority::Normal, "{}"), sender);
        assert!(matches!(decision, Admission::Enqueue(_)));
    }
    match generate_async(&state, request(DocumentType::Invoice, Priority::Normal, "{}"), sender) {
        Admission::Rejected(reply) => {
            assert_eq!(reply.status_code(), 429);
            assert!(matches!(reply, Reply::RateLimited { retry_after: 60 }));
        }
        other => panic!("unexpected decision {:?}", other),
    }
}

#[test]
fn other_senders_are_not_affected_by_an_exhausted_quota() {
    let state = state_with(1, 2);
    let busy = AuthInfo { tenant_id: 1, user_id: 23 };
    for _ in 0..5 {
        let _ = generate_async(&state, request(DocumentType::Invoice, Priority::Normal, "{}"), busy);
    }
    assert!(matches!(
        generate_async(&state, request(DocumentType::Invoice, Priority::Normal, "{}"), busy),
        Admission::Rejected(_)
    ));
    let other_user = AuthInfo { tenant_id: 1, user_id: 24 };
    let other_tenant = AuthInfo { tenant_id: 12, user_id: 3 };
    assert!(matches!(
        generate_async(&state, request(DocumentType::Invoice, Priority::Normal, "{}"), other_user),
        Admission::Enqueue(_)
    ));
    assert!(matches!(
        generate_async(&state, request(DocumentType::Invoice, Priority::Normal, "{}"), other_tenant),
        Admission::Enqueue(_)
    ));
}

#[test]
fn sync_endpoint_stamps_the_sender_and_measures_the_payload() {
    let state = state_with(100, 20);
    let sender = AuthInfo { tenant_id: 5, user_id: 6 };
    match generate_sync(&state, request(DocumentType::Invoice, Priority::Normal, "{ \"a\": 1 }"), Some(sender)) {
        Admission::Render(job) => {
            assert_eq!(job.request.metadata.tenant_id, 5);
            assert_eq!(job.request.metadata.user_id, 6);
            assert_eq!(job.key, "invoices/tenant_5/67e55044-10b1-426f-9247-bb680e5fe0c8.pdf");
        }
        other => panic!("unexpected decision {:?}", other),
    }
    match generate_sync(&state, request(DocumentType::Invoice, Priority::Normal, "{}"), None) {
        Admission::Render(job) => {
            assert_eq!(job.request.metadata.tenant_id, 1);
            assert_eq!(job.request.metadata.user_id, 1);
        }
        other => panic!("unexpected decision {:?}", other),
    }
    match generate_sync(&state, request(DocumentType::Invoice, Priority::Normal, "not json"), Some(sender)) {
        Admission::Rejected(reply) => assert_eq!(reply.status_code(), 400),
        other => panic!("unexpected decision {:?}", other),
    }
}

#[test]
fn sync_endpoint_queues_what_exceeds_the_ceiling() {
    let mut config = AppConfig::default();
    config.max_sync_size_bytes = 8;
    let state = ApiState::new(config).expect("valid quota");
    let sender = AuthInfo { tenant_id: 5, user_id: 6 };
    let payload = "{\"items\": [1, 2, 3, 4, 5, 6]}";
    match generate_sync(&state, request(DocumentType::Invoice, Priority::High, payload), Some(sender)) {
        Admission::Enqueue(envelope) => {
            assert_eq!(envelope.lane, Lane::Priority);
            assert_eq!(envelope.request.metadata.tenant_id, 5);
            assert_eq!(envelope.request.data, payload);
        }
        other => panic!("unexpected decision {:?}", other),
    }
}

#[test]
fn status_is_shown_to_the_owning_tenant_only() {
    let mut store = StatusStore::new();
    let mut owned = request(DocumentType::Invoice, Priority::Normal, "{}");
    owned.metadata.tenant_id = 3;
    store.upsert(StatusRecord::queued(&owned, 100));
    match get_status(&store, ID, 3) {
        Reply::Status(response) => {
            assert_eq!(response.id, ID);
            assert_eq!(response.status, DocumentStatus::Queued);
        }
        other => panic!("unexpected reply {:?}", other),
    }
    let for_other = get_status(&store, ID, 4);
    assert_eq!(for_other.status_code(), 404);
    assert!(matches!(for_other, Reply::NotFound));
    let unknown = get_status(&store, ID + 1, 3);
    assert_eq!(unknown.status_code(), 404);
    assert_eq!(unknown.error_message(), "Document not found");
}

#[test]
fn download_of_an_unknown_request_is_not_found() {
    let config = AppConfig::default();
    let store = StatusStore::new();
    match download_document(&store, ID, 3, &config) {
        DownloadStep::Answer(reply) => {
            assert_eq!(reply.status_code(), 404);
            assert!(matches!(reply, Reply::NotFound));
        }
        other => panic!("unexpected step {:?}", other),
    }
}

#[test]
fn download_of_a_completed_request_links_to_the_stored_key() {
    let config = AppConfig::default();
    let mut owned = request(DocumentType::Invoice, Priority::Normal, "{}");
    owned.metadata.tenant_id = 3;
    let job = match admit_sync(true, Some(2), owned, &config) {
        Admission::Render(job) => job,
        other => panic!("unexpected decision {:?}", other),
    };
    let stored_under = job.key.clone();
    assert_eq!(stored_under, "invoices/tenant_3/67e55044-10b1-426f-9247-bb680e5fe0c8.pdf");
    let exchange = match inline_resolved(job, RenderOutcome::Rendered("https://cdn/x.pdf".to_string()), 5, 9) {
        InlineResolution::Respond(exchange) => exchange,
        other => panic!("unexpected resolution {:?}", other),
    };
    let mut store = StatusStore::new();
    store.upsert(exchange.record.expect("one record"));
    match download_document(&store, ID, 3, &config) {
        DownloadStep::Presign(link) => {
            assert_eq!(link.bucket, "documents");
            assert_eq!(link.key, stored_under);
            assert_eq!(link.expires_in_seconds, DOWNLOAD_LINK_SECONDS);
            assert_eq!(link.expires_in_seconds, 3600);
        }
        other => panic!("unexpected step {:?}", other),
    }
    assert!(matches!(
        download_document(&store, ID, 4, &config),
        DownloadStep::Answer(Reply::NotFound)
    ));
    assert!(matches!(
        download_document(&store, ID + 1, 3, &config),
        DownloadStep::Answer(Reply::NotFound)
    ));
    assert_eq!(store.len(), 1);
}

#[test]
fn download_of_an_unfinished_or_failed_request_is_not_found() {
    let config = AppConfig::default();
    let mut owned = request(DocumentType::Invoice, Priority::Normal, "{}");
    owned.metadata.tenant_id = 3;
    let mut store = StatusStore::new();
    store.upsert(StatusRecord::queued(&owned, 1));
    assert!(matches!(download_document(&store, ID, 3, &config), DownloadStep::Answer(Reply::NotFound)));
    store.upsert(StatusRecord::processing(&owned, 2));
    assert!(matches!(download_document(&store, ID, 3, &config), DownloadStep::Answer(Reply::NotFound)));
    store.upsert(StatusRecord::failed(&owned, "boom".to_string(), 3));
    assert!(matches!(download_document(&store, ID, 3, &config), DownloadStep::Answer(Reply::NotFound)));
}

#[test]
fn download_redirects_to_the_link_or_reports_storage() {
    let sent = download_resolved(Ok("https://bucket/doc.pdf?signature=1".to_string()));
    assert_eq!(sent.status_code(), 302);
    assert_eq!(sent.error_message(), "");
    assert!(matches!(sent, Reply::Redirect { ref location } if location == "https://bucket/doc.pdf?signature=1"));
    let failed = download_resolved(Err("timeout".to_string()));
    assert_eq!(failed.status_code(), 500);
    assert_eq!(failed.error_message(), "Failed to reach document storage");
    assert!(matches!(failed, Reply::StorageFailed { ref details } if details == "timeout"));
}

#[test]
fn very_fast_quotas_replenish_in_a_nanosecond() {
    assert!(KeyedRateLimiter::new(u32::MAX, 1).is_some());
    assert!(KeyedRateLimiter::new(u32::MAX, u32::MAX).is_some());
    assert!(KeyedRateLimiter::new(60, u32::MAX).is_some());
    assert!(KeyedRateLimiter::new(10, u32::MAX).is_none());
}
