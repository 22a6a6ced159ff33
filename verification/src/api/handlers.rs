//! The request router. A request is checked against its sender's quota,
//! measured, and then either rendered while the client waits or placed on the
//! queue. The router decides; rendering, publishing and storing are done by
//! its caller, which reports back what happened.

use vstd::prelude::*;
use crate::api::error::ApiError;
use crate::api::state::{ApiState, AppConfig};
use crate::json::{measure_payload, payload_size};
use crate::models::common::Priority;
use crate::models::document::{
    DocumentMetadata,
    DocumentRequest,
    DocumentResponse,
    DocumentStatus,
    DocumentType,
};
use crate::queue::{JobEnvelope, PublishOutcome};
use crate::status::{visible_record, StatusRecord, StatusStore};
use crate::worker::{generation_plan, generator_of, plan_key_text, GenerationPlan};
use crate::storage::{
    artifact_key,
    artifact_key_text,
    format_uuid,
    owner_of,
    owner_text,
    uuid_text,
};
use crate::text::{
    decimal,
    lemma_decimal_alphabet,
    lemma_decimal_injective,
    lemma_separated_injective,
    push_decimal_i64,
    push_text,
};

verus! {

/// The tenant and user that a request was authenticated as.
#[derive(Debug, Clone, Copy, PartialEq, Eq, Structural)]
pub struct AuthInfo {
    pub tenant_id: i64,
    pub user_id: i64,
}

/// The tenant under which an unauthenticated request to the synchronous
/// endpoint is counted.
pub const FALLBACK_TENANT_ID: i64 = 1;

/// The user under which an unauthenticated request to the synchronous
/// endpoint is counted.
pub const FALLBACK_USER_ID: i64 = 1;

/// The size in bytes from which a report is no longer rendered inline.
pub const REPORT_INLINE_LIMIT_BYTES: usize = 100_000;

/// The seconds after which a rate-limited client may try again.
pub const RETRY_AFTER_SECONDS: u64 = 60;

/// The seconds for which a download link is valid.
pub const DOWNLOAD_LINK_SECONDS: u64 = 3600;

/// The key under which the requests of one user of one tenant are counted:
/// the two numbers in decimal with a colon between them.
pub open spec fn rate_limit_key_text(tenant_id: i64, user_id: i64) -> Seq<char> {
    decimal(tenant_id as int) + seq![':'] + decimal(user_id as int)
}

/// The rate limiter key of a tenant's user.
pub fn rate_limit_key(tenant_id: i64, user_id: i64) -> (key: String)
    ensures
        key@ == rate_limit_key_text(tenant_id, user_id),
{
    let mut out = String::new();
    push_decimal_i64(&mut out, tenant_id);
    out.push(':');
    push_decimal_i64(&mut out, user_id);
    assert(out@ =~= rate_limit_key_text(tenant_id, user_id));
    out
}

/// Different senders never share a rate limiter key: two keys are equal only
/// if both the tenants and the users are. So the requests of one tenant's
/// user are never counted against another's quota.
pub proof fn lemma_rate_limit_keys_distinct(tenant_a: i64, user_a: i64, tenant_b: i64, user_b: i64)
    requires
        rate_limit_key_text(tenant_a, user_a) == rate_limit_key_text(tenant_b, user_b),
    ensures
        tenant_a == tenant_b,
        user_a == user_b,
{
    lemma_decimal_alphabet(tenant_a as int, ':');
    lemma_decimal_alphabet(tenant_b as int, ':');
    lemma_separated_injective(
        decimal(tenant_a as int),
        decimal(user_a as int),
        decimal(tenant_b as int),
        decimal(user_b as int),
        ':',
    );
    lemma_decimal_injective(tenant_a as int, tenant_b as int);
    lemma_decimal_injective(user_a as int, user_b as int);
}

/// The generator that renders a document inline.
#[derive(Debug, Clone, Copy, PartialEq, Eq, Structural)]
pub enum InlineKind {
    /// An invoice, rendered to PDF.
    Invoice,
    /// A small report, rendered to a spreadsheet.
    Report,
}

/// Where an admitted request goes.
#[derive(Debug, Clone, Copy, PartialEq, Eq, Structural)]
pub enum Route {
    /// Rendered while the client waits.
    Inline(InlineKind),
    /// Placed on the queue.
    Queue,
}

/// The route of a payload of `size` bytes: the queue where the size exceeds
/// the synchronous ceiling; else invoices are rendered inline, reports too
/// while they are below their own ceiling, and every other type is queued.
pub open spec fn route_of(size: nat, document_type: DocumentType, ceiling: nat) -> Route {
    if size > ceiling {
        Route::Queue
    } else {
        match document_type {
            DocumentType::Invoice => Route::Inline(InlineKind::Invoice),
            DocumentType::Report => if size < REPORT_INLINE_LIMIT_BYTES {
                Route::Inline(InlineKind::Report)
            } else {
                Route::Queue
            },
            _ => Route::Queue,
        }
    }
}

/// Decides whether a request is rendered inline or queued.
pub fn classify(size: usize, document_type: &DocumentType, config: &AppConfig) -> (route: Route)
    ensures
        route == route_of(size as nat, *document_type, config.max_sync_size_bytes as nat),
{
    if size > config.max_sync_size_bytes {
        Route::Queue
    } else {
        match document_type {
            DocumentType::Invoice => Route::Inline(InlineKind::Invoice),
            DocumentType::Report => if size < REPORT_INLINE_LIMIT_BYTES {
                Route::Inline(InlineKind::Report)
            } else {
                Route::Queue
            },
            _ => Route::Queue,
        }
    }
}

/// The seconds that a queued request is expected to take, by type and
/// priority.
pub open spec fn estimated_seconds(document_type: DocumentType, priority: Priority) -> u64 {
    match document_type {
        DocumentType::Invoice => if priority == Priority::High {
            30
        } else {
            60
        },
        DocumentType::Report => if priority == Priority::High {
            120
        } else {
            300
        },
        _ => 180,
    }
}

/// The seconds that `request` is expected to take once queued. The estimate
/// is looked up, not measured.
pub fn estimate_processing_time(request: &DocumentRequest) -> (seconds: u64)
    ensures
        seconds == estimated_seconds(request.document_type, request.priority),
{
    match &request.document_type {
        DocumentType::Invoice => match request.priority {
            Priority::High => 30,
            _ => 60,
        },
        DocumentType::Report => match request.priority {
            Priority::High => 120,
            _ => 300,
        },
        _ => 180,
    }
}

/// The path under which the status of request `id` is polled.
pub open spec fn status_url_text(id: u128) -> Seq<char> {
    "/api/v1/documents/"@ + uuid_text(id) + "/status"@
}

/// The path under which the status of request `id` is polled.
pub fn status_url(id: u128) -> (url: String)
    ensures
        url@ == status_url_text(id),
{
    let mut out = String::new();
    push_text(&mut out, "/api/v1/documents/");
    let id_text = format_uuid(id);
    push_text(&mut out, id_text.as_str());
    push_text(&mut out, "/status");
    assert(out@ =~= status_url_text(id));
    out
}

/// What the service answers to a client.
#[derive(Debug)]
pub enum Reply {
    /// The document was rendered inline.
    Completed(DocumentResponse),
    /// The request is on the queue.
    Accepted { id: u128, estimated_time_seconds: u64, status_url: String },
    /// The current state of a request.
    Status(DocumentResponse),
    /// The stored document is found at `location`.
    Redirect { location: String },
    /// The payload is not JSON.
    BadRequest { details: String },
    /// No such request is known to the client's tenant.
    NotFound,
    /// The sender's quota is exhausted.
    RateLimited { retry_after: u64 },
    /// Rendering failed.
    GenerationFailed { details: String },
    /// The queue did not take the request; the client may send it again.
    QueueUnavailable { details: String },
    /// Object storage did not answer.
    StorageFailed { details: String },
}

impl Reply {
    /// The HTTP status code of the reply.
    pub open spec fn code(self) -> u16 {
        match self {
            Reply::Completed(_) => 200,
            Reply::Accepted { .. } => 202,
            Reply::Status(_) => 200,
            Reply::Redirect { .. } => 302,
            Reply::BadRequest { .. } => 400,
            Reply::NotFound => 404,
            Reply::RateLimited { .. } => 429,
            Reply::GenerationFailed { .. } => 500,
            Reply::QueueUnavailable { .. } => 503,
            Reply::StorageFailed { .. } => 500,
        }
    }

    /// The HTTP status code of the reply.
    pub fn status_code(&self) -> (code: u16)
        ensures
            code == self.code(),
    {
        match self {
            Reply::Completed(_) => 200,
            Reply::Accepted { .. } => 202,
            Reply::Status(_) => 200,
            Reply::Redirect { .. } => 302,
            Reply::BadRequest { .. } => 400,
            Reply::NotFound => 404,
            Reply::RateLimited { .. } => 429,
            Reply::GenerationFailed { .. } => 500,
            Reply::QueueUnavailable { .. } => 503,
            Reply::StorageFailed { .. } => 500,
        }
    }

    /// The error line of the reply; empty where the reply reports no error.
    pub open spec fn error_line(self) -> Seq<char> {
        match self {
            Reply::BadRequest { .. } => "Invalid request payload"@,
            Reply::NotFound => "Document not found"@,
            Reply::RateLimited { .. } => "Rate limit exceeded"@,
            Reply::GenerationFailed { .. } => "Failed to generate document"@,
            Reply::QueueUnavailable { .. } => "Failed to queue document"@,
            Reply::StorageFailed { .. } => "Failed to reach document storage"@,
            _ => Seq::<char>::empty(),
        }
    }

    /// The error line of the reply, for its body.
    pub fn error_message(&self) -> (line: String)
        ensures
            line@ == self.error_line(),
    {
        match self {
            Reply::BadRequest { .. } => "Invalid request payload".to_owned(),
            Reply::NotFound => "Document not found".to_owned(),
            Reply::RateLimited { .. } => "Rate limit exceeded".to_owned(),
            Reply::GenerationFailed { .. } => "Failed to generate document".to_owned(),
            Reply::QueueUnavailable { .. } => "Failed to queue document".to_owned(),
            Reply::StorageFailed { .. } => "Failed to reach document storage".to_owned(),
            _ => String::new(),
        }
    }
}

/// A document that is to be rendered while the client waits.
#[derive(Debug)]
pub struct InlineJob {
    pub kind: InlineKind,
    pub request: DocumentRequest,
    /// The storage key of the artifact.
    pub key: String,
    pub content_type: String,
    /// The time that the render may take, in milliseconds.
    pub budget_ms: u64,
}

/// The storage key of the artifact that an inline render of `request`
/// produces.
pub open spec fn inline_key_text(kind: InlineKind, request: DocumentRequest) -> Seq<char> {
    match kind {
        InlineKind::Invoice => artifact_key_text(
            "invoices"@,
            owner_text(request),
            request.id,
            "pdf"@,
        ),
        InlineKind::Report => artifact_key_text(
            "reports"@,
            owner_text(request),
            request.id,
            "xlsx"@,
        ),
    }
}

/// The content type of the artifact that an inline render produces.
pub open spec fn inline_content_type(kind: InlineKind) -> Seq<char> {
    match kind {
        InlineKind::Invoice => "application/pdf"@,
        InlineKind::Report => "application/vnd.openxmlformats-officedocument.spreadsheetml.sheet"@,
    }
}

impl InlineJob {
    /// Whether this is the inline job of `request` for the generator `kind`
    /// under `config`.
    pub open spec fn renders(self, kind: InlineKind, request: DocumentRequest, config: AppConfig)
        -> bool {
        &&& self.kind == kind
        &&& self.request == request
        &&& self.key@ == inline_key_text(kind, request)
        &&& self.content_type@ == inline_content_type(kind)
        &&& self.budget_ms == config.sync_timeout_ms
    }

    /// The inline job of `request`.
    pub fn new(kind: InlineKind, request: DocumentRequest, config: &AppConfig) -> (job: InlineJob)
        ensures
            job.renders(kind, request, *config),
    {
        let owner = owner_of(&request);
        let (key, content_type) = match kind {
            InlineKind::Invoice => (
                artifact_key("invoices", owner.as_str(), request.id, "pdf"),
                "application/pdf".to_owned(),
            ),
            InlineKind::Report => (
                artifact_key("reports", owner.as_str(), request.id, "xlsx"),
                "application/vnd.openxmlformats-officedocument.spreadsheetml.sheet".to_owned(),
            ),
        };
        InlineJob { kind, request, key, content_type, budget_ms: config.sync_timeout_ms }
    }
}

/// What the router decided for a request.
#[derive(Debug)]
pub enum Admission {
    /// The request is answered at once and nothing else happens.
    Rejected(Reply),
    /// The document is to be rendered now.
    Render(InlineJob),
    /// The envelope is to be published to the queue.
    Enqueue(JobEnvelope),
}

/// The request as it is processed for the sender `identity`: its metadata
/// names that tenant and user.
pub open spec fn stamped(request: DocumentRequest, identity: AuthInfo) -> DocumentRequest {
    DocumentRequest {
        metadata: DocumentMetadata {
            tenant_id: identity.tenant_id,
            user_id: identity.user_id,
            ..request.metadata
        },
        ..request
    }
}

/// The decision of the synchronous endpoint for `request`, given whether the
/// rate limiter let it through and the size of its payload (`None` for a
/// payload that is not JSON).
pub open spec fn sync_admission(
    decision: Admission,
    allowed: bool,
    size: Option<nat>,
    request: DocumentRequest,
    config: AppConfig,
) -> bool {
    if !allowed {
        decision == Admission::Rejected(Reply::RateLimited { retry_after: RETRY_AFTER_SECONDS })
    } else {
        match size {
            None => decision matches Admission::Rejected(Reply::BadRequest { details })
                && details@ == "payload is not valid JSON"@,
            Some(bytes) => match route_of(
                bytes,
                request.document_type,
                config.max_sync_size_bytes as nat,
            ) {
                Route::Queue => decision matches Admission::Enqueue(envelope) && envelope.carries(
                    request,
                ),
                Route::Inline(kind) => decision matches Admission::Render(job) && job.renders(
                    kind,
                    request,
                    config,
                ),
            },
        }
    }
}

/// The decision of the asynchronous endpoint for `request`, given whether
/// the rate limiter let it through.
pub open spec fn async_admission(decision: Admission, allowed: bool, request: DocumentRequest)
    -> bool {
    if !allowed {
        decision == Admission::Rejected(Reply::RateLimited { retry_after: RETRY_AFTER_SECONDS })
    } else {
        decision matches Admission::Enqueue(envelope) && envelope.carries(request)
    }
}

/// Decides what the synchronous endpoint does with a request, once the rate
/// limiter has answered and the payload has been measured.
pub fn admit_sync(
    allowed: bool,
    size: Option<usize>,
    request: DocumentRequest,
    config: &AppConfig,
) -> (decision: Admission)
    ensures
        sync_admission(
            decision,
            allowed,
            match size {
                Some(bytes) => Some(bytes as nat),
                None => None,
            },
            request,
            *config,
        ),
{
    if !allowed {
        return Admission::Rejected(Reply::RateLimited { retry_after: RETRY_AFTER_SECONDS });
    }
    match size {
        None => Admission::Rejected(
            Reply::BadRequest { details: "payload is not valid JSON".to_owned() },
        ),
        Some(bytes) => match classify(bytes, &request.document_type, config) {
            Route::Queue => Admission::Enqueue(JobEnvelope::new(request)),
            Route::Inline(kind) => Admission::Render(InlineJob::new(kind, request, config)),
        },
    }
}

/// Decides what the asynchronous endpoint does with a request, once the rate
/// limiter has answered.
pub fn admit_async(allowed: bool, request: DocumentRequest) -> (decision: Admission)
    ensures
        async_admission(decision, allowed, request),
{
    if !allowed {
        Admission::Rejected(Reply::RateLimited { retry_after: RETRY_AFTER_SECONDS })
    } else {
        Admission::Enqueue(JobEnvelope::new(request))
    }
}

/// The sender of a request to the synchronous endpoint: the authenticated
/// one, else the fallback identity.
pub open spec fn sync_identity(auth: Option<AuthInfo>) -> AuthInfo {
    match auth {
        Some(identity) => identity,
        None => AuthInfo { tenant_id: FALLBACK_TENANT_ID, user_id: FALLBACK_USER_ID },
    }
}

fn stamp(request: DocumentRequest, identity: AuthInfo) -> (result: DocumentRequest)
    ensures
        result == stamped(request, identity),
{
    let mut request = request;
    request.metadata.tenant_id = identity.tenant_id;
    request.metadata.user_id = identity.user_id;
    request
}

/// The synchronous endpoint. The request is counted against the quota of
/// its sender; if the quota is exhausted it is rejected and nothing else is
/// done. Otherwise the payload is measured and the request is rendered inline
/// or queued. The rate limiter's answer depends on the clock and on earlier
/// requests: the decision is the one that `sync_admission` describes for the
/// answer it gave.
pub fn generate_sync(state: &ApiState, request: DocumentRequest, auth: Option<AuthInfo>) -> (decision:
    Admission)
    ensures
        exists|allowed: bool|
            sync_admission(
                decision,
                allowed,
                payload_size(request.data@),
                stamped(request, sync_identity(auth)),
                state.config,
            ),
{
    let identity = match auth {
        Some(identity) => identity,
        None => AuthInfo { tenant_id: FALLBACK_TENANT_ID, user_id: FALLBACK_USER_ID },
    };
    let request = stamp(request, identity);
    let key = rate_limit_key(identity.tenant_id, identity.user_id);
    let allowed = state.rate_limiter.check(&key);
    let size = if allowed {
        measure_payload(request.data.as_str())
    } else {
        None
    };
    let decision = admit_sync(allowed, size, request, &state.config);
    assert(sync_admission(
        decision,
        allowed,
        payload_size(request.data@),
        request,
        state.config,
    ));
    decision
}

/// The asynchronous endpoint. The request is counted against the quota of
/// its sender and, if it is within the quota, queued.
pub fn generate_async(state: &ApiState, request: DocumentRequest, identity: AuthInfo) -> (decision:
    Admission)
    ensures
        exists|allowed: bool| async_admission(decision, allowed, stamped(request, identity)),
{
    let request = stamp(request, identity);
    let key = rate_limit_key(identity.tenant_id, identity.user_id);
    let allowed = state.rate_limiter.check(&key);
    let decision = admit_async(allowed, request);
    assert(async_admission(decision, allowed, request));
    decision
}

/// The reply to a client together with the status record that is written for
/// the request, if one is.
#[derive(Debug)]
pub struct Exchange {
    pub reply: Reply,
    pub record: Option<StatusRecord>,
}

/// What follows from the queue's answer to the publish of `envelope`: an
/// acknowledged request is recorded as queued and accepted with an estimate;
/// a publish that timed out or failed is reported as retryable and leaves no
/// record.
pub open spec fn publish_resolution(
    exchange: Exchange,
    envelope: JobEnvelope,
    outcome: PublishOutcome,
    now: i64,
) -> bool {
    match outcome {
        PublishOutcome::Acknowledged => {
            &&& exchange.reply matches Reply::Accepted { id, estimated_time_seconds, status_url }
            &&& id == envelope.request.id
            &&& estimated_time_seconds == estimated_seconds(
                envelope.request.document_type,
                envelope.request.priority,
            )
            &&& status_url@ == status_url_text(envelope.request.id)
            &&& exchange.record matches Some(record)
            &&& record.is_queued_for(envelope.request, now)
        },
        PublishOutcome::TimedOut => {
            &&& exchange.reply matches Reply::QueueUnavailable { details }
            &&& details@ == "queue publish timed out"@
            &&& exchange.record is None
        },
        PublishOutcome::Failed(reason) => {
            &&& exchange.reply matches Reply::QueueUnavailable { details }
            &&& details@ == reason@
            &&& exchange.record is None
        },
    }
}

/// Answers an asynchronous admission once the queue has answered the
/// publish.
pub fn publish_resolved(envelope: &JobEnvelope, outcome: PublishOutcome, now: i64) -> (exchange:
    Exchange)
    ensures
        publish_resolution(exchange, *envelope, outcome, now),
{
    match outcome {
        PublishOutcome::Acknowledged => Exchange {
            reply: Reply::Accepted {
                id: envelope.request.id,
                estimated_time_seconds: estimate_processing_time(&envelope.request),
                status_url: status_url(envelope.request.id),
            },
            record: Some(StatusRecord::queued(&envelope.request, now)),
        },
        PublishOutcome::TimedOut => Exchange {
            reply: Reply::QueueUnavailable { details: "queue publish timed out".to_owned() },
            record: None,
        },
        PublishOutcome::Failed(reason) => Exchange {
            reply: Reply::QueueUnavailable { details: reason },
            record: None,
        },
    }
}

/// How an inline render ended.
#[derive(Debug)]
pub enum RenderOutcome {
    /// The artifact is stored at this address.
    Rendered(String),
    /// Rendering failed with this message.
    Failed(String),
    /// The time allowed ran out. `uploaded` says whether the artifact had
    /// already been stored by then.
    TimedOut { uploaded: bool },
}

/// What the router does once an inline render has ended.
#[derive(Debug)]
pub enum InlineResolution {
    /// The client is answered and the record is written.
    Respond(Exchange),
    /// The inline attempt is abandoned and the request is queued instead.
    FallBack(JobEnvelope),
    /// The render has gone too far to be abandoned: it is awaited and its
    /// result reported.
    Await(InlineJob),
}

/// What follows from the end of the inline render of `job`: success is
/// answered with the completed document, failure with the error, and neither
/// falls back to the queue. A render that ran out of time is queued instead,
/// unless its artifact is already stored.
pub open spec fn inline_resolution(
    resolution: InlineResolution,
    job: InlineJob,
    outcome: RenderOutcome,
    elapsed_ms: u64,
    now: i64,
) -> bool {
    match outcome {
        RenderOutcome::Rendered(url) => {
            &&& resolution matches InlineResolution::Respond(exchange)
            &&& exchange.reply matches Reply::Completed(response)
            &&& response.id == job.request.id
            &&& response.status == DocumentStatus::Completed
            &&& response.url matches Some(shown)
            &&& shown@ == url@
            &&& response.error is None
            &&& response.processing_time_ms == elapsed_ms
            &&& response.created_at == now
            &&& response.expires_at is None
            &&& exchange.record matches Some(record)
            &&& record.is_completed_for(job.request, url@, job.key@, elapsed_ms, now)
        },
        RenderOutcome::Failed(message) => {
            &&& resolution matches InlineResolution::Respond(exchange)
            &&& exchange.reply matches Reply::GenerationFailed { details }
            &&& details@ == message@
            &&& exchange.record matches Some(record)
            &&& record.is_failed_for(job.request, message@, now)
        },
        RenderOutcome::TimedOut { uploaded } => if uploaded {
            resolution == InlineResolution::Await(job)
        } else {
            resolution matches InlineResolution::FallBack(envelope) && envelope.carries(job.request)
        },
    }
}

/// Decides what happens once the inline render of `job` has ended.
pub fn inline_resolved(job: InlineJob, outcome: RenderOutcome, elapsed_ms: u64, now: i64) -> (resolution:
    InlineResolution)
    ensures
        inline_resolution(resolution, job, outcome, elapsed_ms, now),
{
    match outcome {
        RenderOutcome::Rendered(url) => {
            let response = DocumentResponse {
                id: job.request.id,
                status: DocumentStatus::Completed,
                url: Some(url.clone()),
                error: None,
                processing_time_ms: elapsed_ms,
                created_at: now,
                expires_at: None,
            };
            let record = StatusRecord::completed(
                &job.request,
                url,
                job.key.clone(),
                elapsed_ms,
                now,
            );
            InlineResolution::Respond(
                Exchange { reply: Reply::Completed(response), record: Some(record) },
            )
        },
        RenderOutcome::Failed(message) => {
            let record = StatusRecord::failed(&job.request, message.clone(), now);
            InlineResolution::Respond(
                Exchange {
                    reply: Reply::GenerationFailed { details: message },
                    record: Some(record),
                },
            )
        },
        RenderOutcome::TimedOut { uploaded } => {
            if uploaded {
                InlineResolution::Await(job)
            } else {
                InlineResolution::FallBack(JobEnvelope::new(job.request))
            }
        },
    }
}

/// The reply of the status endpoint: the record of the request as the
/// client's tenant sees it, or not found.
pub open spec fn status_reply(reply: Reply, found: Option<StatusRecord>) -> bool {
    match found {
        Some(record) => reply matches Reply::Status(response) && record.is_shown_by(response),
        None => reply == Reply::NotFound,
    }
}

/// The status endpoint: what the tenant `tenant_id` is told of request `id`.
pub fn get_status(store: &StatusStore, id: u128, tenant_id: i64) -> (reply: Reply)
    ensures
        status_reply(reply, visible_record(store@, id, tenant_id)),
{
    match store.get(id, tenant_id) {
        Some(record) => Reply::Status(record.to_response()),
        None => Reply::NotFound,
    }
}

/// A link to a stored object that is to be made: the object and the seconds
/// for which the link is valid.
#[derive(Debug)]
pub struct PresignRequest {
    pub bucket: String,
    pub key: String,
    pub expires_in_seconds: u64,
}

/// What the download endpoint does first.
#[derive(Debug)]
pub enum DownloadStep {
    /// The client is answered at once.
    Answer(Reply),
    /// A link to the stored artifact is to be made, and the client sent
    /// there.
    Presign(PresignRequest),
}

/// The first step of a download, given the record that the client's tenant
/// sees under the identifier: a completed record leads to a link for the key
/// under which its artifact is stored, in the bucket of the documents; a
/// request that is unknown to the tenant, or has no artifact, is not found.
pub open spec fn download_step(step: DownloadStep, found: Option<StatusRecord>, bucket: Seq<char>)
    -> bool {
    match found {
        Some(record) => if record.status == DocumentStatus::Completed && record.key is Some {
            &&& step matches DownloadStep::Presign(link)
            &&& link.bucket@ == bucket
            &&& link.key@ == record.key->0@
            &&& link.expires_in_seconds == DOWNLOAD_LINK_SECONDS
        } else {
            step == DownloadStep::Answer(Reply::NotFound)
        },
        None => step == DownloadStep::Answer(Reply::NotFound),
    }
}

/// The download endpoint: looks the request up as the tenant `tenant_id`
/// sees it and asks for a link to its artifact. Nothing is changed.
pub fn download_document(store: &StatusStore, id: u128, tenant_id: i64, config: &AppConfig) -> (step:
    DownloadStep)
    ensures
        download_step(step, visible_record(store@, id, tenant_id), config.s3_bucket_documents@),
{
    match store.get(id, tenant_id) {
        Some(record) => match record.status {
            DocumentStatus::Completed => match record.key {
                Some(key) => DownloadStep::Presign(
                    PresignRequest {
                        bucket: config.s3_bucket_documents.clone(),
                        key,
                        expires_in_seconds: DOWNLOAD_LINK_SECONDS,
                    },
                ),
                None => DownloadStep::Answer(Reply::NotFound),
            },
            _ => DownloadStep::Answer(Reply::NotFound),
        },
        None => DownloadStep::Answer(Reply::NotFound),
    }
}

/// Answers a download once object storage has answered: the client is sent
/// to the link, or told that storage failed.
pub fn download_resolved(presigned: Result<String, String>) -> (reply: Reply)
    ensures
        match presigned {
            Ok(location) => reply == (Reply::Redirect { location }),
            Err(reason) => reply == (Reply::StorageFailed { details: reason }),
        },
{
    match presigned {
        Ok(location) => Reply::Redirect { location },
        Err(reason) => Reply::StorageFailed { details: reason },
    }
}

/// A download of a request that the store does not hold is answered with
/// status 404, whoever asks.
pub proof fn lemma_unknown_download_is_not_found(
    step: DownloadStep,
    records: Map<u128, StatusRecord>,
    id: u128,
    tenant_id: i64,
    bucket: Seq<char>,
)
    requires
        !records.contains_key(id),
        download_step(step, visible_record(records, id, tenant_id), bucket),
    ensures
        step matches DownloadStep::Answer(reply) && reply == Reply::NotFound && reply.code()
            == 404,
{
}

/// A download of a completed request asks for a link to exactly the key
/// under which the artifact was stored: once the record that a worker or the
/// inline path wrote for the artifact of `plan` is in the store, the tenant
/// of the request is sent to `plan`'s key in `plan`'s bucket, and every other
/// tenant is told that the request is not found.
pub proof fn lemma_download_follows_the_artifact(
    step: DownloadStep,
    records: Map<u128, StatusRecord>,
    record: StatusRecord,
    request: DocumentRequest,
    plan: GenerationPlan,
    url: Seq<char>,
    elapsed_ms: u64,
    now: i64,
    tenant_id: i64,
)
    requires
        generation_plan(Ok(plan), request, plan.bucket@),
        record.is_completed_for(request, url, plan.key@, elapsed_ms, now),
        download_step(
            step,
            visible_record(records.insert(record.id, record), request.id, tenant_id),
            plan.bucket@,
        ),
    ensures
        generator_of(request) is Some,
        tenant_id == request.metadata.tenant_id ==> (step matches DownloadStep::Presign(link)
            && link.bucket@ == plan.bucket@ && link.key@ == plan.key@ && link.key@
            == plan_key_text(generator_of(request)->0, request)),
        tenant_id != request.metadata.tenant_id ==> step == DownloadStep::Answer(Reply::NotFound),
{
}

/// A download of a document that was rendered inline asks for a link to
/// exactly the key under which the inline job stored it.
pub proof fn lemma_download_follows_the_inline_artifact(
    step: DownloadStep,
    records: Map<u128, StatusRecord>,
    resolution: InlineResolution,
    job: InlineJob,
    kind: InlineKind,
    request: DocumentRequest,
    config: AppConfig,
    url: String,
    elapsed_ms: u64,
    now: i64,
)
    requires
        job.renders(kind, request, config),
        inline_resolution(resolution, job, RenderOutcome::Rendered(url), elapsed_ms, now),
        resolution matches InlineResolution::Respond(exchange) && exchange.record matches Some(
            record,
        ) ==> download_step(
            step,
            visible_record(
                records.insert(record.id, record),
                request.id,
                request.metadata.tenant_id,
            ),
            config.s3_bucket_documents@,
        ),
    ensures
        step matches DownloadStep::Presign(link) && link.key@ == job.key@ && link.key@
            == inline_key_text(kind, request) && link.bucket@ == config.s3_bucket_documents@,
{
}

/// A payload below the synchronous ceiling, of a type that is rendered
/// inline, is answered with a completed document in the same call once its
/// render succeeds: the reply has status 200, the one record written is
/// completed, and nothing is placed on the queue, so that the request is
/// never seen as queued.
pub proof fn lemma_small_payload_completes_inline(
    decision: Admission,
    resolution: InlineResolution,
    size: nat,
    request: DocumentRequest,
    config: AppConfig,
    url: String,
    elapsed_ms: u64,
    now: i64,
)
    requires
        size <= config.max_sync_size_bytes,
        route_of(size, request.document_type, config.max_sync_size_bytes as nat) is Inline,
        sync_admission(decision, true, Some(size), request, config),
        decision matches Admission::Render(job) ==> inline_resolution(
            resolution,
            job,
            RenderOutcome::Rendered(url),
            elapsed_ms,
            now,
        ),
    ensures
        decision is Render,
        resolution matches InlineResolution::Respond(exchange) && exchange.reply.code() == 200
            && (exchange.reply matches Reply::Completed(response) && response.status
            == DocumentStatus::Completed) && (exchange.record matches Some(record) && record.status
            == DocumentStatus::Completed && record.id == request.id),
{
}

/// A request that the rate limiter does not let through is answered with
/// status 429 and the time after which to try again, by either endpoint and
/// whatever the request holds; nothing is rendered, queued or recorded for
/// it.
pub proof fn lemma_denied_request_is_rate_limited(
    through_sync: Admission,
    through_async: Admission,
    size: Option<nat>,
    request: DocumentRequest,
    config: AppConfig,
)
    requires
        sync_admission(through_sync, false, size, request, config),
        async_admission(through_async, false, request),
    ensures
        through_sync == through_async,
        through_sync matches Admission::Rejected(reply) && reply.code() == 429 && reply
            == (Reply::RateLimited { retry_after: RETRY_AFTER_SECONDS }),
{
}

/// For a payload above the synchronous ceiling the synchronous endpoint
/// decides exactly as the asynchronous endpoint does: whatever the rate
/// limiter answered, a decision is the one of the first if and only if it is
/// the one of the second.
pub proof fn lemma_large_payload_routes_as_async(
    decision: Admission,
    allowed: bool,
    size: nat,
    request: DocumentRequest,
    config: AppConfig,
)
    requires
        size > config.max_sync_size_bytes,
    ensures
        sync_admission(decision, allowed, Some(size), request, config) <==> async_admission(
            decision,
            allowed,
            request,
        ),
{
}


/// The sender of a request as the handlers see it: the authenticated one
/// where there is one; else the numbers of the tenant and user headers, each
/// replaced by `fallback` where the header is missing or holds no number.
pub open spec fn header_identity(
    tenant_header: Option<Seq<char>>,
    user_header: Option<Seq<char>>,
    auth: Option<AuthInfo>,
    fallback: i64,
) -> AuthInfo {
    match auth {
        Some(identity) => identity,
        None => AuthInfo {
            tenant_id: header_number(tenant_header, fallback),
            user_id: header_number(user_header, fallback),
        },
    }
}

/// The number that a header holds, or `fallback`.
pub open spec fn header_number(header: Option<Seq<char>>, fallback: i64) -> i64 {
    match header {
        Some(text) => match crate::text::parsed_i64(text) {
            Some(number) => number,
            None => fallback,
        },
        None => fallback,
    }
}

fn number_in(header: &Option<String>, fallback: i64) -> (number: i64)
    ensures
        number == header_number(
            match *header {
                Some(text) => Some(text@),
                None => None,
            },
            fallback,
        ),
{
    match header {
        Some(text) => {
            let chars = crate::text::chars_of(text.as_str());
            match crate::text::parse_i64(&chars) {
                Some(number) => number,
                None => fallback,
            }
        },
        None => fallback,
    }
}

/// Finds the sender of a request from what authentication established and
/// from the values of the tenant and user headers.
pub fn extract_tenant_user(
    tenant_header: &Option<String>,
    user_header: &Option<String>,
    auth: Option<AuthInfo>,
    fallback: i64,
) -> (identity: AuthInfo)
    ensures
        identity == header_identity(
            match *tenant_header {
                Some(text) => Some(text@),
                None => None,
            },
            match *user_header {
                Some(text) => Some(text@),
                None => None,
            },
            auth,
            fallback,
        ),
{
    match auth {
        Some(identity) => identity,
        None => AuthInfo {
            tenant_id: number_in(tenant_header, fallback),
            user_id: number_in(user_header, fallback),
        },
    }
}

/// The number of bytes in a mebibyte.
pub const BYTES_PER_MEBIBYTE: usize = 1_048_576;

/// Takes one more chunk of an upload: the new size of the body, or `None`
/// where the body would exceed `max_size`.
pub fn accept_chunk(received: usize, chunk: usize, max_size: usize) -> (total: Option<usize>)
    ensures
        total == if received + chunk > max_size {
            None
        } else {
            Some((received + chunk) as usize)
        },
{
    if chunk > max_size || received > max_size - chunk {
        None
    } else {
        Some(received + chunk)
    }
}

/// The upload limit in whole mebibytes, as the reply to an upload that is
/// too large names it.
pub fn upload_limit_mb(max_size: usize) -> (mebibytes: usize)
    ensures
        mebibytes == max_size / BYTES_PER_MEBIBYTE,
{
    max_size / BYTES_PER_MEBIBYTE
}

/// Whether an upload with the given content encoding is unpacked before it
/// is stored: gzip is, everything else is stored as it came.
pub fn is_compressed_upload(content_encoding: &Option<String>) -> (compressed: bool)
    ensures
        compressed == (content_encoding matches Some(encoding) && encoding@ == "gzip"@),
{
    match content_encoding {
        Some(encoding) => crate::text::same_text(encoding.as_str(), "gzip"),
        None => false,
    }
}

/// The storage key of an upload.
pub open spec fn upload_key_text(user_id: i64, id: u128) -> Seq<char> {
    "uploads/"@ + decimal(user_id as int) + "/"@ + uuid_text(id) + ".json"@
}

/// The key under which the upload `id` of a user is stored.
pub fn upload_key(user_id: i64, id: u128) -> (key: String)
    ensures
        key@ == upload_key_text(user_id, id),
{
    let mut out = String::new();
    push_text(&mut out, "uploads/");
    push_decimal_i64(&mut out, user_id);
    push_text(&mut out, "/");
    let id_text = format_uuid(id);
    push_text(&mut out, id_text.as_str());
    push_text(&mut out, ".json");
    assert(out@ =~= upload_key_text(user_id, id));
    out
}

/// The body of an upload as it is stored: unpacked where it came as gzip.
/// A gzip body that cannot be unpacked is an error of the server.
pub fn upload_body(body: Vec<u8>, content_encoding: &Option<String>) -> (stored: Result<
    Vec<u8>,
    ApiError,
>)
    ensures
        if content_encoding matches Some(encoding) && encoding@ == "gzip"@ {
            match crate::worker::gunzip_bytes(body@) {
                Some(unpacked) => stored is Ok && stored->Ok_0@ == unpacked,
                None => stored is Err && stored->Err_0.code() == 500,
            }
        } else {
            stored == Ok::<Vec<u8>, ApiError>(body)
        },
{
    if is_compressed_upload(content_encoding) {
        match crate::worker::decompress(&body) {
            Some(unpacked) => Ok(unpacked),
            None => Err(ApiError::internal_server_error("failed to decompress upload".to_owned())),
        }
    } else {
        Ok(body)
    }
}

} // verus!
