//! The worker side of the pipeline: what a worker does with a job taken from
//! the queue. A job is decoded, rendered and committed; every failure is
//! terminal, and the offset is committed exactly once whatever happened. The
//! worker decides; rendering, storing and committing are done by its caller.

use vstd::prelude::*;
use vstd::utf8::{decode_utf8, valid_utf8};
use crate::models::common::OutputFormat;
use crate::models::document::{DocumentRequest, DocumentStatus, DocumentType};
use crate::models::report::DataSource;
use crate::status::StatusRecord;
use crate::storage::{artifact_key, artifact_key_text, owner_of, owner_text};
use crate::text::{copy_optional_text, push_text};

verus! {

/// Where a worker finds the queue and the stores, and how much it does at
/// once.
#[derive(Debug, Clone)]
pub struct WorkerConfig {
    pub kafka_brokers: String,
    pub kafka_group_id: String,
    pub kafka_topics: Vec<String>,
    /// The number of jobs that may be rendered at the same time.
    pub max_concurrent: usize,
    /// The number of tasks that take jobs from the queue.
    pub worker_threads: usize,
    pub database_url: String,
    pub redis_url: String,
    pub s3_bucket_documents: String,
    pub s3_bucket_temp: String,
}

impl WorkerConfig {
    /// The configuration of a worker that is told nothing but its database:
    /// a local broker and cache, both lanes, twenty jobs at once on four
    /// tasks.
    pub fn with_defaults(database_url: String) -> (config: WorkerConfig)
        ensures
            config.kafka_brokers@ == "localhost:9092"@,
            config.kafka_group_id@ == "doc-workers"@,
            config.kafka_topics@.len() == 2,
            config.kafka_topics@[0]@ == "doc.requests.priority"@,
            config.kafka_topics@[1]@ == "doc.requests.bulk"@,
            config.max_concurrent == 20,
            config.worker_threads == 4,
            config.database_url == database_url,
            config.redis_url@ == "redis://localhost"@,
            config.s3_bucket_documents@ == "documents"@,
            config.s3_bucket_temp@ == "temp-uploads"@,
    {
        let mut kafka_topics: Vec<String> = Vec::new();
        kafka_topics.push("doc.requests.priority".to_owned());
        kafka_topics.push("doc.requests.bulk".to_owned());
        WorkerConfig {
            kafka_brokers: "localhost:9092".to_owned(),
            kafka_group_id: "doc-workers".to_owned(),
            kafka_topics,
            max_concurrent: 20,
            worker_threads: 4,
            database_url,
            redis_url: "redis://localhost".to_owned(),
            s3_bucket_documents: "documents".to_owned(),
            s3_bucket_temp: "temp-uploads".to_owned(),
        }
    }
}

/// The slots in which jobs are rendered: a counting semaphore. No more jobs
/// are in flight than there are slots.
pub struct WorkerSlots {
    capacity: usize,
    in_flight: usize,
}

impl WorkerSlots {
    #[verifier::type_invariant]
    spec fn within_capacity(self) -> bool {
        self.in_flight <= self.capacity
    }

    /// The number of slots.
    pub closed spec fn capacity(self) -> nat {
        self.capacity as nat
    }

    /// The number of slots that are taken.
    pub closed spec fn in_flight(self) -> nat {
        self.in_flight as nat
    }

    /// `capacity` slots, all free.
    pub fn new(capacity: usize) -> (slots: WorkerSlots)
        ensures
            slots.capacity() == capacity,
            slots.in_flight() == 0,
    {
        WorkerSlots { capacity, in_flight: 0 }
    }

    /// Takes a slot if one is free, and says whether it did.
    pub fn try_acquire(&mut self) -> (acquired: bool)
        ensures
            final(self).capacity() == old(self).capacity(),
            acquired == (old(self).in_flight() < old(self).capacity()),
            final(self).in_flight() == if acquired {
                old(self).in_flight() + 1
            } else {
                old(self).in_flight()
            },
            final(self).in_flight() <= final(self).capacity(),
    {
        proof {
            use_type_invariant(&*self);
        }
        if self.in_flight < self.capacity {
            self.in_flight = self.in_flight + 1;
            true
        } else {
            false
        }
    }

    /// Gives a slot back when its job has ended, however it ended. With no
    /// slot taken nothing changes.
    pub fn release(&mut self)
        ensures
            final(self).capacity() == old(self).capacity(),
            final(self).in_flight() == if old(self).in_flight() > 0 {
                old(self).in_flight() - 1
            } else {
                0
            },
    {
        proof {
            use_type_invariant(&*self);
        }
        if self.in_flight > 0 {
            self.in_flight = self.in_flight - 1;
        }
    }

    /// The number of free slots.
    pub fn available(&self) -> (free: usize)
        ensures
            free == self.capacity() - self.in_flight(),
    {
        proof {
            use_type_invariant(self);
        }
        self.capacity - self.in_flight
    }
}

/// The generator that renders a queued document.
#[derive(Debug, Clone, Copy, PartialEq, Eq, Structural)]
pub enum GeneratorKind {
    InvoicePdf,
    ReportExcel,
    ReportPdf,
}

/// What is to be rendered for a job and where its artifact is stored.
#[derive(Debug)]
pub struct GenerationPlan {
    pub kind: GeneratorKind,
    pub bucket: String,
    /// The storage key of the artifact.
    pub key: String,
    pub content_type: String,
}

/// The generator of a request, or `None` where the worker has none for it:
/// invoices are rendered to PDF, reports to a spreadsheet or to PDF as the
/// request asks.
pub open spec fn generator_of(request: DocumentRequest) -> Option<GeneratorKind> {
    match request.document_type {
        DocumentType::Invoice => Some(GeneratorKind::InvoicePdf),
        DocumentType::Report => match request.format {
            OutputFormat::Excel => Some(GeneratorKind::ReportExcel),
            OutputFormat::Pdf => Some(GeneratorKind::ReportPdf),
            OutputFormat::Csv => None,
        },
        _ => None,
    }
}

/// The message with which a request without generator fails.
pub open spec fn unsupported_text(request: DocumentRequest) -> Seq<char> {
    match request.document_type {
        DocumentType::Report => "Unsupported format"@,
        _ => "Custom document type not implemented"@,
    }
}

/// The storage key of the artifact of `request` as `kind` renders it.
pub open spec fn plan_key_text(kind: GeneratorKind, request: DocumentRequest) -> Seq<char> {
    match kind {
        GeneratorKind::InvoicePdf => artifact_key_text(
            "invoices"@,
            owner_text(request),
            request.id,
            "pdf"@,
        ),
        GeneratorKind::ReportExcel => artifact_key_text(
            "reports"@,
            owner_text(request),
            request.id,
            "xlsx"@,
        ),
        GeneratorKind::ReportPdf => artifact_key_text(
            "reports"@,
            owner_text(request),
            request.id,
            "pdf"@,
        ),
    }
}

/// The content type of what `kind` renders.
pub open spec fn plan_content_type(kind: GeneratorKind) -> Seq<char> {
    match kind {
        GeneratorKind::ReportExcel =>
            "application/vnd.openxmlformats-officedocument.spreadsheetml.sheet"@,
        _ => "application/pdf"@,
    }
}

/// Whether `planned` is what the worker decides for `request` with the
/// artifacts kept in `bucket`.
pub open spec fn generation_plan(
    planned: Result<GenerationPlan, String>,
    request: DocumentRequest,
    bucket: Seq<char>,
) -> bool {
    match generator_of(request) {
        Some(kind) => {
            &&& planned matches Ok(plan)
            &&& plan.kind == kind
            &&& plan.bucket@ == bucket
            &&& plan.key@ == plan_key_text(kind, request)
            &&& plan.content_type@ == plan_content_type(kind)
        },
        None => planned matches Err(message) && message@ == unsupported_text(request),
    }
}

/// Decides how the document of `request` is rendered and under which key its
/// artifact is stored. The key depends on the request alone, so a job that
/// is delivered again writes the same object.
pub fn plan_generation(request: &DocumentRequest, bucket: &str) -> (planned: Result<
    GenerationPlan,
    String,
>)
    ensures
        generation_plan(planned, *request, bucket@),
{
    let kind = match &request.document_type {
        DocumentType::Invoice => GeneratorKind::InvoicePdf,
        DocumentType::Report => match request.format {
            OutputFormat::Excel => GeneratorKind::ReportExcel,
            OutputFormat::Pdf => GeneratorKind::ReportPdf,
            OutputFormat::Csv => {
                return Err("Unsupported format".to_owned());
            },
        },
        _ => {
            return Err("Custom document type not implemented".to_owned());
        },
    };
    let owner = owner_of(request);
    let (key, content_type) = match kind {
        GeneratorKind::InvoicePdf => (
            artifact_key("invoices", owner.as_str(), request.id, "pdf"),
            "application/pdf".to_owned(),
        ),
        GeneratorKind::ReportExcel => (
            artifact_key("reports", owner.as_str(), request.id, "xlsx"),
            "application/vnd.openxmlformats-officedocument.spreadsheetml.sheet".to_owned(),
        ),
        GeneratorKind::ReportPdf => (
            artifact_key("reports", owner.as_str(), request.id, "pdf"),
            "application/pdf".to_owned(),
        ),
    };
    Ok(GenerationPlan { kind, bucket: bucket.to_owned(), key, content_type })
}

/// The bytes that a gzip stream unpacks to, as `flate2` reads it; `None`
/// where the bytes are no complete gzip stream.
pub uninterp spec fn gunzip_bytes(data: Seq<u8>) -> Option<Seq<u8>>;

/// `GzDecoder::new` of `flate2`, read to its end: the unpacked content of
/// the gzip stream in `data`, a function of the bytes alone. A stream that
/// is damaged or cut short gives `None`.
#[verifier::external_body]
fn gunzip(data: &Vec<u8>) -> (unpacked: Option<Vec<u8>>)
    ensures
        unpacked is Some <==> gunzip_bytes(data@) is Some,
        unpacked is Some ==> unpacked->0@ == gunzip_bytes(data@)->0,
{
    let mut decoder = flate2::read::GzDecoder::new(&data[..]);
    let mut unpacked = Vec::new();
    match std::io::Read::read_to_end(&mut decoder, &mut unpacked) {
        Ok(_) => Some(unpacked),
        Err(_) => None,
    }
}

/// `String::from_utf8` of the standard library: the text that the bytes
/// encode, or `None` where they are not UTF-8.
#[verifier::external_body]
fn text_from_utf8(bytes: Vec<u8>) -> (text: Option<String>)
    ensures
        text is Some <==> valid_utf8(bytes@),
        text is Some ==> text->0@ == decode_utf8(bytes@),
{
    String::from_utf8(bytes).ok()
}

/// Unpacks a gzip stream, or says that it cannot be unpacked.
pub fn decompress(data: &Vec<u8>) -> (unpacked: Option<Vec<u8>>)
    ensures
        unpacked is Some <==> gunzip_bytes(data@) is Some,
        unpacked is Some ==> unpacked->0@ == gunzip_bytes(data@)->0,
{
    gunzip(data)
}

/// The text that unpacked bytes hold, if they are UTF-8.
pub open spec fn text_of_bytes(bytes: Option<Seq<u8>>) -> Option<Seq<char>> {
    match bytes {
        Some(content) => if valid_utf8(content) {
            Some(decode_utf8(content))
        } else {
            None
        },
        None => None,
    }
}

/// Reads unpacked bytes as text.
pub fn decode_text(bytes: Option<Vec<u8>>) -> (text: Option<String>)
    ensures
        match text_of_bytes(
            match bytes {
                Some(content) => Some(content@),
                None => None,
            },
        ) {
            Some(expected) => text is Some && text->0@ == expected,
            None => text is None,
        },
{
    match bytes {
        Some(content) => text_from_utf8(content),
        None => None,
    }
}

/// Where the rows of a report are read from.
#[derive(Debug)]
pub enum ReportInput {
    /// The rows came with the request, each as JSON text.
    Rows(Vec<String>),
    /// The rows came compressed; this is their JSON text.
    Unpacked(String),
    /// The rows are fetched from object storage.
    Fetch { bucket: String, key: String },
}

/// Whether `input` is what the worker reads for a report with the given
/// source, where `unpacked` is what compressed data unpacks to.
pub open spec fn report_input_of(
    input: Result<ReportInput, String>,
    source: DataSource,
    unpacked: Option<Seq<char>>,
) -> bool {
    match source {
        DataSource::Inline { rows } => input matches Ok(ReportInput::Rows(given)) && given@.len()
            == rows@.len() && forall|i: int|
            0 <= i < rows@.len() ==> (#[trigger] given@[i])@ == rows@[i]@,
        DataSource::R2Reference { bucket, key, .. } => input matches Ok(
            ReportInput::Fetch { bucket: from, key: at },
        ) && from@ == bucket@ && at@ == key@,
        DataSource::Compressed { .. } => match unpacked {
            Some(text) => input matches Ok(ReportInput::Unpacked(given)) && given@ == text,
            None => input matches Err(message) && message@ == "Failed to decompress report data"@,
        },
        _ => input matches Err(message) && message@ == "Unsupported data source"@,
    }
}

/// Decides where the rows of a report come from, given what its compressed
/// data, if any, unpacks to.
pub fn select_report_input(source: &DataSource, unpacked: Option<String>) -> (input: Result<
    ReportInput,
    String,
>)
    ensures
        report_input_of(
            input,
            *source,
            match unpacked {
                Some(text) => Some(text@),
                None => None,
            },
        ),
{
    match source {
        DataSource::Inline { rows } => {
            let mut given: Vec<String> = Vec::new();
            let mut i: usize = 0;
            while i < rows.len()
                invariant
                    0 <= i <= rows@.len(),
                    given@.len() == i,
                    forall|j: int| 0 <= j < i ==> (#[trigger] given@[j])@ == rows@[j]@,
                decreases rows.len() - i,
            {
                given.push(rows[i].clone());
                i = i + 1;
            }
            Ok(ReportInput::Rows(given))
        },
        DataSource::R2Reference { bucket, key, .. } => Ok(
            ReportInput::Fetch { bucket: bucket.clone(), key: key.clone() },
        ),
        DataSource::Compressed { .. } => match unpacked {
            Some(text) => Ok(ReportInput::Unpacked(text)),
            None => Err("Failed to decompress report data".to_owned()),
        },
        _ => Err("Unsupported data source".to_owned()),
    }
}

/// The compressed data of a source, if it has any.
pub open spec fn compressed_data(source: DataSource) -> Option<Seq<u8>> {
    match source {
        DataSource::Compressed { data, .. } => Some(data@),
        _ => None,
    }
}

/// The text that the compressed data of a source unpacks to, if it has any
/// and it unpacks to text.
pub open spec fn unpacked_text(source: DataSource) -> Option<Seq<char>> {
    match compressed_data(source) {
        Some(data) => text_of_bytes(gunzip_bytes(data)),
        None => None,
    }
}

/// Reads the source of a report: rows sent inline are taken as they are,
/// compressed rows are unpacked, stored rows are to be fetched. Any other
/// source is refused.
pub fn read_report_source(source: &DataSource) -> (input: Result<ReportInput, String>)
    ensures
        report_input_of(input, *source, unpacked_text(*source)),
{
    let unpacked = match source {
        DataSource::Compressed { data, .. } => decode_text(decompress(data)),
        _ => None,
    };
    select_report_input(source, unpacked)
}

/// The seconds that a worker waits after the broker reported an error.
pub const BROKER_BACKOFF_SECONDS: u64 = 5;

/// The seconds that a notification may take.
pub const CALLBACK_TIMEOUT_SECONDS: u64 = 10;

/// What a worker does with what the queue delivered.
#[derive(Debug, Clone, Copy, PartialEq, Eq, Structural)]
pub enum PollAction {
    /// Take a slot, then process the message in a task of its own; the slot
    /// is given back when the task ends, however it ends.
    Process,
    /// Wait for the given number of seconds, then poll again.
    BackOff { seconds: u64 },
}

/// Decides what a worker does next: a message is processed, an error of the
/// broker is waited out.
pub fn on_delivery(delivered: bool) -> (action: PollAction)
    ensures
        action == if delivered {
            PollAction::Process
        } else {
            PollAction::BackOff { seconds: BROKER_BACKOFF_SECONDS }
        },
{
    if delivered {
        PollAction::Process
    } else {
        PollAction::BackOff { seconds: BROKER_BACKOFF_SECONDS }
    }
}

/// The states of a job in a worker.
#[derive(Debug, Clone, Copy, PartialEq, Eq, Structural)]
pub enum JobState {
    /// Taken from the queue, not yet decoded.
    Dequeued,
    /// Decoded and being rendered.
    Rendering,
    /// Rendered and stored; the offset is committed.
    CommittedSuccess,
    /// Failed or undecodable; the offset is committed all the same.
    CommittedFailure,
}

impl JobState {
    /// Whether the job has reached its end.
    pub open spec fn committed(self) -> bool {
        self == JobState::CommittedSuccess || self == JobState::CommittedFailure
    }

    /// Whether a job may move from this state to `next`.
    pub open spec fn precedes(self, next: JobState) -> bool {
        match self {
            JobState::Dequeued => next == JobState::Rendering || next
                == JobState::CommittedFailure,
            JobState::Rendering => next.committed(),
            _ => false,
        }
    }

    /// Whether the job has reached its end.
    pub fn is_committed(&self) -> (committed: bool)
        ensures
            committed == self.committed(),
    {
        match self {
            JobState::CommittedSuccess => true,
            JobState::CommittedFailure => true,
            _ => false,
        }
    }
}

/// One line of the usage statistics: a document of a type and format that
/// was rendered, or failed to render, for an owner.
#[derive(Debug)]
pub struct UsageUpdate {
    pub organization_id: Option<String>,
    pub document_type: String,
    pub format: String,
    pub success: bool,
    pub processing_time_ms: u64,
}

/// A text in quotes with its special characters escaped, as the standard
/// library's `Debug` writes a string.
pub uninterp spec fn quoted_text(text: Seq<char>) -> Seq<char>;

/// The `Debug` form of a string of the standard library: the text in double
/// quotes, escaped; a function of the text alone.
#[verifier::external_body]
fn quote(text: &str) -> (quoted: String)
    ensures
        quoted@ == quoted_text(text@),
{
    format!("{:?}", text)
}

/// The name of a document type in the usage statistics.
pub open spec fn type_label(document_type: DocumentType) -> Seq<char> {
    match document_type {
        DocumentType::Invoice => "Invoice"@,
        DocumentType::Report => "Report"@,
        DocumentType::Certificate => "Certificate"@,
        DocumentType::Statement => "Statement"@,
        DocumentType::Receipt => "Receipt"@,
        DocumentType::Custom(name) => "Custom("@ + quoted_text(name@) + ")"@,
    }
}

/// The name under which a custom type with the quoted name `quoted` is
/// counted.
pub fn custom_label(quoted: &str) -> (label: String)
    ensures
        label@ == "Custom("@ + quoted@ + ")"@,
{
    let mut out = String::new();
    push_text(&mut out, "Custom(");
    push_text(&mut out, quoted);
    push_text(&mut out, ")");
    assert(out@ =~= "Custom("@ + quoted@ + ")"@);
    out
}

/// The name of a document type in the usage statistics.
pub fn document_type_label(document_type: &DocumentType) -> (label: String)
    ensures
        label@ == type_label(*document_type),
{
    match document_type {
        DocumentType::Invoice => "Invoice".to_owned(),
        DocumentType::Report => "Report".to_owned(),
        DocumentType::Certificate => "Certificate".to_owned(),
        DocumentType::Statement => "Statement".to_owned(),
        DocumentType::Receipt => "Receipt".to_owned(),
        DocumentType::Custom(name) => {
            let quoted = quote(name.as_str());
            custom_label(quoted.as_str())
        },
    }
}

impl UsageUpdate {
    /// Whether this is the line counted for `request` when it ended with or
    /// without success after `elapsed_ms`.
    pub open spec fn counts(self, request: DocumentRequest, success: bool, elapsed_ms: u64)
        -> bool {
        &&& self.organization_id == request.metadata.organization_id
        &&& self.document_type@ == type_label(request.document_type)
        &&& self.format@ == request.format.label()
        &&& self.success == success
        &&& self.processing_time_ms == if success {
            elapsed_ms
        } else {
            0
        }
    }

    /// The line counted for `request`. A failure counts no time.
    pub fn new(request: &DocumentRequest, success: bool, elapsed_ms: u64) -> (update: UsageUpdate)
        ensures
            update.counts(*request, success, elapsed_ms),
    {
        UsageUpdate {
            organization_id: copy_optional_text(&request.metadata.organization_id),
            document_type: document_type_label(&request.document_type),
            format: request.format.to_text(),
            success,
            processing_time_ms: if success {
                elapsed_ms
            } else {
                0
            },
        }
    }
}

/// A notification owed to the sender of a request.
#[derive(Debug)]
pub struct Callback {
    pub url: String,
    pub document_id: u128,
}

/// One thing that the worker's caller is to do, in the order given.
#[derive(Debug)]
pub enum WorkerAction {
    /// Write the record to the status store.
    WriteStatus(StatusRecord),
    /// Count the job in the usage statistics.
    RecordUsage(UsageUpdate),
    /// Commit the offset of the job's message.
    Commit,
    /// Tell the sender that the document is ready. Nobody waits for the
    /// notification, and its failure changes nothing.
    Notify(Callback),
}

/// How the rendering of a job ended.
#[derive(Debug)]
pub enum JobOutcome {
    /// The artifact is stored under this key and found at this address.
    Stored { key: String, url: String },
    /// Rendering or storing failed with this message.
    Failed(String),
}

/// What a worker does first with a message taken from the queue.
#[derive(Debug)]
pub enum JobStart {
    /// The message cannot be decoded and would fail again each time it is
    /// delivered: its offset is committed and nothing else is done.
    Discard { state: JobState, actions: Vec<WorkerAction> },
    /// The request is recorded as processing and then rendered.
    Begin { state: JobState, record: StatusRecord },
}

/// Whether `start` is the first step for a message that decoded to
/// `decoded`.
pub open spec fn job_start(start: JobStart, decoded: Option<DocumentRequest>, now: i64) -> bool {
    match decoded {
        None => start matches JobStart::Discard { state, actions } && state
            == JobState::CommittedFailure && actions@.len() == 1 && actions@[0] is Commit,
        Some(request) => start matches JobStart::Begin { state, record } && state
            == JobState::Rendering && record.is_processing_for(request, now),
    }
}

/// Takes up a message from the queue. `decoded` is the request that the
/// message held, or `None` where it held none that could be read.
pub fn begin_job(decoded: &Option<DocumentRequest>, now: i64) -> (start: JobStart)
    ensures
        job_start(start, *decoded, now),
{
    match decoded {
        None => {
            let mut actions: Vec<WorkerAction> = Vec::new();
            actions.push(WorkerAction::Commit);
            JobStart::Discard { state: JobState::CommittedFailure, actions }
        },
        Some(request) => JobStart::Begin {
            state: JobState::Rendering,
            record: StatusRecord::processing(request, now),
        },
    }
}

/// The end of a job: its last state and what remains to be done, in order.
#[derive(Debug)]
pub struct JobEnd {
    pub state: JobState,
    pub actions: Vec<WorkerAction>,
}

/// Whether `end` is how the job of `request` ends after `outcome`. After a
/// success the completed record is written, the job is counted, the offset
/// is committed and, where the request names a callback, the sender is told.
/// After a failure the failed record is written, the failure is counted and
/// the offset is committed; the job is not tried again.
pub open spec fn job_completion(
    end: JobEnd,
    request: DocumentRequest,
    outcome: JobOutcome,
    elapsed_ms: u64,
    now: i64,
) -> bool {
    match outcome {
        JobOutcome::Stored { key, url } => {
            &&& end.state == JobState::CommittedSuccess
            &&& end.actions@.len() == if request.callback_url is Some {
                4nat
            } else {
                3nat
            }
            &&& end.actions@[0] matches WorkerAction::WriteStatus(record)
            &&& record.is_completed_for(request, url@, key@, elapsed_ms, now)
            &&& end.actions@[1] matches WorkerAction::RecordUsage(update)
            &&& update.counts(request, true, elapsed_ms)
            &&& end.actions@[2] is Commit
            &&& request.callback_url matches Some(target) ==> {
                &&& end.actions@[3] matches WorkerAction::Notify(callback)
                &&& callback.url == target
                &&& callback.document_id == request.id
            }
        },
        JobOutcome::Failed(message) => {
            &&& end.state == JobState::CommittedFailure
            &&& end.actions@.len() == 3
            &&& end.actions@[0] matches WorkerAction::WriteStatus(record)
            &&& record.is_failed_for(request, message@, now)
            &&& end.actions@[1] matches WorkerAction::RecordUsage(update)
            &&& update.counts(request, false, elapsed_ms)
            &&& end.actions@[2] is Commit
        },
    }
}

/// Ends the job of `request` once its rendering has ended with `outcome`.
pub fn finish_job(request: &DocumentRequest, outcome: JobOutcome, elapsed_ms: u64, now: i64) -> (end:
    JobEnd)
    ensures
        job_completion(end, *request, outcome, elapsed_ms, now),
{
    let mut actions: Vec<WorkerAction> = Vec::new();
    match outcome {
        JobOutcome::Stored { key, url } => {
            actions.push(
                WorkerAction::WriteStatus(
                    StatusRecord::completed(request, url, key, elapsed_ms, now),
                ),
            );
            actions.push(WorkerAction::RecordUsage(UsageUpdate::new(request, true, elapsed_ms)));
            actions.push(WorkerAction::Commit);
            if let Some(target) = &request.callback_url {
                actions.push(
                    WorkerAction::Notify(
                        Callback { url: target.clone(), document_id: request.id },
                    ),
                );
            }
            JobEnd { state: JobState::CommittedSuccess, actions }
        },
        JobOutcome::Failed(message) => {
            actions.push(WorkerAction::WriteStatus(StatusRecord::failed(request, message, now)));
            actions.push(WorkerAction::RecordUsage(UsageUpdate::new(request, false, elapsed_ms)));
            actions.push(WorkerAction::Commit);
            JobEnd { state: JobState::CommittedFailure, actions }
        },
    }
}

/// What the worker's caller does after an action.
#[derive(Debug, Clone, Copy, PartialEq, Eq, Structural)]
pub enum ActionStep {
    /// Go on with the next action.
    Continue,
    /// Stop with an error and leave the remaining actions undone. A job
    /// whose offset was not committed is delivered again.
    Stop,
}

/// What follows an action that succeeded or failed: after a failure the
/// remaining actions are left undone, so that no offset is committed before
/// the terminal record is written and the job is counted. Only a
/// notification may fail without consequence.
pub open spec fn step_after(action: WorkerAction, succeeded: bool) -> ActionStep {
    if succeeded || action is Notify {
        ActionStep::Continue
    } else {
        ActionStep::Stop
    }
}

/// Decides whether the caller goes on after `action`, given whether the
/// action succeeded.
pub fn after_action(action: &WorkerAction, succeeded: bool) -> (step: ActionStep)
    ensures
        step == step_after(*action, succeeded),
{
    if succeeded {
        ActionStep::Continue
    } else {
        match action {
            WorkerAction::Notify(_) => ActionStep::Continue,
            _ => ActionStep::Stop,
        }
    }
}

/// The actions among `actions` that are attempted when the action at each
/// place has the outcome at that place in `outcomes`: every action up to
/// the first after which the caller stops.
pub open spec fn attempted(actions: Seq<WorkerAction>, outcomes: Seq<bool>) -> Seq<WorkerAction>
    decreases actions.len(),
{
    if actions.len() == 0 || outcomes.len() == 0 {
        Seq::empty()
    } else if step_after(actions[0], outcomes[0]) is Continue {
        seq![actions[0]] + attempted(actions.drop_first(), outcomes.drop_first())
    } else {
        seq![actions[0]]
    }
}

/// The number of commits among `actions`.
pub open spec fn commit_count(actions: Seq<WorkerAction>) -> nat
    decreases actions.len(),
{
    if actions.len() == 0 {
        0
    } else {
        commit_count(actions.drop_last()) + if actions.last() is Commit {
            1nat
        } else {
            0nat
        }
    }
}

/// The status records after the writes among `actions` have been made, in
/// order.
pub open spec fn records_after(records: Map<u128, StatusRecord>, actions: Seq<WorkerAction>) -> Map<
    u128,
    StatusRecord,
>
    decreases actions.len(),
{
    if actions.len() == 0 {
        records
    } else {
        let before = records_after(records, actions.drop_last());
        match actions.last() {
            WorkerAction::WriteStatus(record) => before.insert(record.id, record),
            _ => before,
        }
    }
}

proof fn lemma_completion_unfolds(
    records: Map<u128, StatusRecord>,
    end: JobEnd,
    request: DocumentRequest,
    outcome: JobOutcome,
    elapsed_ms: u64,
    now: i64,
)
    requires
        job_completion(end, request, outcome, elapsed_ms, now),
    ensures
        commit_count(end.actions@) == 1,
        end.actions@[0] matches WorkerAction::WriteStatus(record) && records_after(
            records,
            end.actions@,
        ) == records.insert(request.id, record) && record.id == request.id
            && record.status.terminal(),
{
    let actions = end.actions@;
    let first = actions.subrange(0, 1);
    let second = actions.subrange(0, 2);
    let third = actions.subrange(0, 3);
    assert(first.drop_last() =~= Seq::<WorkerAction>::empty());
    assert(second.drop_last() =~= first);
    assert(third.drop_last() =~= second);
    assert(commit_count(first.drop_last()) == 0);
    assert(commit_count(first) == 0);
    assert(commit_count(second) == 0);
    assert(commit_count(third) == 1);
    assert(records_after(records, first.drop_last()) == records);
    let record = actions[0]->WriteStatus_0;
    assert(records_after(records, first) == records.insert(record.id, record));
    assert(records_after(records, second) == records.insert(record.id, record));
    assert(records_after(records, third) == records.insert(record.id, record));
    if actions.len() == 3 {
        assert(actions =~= third);
    } else {
        assert(actions.drop_last() =~= third);
    }
}

/// A job moves along its states only: a message taken from the queue is
/// either rendered or, where it cannot be decoded, committed at once, and a
/// job that was rendered ends committed. The records written for it follow
/// the lifecycle of a request: processing first, then a terminal status.
pub proof fn lemma_job_follows_lifecycle(
    start: JobStart,
    end: JobEnd,
    decoded: Option<DocumentRequest>,
    outcome: JobOutcome,
    elapsed_ms: u64,
    started_at: i64,
    ended_at: i64,
)
    requires
        job_start(start, decoded, started_at),
        decoded matches Some(request) ==> job_completion(
            end,
            request,
            outcome,
            elapsed_ms,
            ended_at,
        ),
    ensures
        match start {
            JobStart::Discard { state, .. } => JobState::Dequeued.precedes(state)
                && state.committed(),
            JobStart::Begin { state, record } => {
                &&& JobState::Dequeued.precedes(state)
                &&& state.precedes(end.state)
                &&& end.state.committed()
                &&& end.actions@[0] matches WorkerAction::WriteStatus(last)
                &&& DocumentStatus::Queued.precedes(record.status)
                &&& record.status.precedes(last.status)
                &&& last.status.terminal()
            },
        },
{
}

/// A job that ends commits its offset exactly once, and not before its
/// terminal record has been written: the write comes first among the
/// actions, the commit after it.
pub proof fn lemma_job_commits_once(
    end: JobEnd,
    request: DocumentRequest,
    outcome: JobOutcome,
    elapsed_ms: u64,
    now: i64,
)
    requires
        job_completion(end, request, outcome, elapsed_ms, now),
    ensures
        commit_count(end.actions@) == 1,
        end.state.committed(),
        end.actions@[0] is WriteStatus,
        end.actions@[2] is Commit,
{
    lemma_completion_unfolds(Map::empty(), end, request, outcome, elapsed_ms, now);
}

/// The offset of a job is committed only after its terminal record has been
/// written and the job has been counted. If the write of the terminal
/// record fails, nothing else is attempted: no offset is committed, and the
/// job will be delivered again. If the count fails, the record stands and
/// no offset is committed either. If both succeed, the commit is attempted,
/// and every action is, whatever becomes of the notification.
pub proof fn lemma_commit_follows_the_record(
    end: JobEnd,
    request: DocumentRequest,
    outcome: JobOutcome,
    elapsed_ms: u64,
    now: i64,
    outcomes: Seq<bool>,
)
    requires
        job_completion(end, request, outcome, elapsed_ms, now),
        outcomes.len() == end.actions@.len(),
    ensures
        !outcomes[0] ==> attempted(end.actions@, outcomes) == seq![end.actions@[0]]
            && commit_count(attempted(end.actions@, outcomes)) == 0,
        outcomes[0] && !outcomes[1] ==> attempted(end.actions@, outcomes) == seq![
            end.actions@[0],
            end.actions@[1],
        ] && commit_count(attempted(end.actions@, outcomes)) == 0,
        outcomes[0] && outcomes[1] ==> commit_count(attempted(end.actions@, outcomes)) == 1,
        outcomes[0] && outcomes[1] && outcomes[2] ==> attempted(end.actions@, outcomes)
            == end.actions@,
{
    let actions = end.actions@;
    let a1 = actions.drop_first();
    let o1 = outcomes.drop_first();
    let a2 = a1.drop_first();
    let o2 = o1.drop_first();
    let a3 = a2.drop_first();
    let o3 = o2.drop_first();
    assert(a1[0] == actions[1] && a2[0] == actions[2]);
    assert(o1[0] == outcomes[1] && o2[0] == outcomes[2]);
    if actions.len() == 3 {
        assert(a3.len() == 0);
        assert(attempted(a3, o3) == Seq::<WorkerAction>::empty());
    } else {
        assert(a3[0] == actions[3]);
        assert(a3[0] is Notify);
        assert(a3.drop_first().len() == 0);
        assert(attempted(a3.drop_first(), o3.drop_first()) == Seq::<WorkerAction>::empty());
        assert(attempted(a3, o3) =~= seq![actions[3]]);
    }
    let from_commit = attempted(a2, o2);
    if outcomes[2] {
        assert(from_commit =~= seq![actions[2]] + attempted(a3, o3));
    } else {
        assert(from_commit =~= seq![actions[2]]);
    }
    let from_count = attempted(a1, o1);
    if outcomes[1] {
        assert(from_count =~= seq![actions[1]] + from_commit);
    } else {
        assert(from_count =~= seq![actions[1]]);
    }
    let all = attempted(actions, outcomes);
    if outcomes[0] {
        assert(all =~= seq![actions[0]] + from_count);
    } else {
        assert(all =~= seq![actions[0]]);
    }
    lemma_commit_count_of_prefix(actions, all);
}

proof fn lemma_commit_count_of_prefix(actions: Seq<WorkerAction>, taken: Seq<WorkerAction>)
    requires
        3 <= actions.len() <= 4,
        actions[0] is WriteStatus,
        actions[1] is RecordUsage,
        actions[2] is Commit,
        actions.len() == 4 ==> actions[3] is Notify,
        1 <= taken.len() <= actions.len(),
        forall|i: int| 0 <= i < taken.len() ==> taken[i] == actions[i],
    ensures
        commit_count(taken) == if taken.len() >= 3 {
            1nat
        } else {
            0nat
        },
{
    let one = taken.subrange(0, 1);
    assert(one.drop_last() =~= Seq::<WorkerAction>::empty());
    assert(commit_count(one.drop_last()) == 0);
    assert(commit_count(one) == 0);
    if taken.len() == 1 {
        assert(taken =~= one);
    } else {
        let two = taken.subrange(0, 2);
        assert(two.drop_last() =~= one);
        assert(commit_count(two) == 0);
        if taken.len() == 2 {
            assert(taken =~= two);
        } else {
            let three = taken.subrange(0, 3);
            assert(three.drop_last() =~= two);
            assert(commit_count(three) == 1);
            if taken.len() == 3 {
                assert(taken =~= three);
            } else {
                assert(taken.drop_last() =~= three);
            }
        }
    }
}

/// A message that cannot be decoded is committed exactly once and leaves no
/// record.
pub proof fn lemma_poison_is_dropped(start: JobStart, records: Map<u128, StatusRecord>, now: i64)
    requires
        job_start(start, None, now),
    ensures
        start matches JobStart::Discard { state, actions } && commit_count(actions@) == 1
            && records_after(records, actions@) == records && state.committed(),
{
    let actions = start->Discard_actions@;
    assert(actions.drop_last() =~= Seq::<WorkerAction>::empty());
    assert(commit_count(actions.drop_last()) == 0);
    assert(records_after(records, actions.drop_last()) == records);
}

/// Delivering a job twice is harmless. Whatever the two deliveries of one
/// request end with, both store the artifact under the same key in the same
/// bucket, and after both the store holds for the request the record of the
/// later delivery alone, a terminal one, with every other record untouched:
/// the store is as if only the later delivery had happened.
pub proof fn lemma_redelivery_converges(
    records: Map<u128, StatusRecord>,
    request: DocumentRequest,
    bucket: Seq<char>,
    first_plan: Result<GenerationPlan, String>,
    second_plan: Result<GenerationPlan, String>,
    first_end: JobEnd,
    first_outcome: JobOutcome,
    first_elapsed_ms: u64,
    first_now: i64,
    second_end: JobEnd,
    second_outcome: JobOutcome,
    second_elapsed_ms: u64,
    second_now: i64,
)
    requires
        generation_plan(first_plan, request, bucket),
        generation_plan(second_plan, request, bucket),
        job_completion(first_end, request, first_outcome, first_elapsed_ms, first_now),
        job_completion(second_end, request, second_outcome, second_elapsed_ms, second_now),
    ensures
        first_plan is Ok <==> second_plan is Ok,
        first_plan is Ok ==> first_plan->Ok_0.key@ == second_plan->Ok_0.key@
            && first_plan->Ok_0.bucket@ == second_plan->Ok_0.bucket@,
        records_after(records_after(records, first_end.actions@), second_end.actions@)
            == records_after(records, second_end.actions@),
        records_after(records_after(records, first_end.actions@), second_end.actions@).dom()
            == records.dom().insert(request.id),
        records_after(records_after(records, first_end.actions@), second_end.actions@)[request.id].status.terminal(),
        commit_count(first_end.actions@) == 1,
        commit_count(second_end.actions@) == 1,
{
    lemma_completion_unfolds(
        records,
        first_end,
        request,
        first_outcome,
        first_elapsed_ms,
        first_now,
    );
    let middle = records_after(records, first_end.actions@);
    lemma_completion_unfolds(
        middle,
        second_end,
        request,
        second_outcome,
        second_elapsed_ms,
        second_now,
    );
    lemma_completion_unfolds(
        records,
        second_end,
        request,
        second_outcome,
        second_elapsed_ms,
        second_now,
    );
    let first_record = first_end.actions@[0]->WriteStatus_0;
    let second_record = second_end.actions@[0]->WriteStatus_0;
    assert(records.insert(request.id, first_record).insert(request.id, second_record)
        =~= records.insert(request.id, second_record));
    assert(records.insert(request.id, second_record).dom() =~= records.dom().insert(request.id));
}

} // verus!
