//! Document requests, their lifecycle and the responses sent for them.

use vstd::prelude::*;
use crate::models::common::{OutputFormat, Priority};
use crate::text::{push_text, same_text};

verus! {

/// The kind of document that a request asks for.
#[derive(Debug, Clone)]
pub enum DocumentType {
    Invoice,
    Report,
    Certificate,
    Statement,
    Receipt,
    Custom(String),
}

/// Where a request stands in its lifecycle.
#[derive(Debug, Clone, Copy, PartialEq, Eq, Structural)]
pub enum DocumentStatus {
    Queued,
    Processing,
    Completed,
    Failed,
    Cancelled,
}

/// The lower-case form of a text, as `str::to_lowercase` of the standard
/// library gives it.
pub uninterp spec fn lowercase_text(s: Seq<char>) -> Seq<char>;

/// `str::to_lowercase` of the standard library: the result is the lower-case
/// form of the argument, a function of its characters alone.
#[verifier::external_body]
fn to_lowercase(s: &str) -> (lower: String)
    ensures
        lower@ == lowercase_text(s@),
{
    s.to_lowercase()
}

/// The status that a lower-case name stands for, if any.
pub open spec fn status_of_label(label: Seq<char>) -> Option<DocumentStatus> {
    if label == "queued"@ {
        Some(DocumentStatus::Queued)
    } else if label == "processing"@ {
        Some(DocumentStatus::Processing)
    } else if label == "completed"@ {
        Some(DocumentStatus::Completed)
    } else if label == "failed"@ {
        Some(DocumentStatus::Failed)
    } else if label == "cancelled"@ {
        Some(DocumentStatus::Cancelled)
    } else {
        None
    }
}

/// The status that `label` names. The name is matched as it stands, in lower
/// case.
pub fn parse_status_label(label: &str) -> (status: Option<DocumentStatus>)
    ensures
        status == status_of_label(label@),
{
    if same_text(label, "queued") {
        Some(DocumentStatus::Queued)
    } else if same_text(label, "processing") {
        Some(DocumentStatus::Processing)
    } else if same_text(label, "completed") {
        Some(DocumentStatus::Completed)
    } else if same_text(label, "failed") {
        Some(DocumentStatus::Failed)
    } else if same_text(label, "cancelled") {
        Some(DocumentStatus::Cancelled)
    } else {
        None
    }
}

impl DocumentStatus {
    /// The name of the status in lower case.
    pub open spec fn label(self) -> Seq<char> {
        match self {
            DocumentStatus::Queued => "queued"@,
            DocumentStatus::Processing => "processing"@,
            DocumentStatus::Completed => "completed"@,
            DocumentStatus::Failed => "failed"@,
            DocumentStatus::Cancelled => "cancelled"@,
        }
    }

    /// A status from which no further transition occurs.
    pub open spec fn terminal(self) -> bool {
        self == DocumentStatus::Completed || self == DocumentStatus::Failed || self
            == DocumentStatus::Cancelled
    }

    /// Whether a request in this status may move to `next`: a queued request
    /// starts processing, and processing ends completed, failed or cancelled.
    pub open spec fn precedes(self, next: DocumentStatus) -> bool {
        match self {
            DocumentStatus::Queued => next == DocumentStatus::Processing,
            DocumentStatus::Processing => next.terminal(),
            _ => false,
        }
    }

    /// The name of the status in lower case, as it is stored and shown.
    pub fn to_text(&self) -> (text: String)
        ensures
            text@ == self.label(),
    {
        match self {
            DocumentStatus::Queued => "queued".to_owned(),
            DocumentStatus::Processing => "processing".to_owned(),
            DocumentStatus::Completed => "completed".to_owned(),
            DocumentStatus::Failed => "failed".to_owned(),
            DocumentStatus::Cancelled => "cancelled".to_owned(),
        }
    }

    /// Whether the status is terminal.
    pub fn is_terminal(&self) -> (terminal: bool)
        ensures
            terminal == self.terminal(),
    {
        match self {
            DocumentStatus::Completed => true,
            DocumentStatus::Failed => true,
            DocumentStatus::Cancelled => true,
            _ => false,
        }
    }

    /// Whether the lifecycle allows the step from this status to `next`.
    pub fn can_become(&self, next: DocumentStatus) -> (allowed: bool)
        ensures
            allowed == self.precedes(next),
    {
        match self {
            DocumentStatus::Queued => next == DocumentStatus::Processing,
            DocumentStatus::Processing => next.is_terminal(),
            _ => false,
        }
    }

    /// Reads a status from its name, whatever the case of its letters. An
    /// unknown name is returned in the error message.
    pub fn from_str(s: &str) -> (parsed: Result<DocumentStatus, String>)
        ensures
            match status_of_label(lowercase_text(s@)) {
                Some(status) => parsed == Ok::<DocumentStatus, String>(status),
                None => parsed is Err && parsed->Err_0@ == "Unknown status: "@ + s@,
            },
    {
        let lower = to_lowercase(s);
        match parse_status_label(lower.as_str()) {
            Some(status) => Ok(status),
            None => {
                let mut message = String::new();
                push_text(&mut message, "Unknown status: ");
                push_text(&mut message, s);
                assert(message@ =~= "Unknown status: "@ + s@);
                Err(message)
            },
        }
    }
}

/// A terminal status has no successor, and every step of the lifecycle leaves
/// a status that is not terminal.
pub proof fn lemma_terminal_is_final(from: DocumentStatus, to: DocumentStatus)
    ensures
        from.terminal() ==> !from.precedes(to),
        from.precedes(to) ==> !from.terminal(),
{
}

/// The name of a status reads back as that status.
pub proof fn lemma_label_round_trip(status: DocumentStatus)
    ensures
        status_of_label(status.label()) == Some(status),
{
    reveal_strlit("queued");
    reveal_strlit("processing");
    reveal_strlit("completed");
    reveal_strlit("failed");
    reveal_strlit("cancelled");
    match status {
        DocumentStatus::Queued => {},
        DocumentStatus::Processing => {
            assert("processing"@.len() != "queued"@.len());
        },
        DocumentStatus::Completed => {
            assert("completed"@.len() != "queued"@.len());
            assert("completed"@.len() != "processing"@.len());
        },
        DocumentStatus::Failed => {
            assert("failed"@[0] != "queued"@[0]);
            assert("failed"@.len() != "processing"@.len());
            assert("failed"@.len() != "completed"@.len());
        },
        DocumentStatus::Cancelled => {
            assert("cancelled"@.len() != "queued"@.len());
            assert("cancelled"@.len() != "processing"@.len());
            assert("cancelled"@[1] != "completed"@[1]);
            assert("cancelled"@.len() != "failed"@.len());
        },
    }
}

/// Who sent a request, when, and how long its result is kept.
#[derive(Debug, Clone)]
pub struct DocumentMetadata {
    pub tenant_id: i64,
    pub user_id: i64,
    pub organization_id: Option<String>,
    /// When the request was made, in milliseconds since the Unix epoch.
    pub request_time: i64,
    pub ttl_seconds: Option<i64>,
    pub tags: Option<Vec<(String, String)>>,
}

/// The time for which a result is kept when the request names none: one day.
pub const DEFAULT_TTL_SECONDS: i64 = 86400;

impl DocumentMetadata {
    /// The metadata of a request made at `request_time` by nobody in
    /// particular: tenant and user 0, no organization, no tags, kept for a
    /// day.
    pub fn at(request_time: i64) -> (metadata: DocumentMetadata)
        ensures
            metadata.tenant_id == 0,
            metadata.user_id == 0,
            metadata.organization_id is None,
            metadata.request_time == request_time,
            metadata.ttl_seconds == Some(DEFAULT_TTL_SECONDS),
            metadata.tags is None,
    {
        DocumentMetadata {
            tenant_id: 0,
            user_id: 0,
            organization_id: None,
            request_time,
            ttl_seconds: Some(DEFAULT_TTL_SECONDS),
            tags: None,
        }
    }
}

/// A request for one document. The identifier is the number of a UUID, the
/// payload is JSON text.
#[derive(Debug, Clone)]
pub struct DocumentRequest {
    pub id: u128,
    pub template_id: String,
    pub document_type: DocumentType,
    pub data: String,
    pub priority: Priority,
    pub format: OutputFormat,
    pub callback_url: Option<String>,
    pub metadata: DocumentMetadata,
}

/// What a client is told about a request: its status, and the artifact or the
/// error once there is one. Times are in milliseconds since the Unix epoch.
#[derive(Debug, Clone)]
pub struct DocumentResponse {
    pub id: u128,
    pub status: DocumentStatus,
    pub url: Option<String>,
    pub error: Option<String>,
    pub processing_time_ms: u64,
    pub created_at: i64,
    pub expires_at: Option<i64>,
}

} // verus!
