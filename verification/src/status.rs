//! The document status store: one record for each request, found by the
//! request's identifier and shown only to the tenant that owns it.

use vstd::prelude::*;
use std::collections::HashMap;
use crate::models::document::{DocumentRequest, DocumentResponse, DocumentStatus};
use crate::text::copy_optional_text;

verus! {

broadcast use vstd::std_specs::hash::group_hash_axioms;

/// What is known of one request. Times are in milliseconds since the Unix
/// epoch.
#[derive(Debug)]
pub struct StatusRecord {
    pub id: u128,
    pub tenant_id: i64,
    pub status: DocumentStatus,
    pub url: Option<String>,
    /// The key under which the artifact is stored, once there is one.
    pub key: Option<String>,
    pub error: Option<String>,
    pub processing_time_ms: u64,
    pub created_at: i64,
    pub updated_at: i64,
    pub expires_at: Option<i64>,
}

/// The time at which a result made at `now` and kept for `ttl_seconds` is
/// due to expire, held within the range of the clock.
pub open spec fn expiry_at(now: i64, ttl_seconds: Option<i64>) -> Option<i64> {
    match ttl_seconds {
        None => None,
        Some(ttl) => {
            let due = now + ttl * 1000;
            if due > i64::MAX {
                Some(i64::MAX)
            } else if due < i64::MIN {
                Some(i64::MIN)
            } else {
                Some(due as i64)
            }
        },
    }
}

/// The time at which a result made at `now` expires, if it does.
pub fn expiry_of(now: i64, ttl_seconds: Option<i64>) -> (expires_at: Option<i64>)
    ensures
        expires_at == expiry_at(now, ttl_seconds),
{
    match ttl_seconds {
        None => None,
        Some(ttl) => {
            let due: i128 = (now as i128) + (ttl as i128) * 1000;
            if due > i64::MAX as i128 {
                Some(i64::MAX)
            } else if due < i64::MIN as i128 {
                Some(i64::MIN)
            } else {
                Some(due as i64)
            }
        },
    }
}

impl StatusRecord {
    /// Whether this is the record that admission writes for `request` at
    /// `now`: queued, with neither artifact nor error.
    pub open spec fn is_queued_for(self, request: DocumentRequest, now: i64) -> bool {
        &&& self.id == request.id
        &&& self.tenant_id == request.metadata.tenant_id
        &&& self.status == DocumentStatus::Queued
        &&& self.url is None
        &&& self.key is None
        &&& self.error is None
        &&& self.processing_time_ms == 0
        &&& self.created_at == now
        &&& self.updated_at == now
        &&& self.expires_at == expiry_at(now, request.metadata.ttl_seconds)
    }

    /// Whether this is the record of `request` while it is rendered.
    pub open spec fn is_processing_for(self, request: DocumentRequest, now: i64) -> bool {
        &&& self.id == request.id
        &&& self.tenant_id == request.metadata.tenant_id
        &&& self.status == DocumentStatus::Processing
        &&& self.url is None
        &&& self.key is None
        &&& self.error is None
        &&& self.processing_time_ms == 0
        &&& self.created_at == now
        &&& self.updated_at == now
        &&& self.expires_at == expiry_at(now, request.metadata.ttl_seconds)
    }

    /// Whether this is the record of `request` once its artifact is stored
    /// under `key` and found at `url`, after `elapsed_ms` of work.
    pub open spec fn is_completed_for(
        self,
        request: DocumentRequest,
        url: Seq<char>,
        key: Seq<char>,
        elapsed_ms: u64,
        now: i64,
    ) -> bool {
        &&& self.id == request.id
        &&& self.tenant_id == request.metadata.tenant_id
        &&& self.status == DocumentStatus::Completed
        &&& self.url is Some
        &&& self.url->0@ == url
        &&& self.key is Some
        &&& self.key->0@ == key
        &&& self.error is None
        &&& self.processing_time_ms == elapsed_ms
        &&& self.created_at == now
        &&& self.updated_at == now
        &&& self.expires_at == expiry_at(now, request.metadata.ttl_seconds)
    }

    /// Whether this is the record of `request` once it has failed with the
    /// message `error`.
    pub open spec fn is_failed_for(self, request: DocumentRequest, error: Seq<char>, now: i64)
        -> bool {
        &&& self.id == request.id
        &&& self.tenant_id == request.metadata.tenant_id
        &&& self.status == DocumentStatus::Failed
        &&& self.url is None
        &&& self.key is None
        &&& self.error is Some
        &&& self.error->0@ == error
        &&& self.processing_time_ms == 0
        &&& self.created_at == now
        &&& self.updated_at == now
        &&& self.expires_at == expiry_at(now, request.metadata.ttl_seconds)
    }

    /// The record of a request that has been admitted to the queue.
    pub fn queued(request: &DocumentRequest, now: i64) -> (record: StatusRecord)
        ensures
            record.is_queued_for(*request, now),
    {
        StatusRecord {
            id: request.id,
            tenant_id: request.metadata.tenant_id,
            status: DocumentStatus::Queued,
            url: None,
            key: None,
            error: None,
            processing_time_ms: 0,
            created_at: now,
            updated_at: now,
            expires_at: expiry_of(now, request.metadata.ttl_seconds),
        }
    }

    /// The record of a request that is being rendered.
    pub fn processing(request: &DocumentRequest, now: i64) -> (record: StatusRecord)
        ensures
            record.is_processing_for(*request, now),
    {
        StatusRecord {
            id: request.id,
            tenant_id: request.metadata.tenant_id,
            status: DocumentStatus::Processing,
            url: None,
            key: None,
            error: None,
            processing_time_ms: 0,
            created_at: now,
            updated_at: now,
            expires_at: expiry_of(now, request.metadata.ttl_seconds),
        }
    }

    /// The record of a request whose artifact is stored under `key` and
    /// found at `url`.
    pub fn completed(
        request: &DocumentRequest,
        url: String,
        key: String,
        elapsed_ms: u64,
        now: i64,
    ) -> (record: StatusRecord)
        ensures
            record.is_completed_for(*request, url@, key@, elapsed_ms, now),
    {
        StatusRecord {
            id: request.id,
            tenant_id: request.metadata.tenant_id,
            status: DocumentStatus::Completed,
            url: Some(url),
            key: Some(key),
            error: None,
            processing_time_ms: elapsed_ms,
            created_at: now,
            updated_at: now,
            expires_at: expiry_of(now, request.metadata.ttl_seconds),
        }
    }

    /// The record of a request that failed with the message `error`.
    pub fn failed(request: &DocumentRequest, error: String, now: i64) -> (record: StatusRecord)
        ensures
            record.is_failed_for(*request, error@, now),
    {
        StatusRecord {
            id: request.id,
            tenant_id: request.metadata.tenant_id,
            status: DocumentStatus::Failed,
            url: None,
            key: None,
            error: Some(error),
            processing_time_ms: 0,
            created_at: now,
            updated_at: now,
            expires_at: expiry_of(now, request.metadata.ttl_seconds),
        }
    }

    /// A copy of the record.
    pub fn duplicate(&self) -> (copy: StatusRecord)
        ensures
            copy == *self,
    {
        StatusRecord {
            id: self.id,
            tenant_id: self.tenant_id,
            status: self.status,
            url: copy_optional_text(&self.url),
            key: copy_optional_text(&self.key),
            error: copy_optional_text(&self.error),
            processing_time_ms: self.processing_time_ms,
            created_at: self.created_at,
            updated_at: self.updated_at,
            expires_at: self.expires_at,
        }
    }

    /// Whether `response` tells a client what the record holds.
    pub open spec fn is_shown_by(self, response: DocumentResponse) -> bool {
        &&& response.id == self.id
        &&& response.status == self.status
        &&& response.url == self.url
        &&& response.error == self.error
        &&& response.processing_time_ms == self.processing_time_ms
        &&& response.created_at == self.created_at
        &&& response.expires_at == self.expires_at
    }

    /// What a client is told of the record.
    pub fn to_response(&self) -> (response: DocumentResponse)
        ensures
            self.is_shown_by(response),
    {
        DocumentResponse {
            id: self.id,
            status: self.status,
            url: copy_optional_text(&self.url),
            error: copy_optional_text(&self.error),
            processing_time_ms: self.processing_time_ms,
            created_at: self.created_at,
            expires_at: self.expires_at,
        }
    }
}

/// The record that a tenant sees under `id` in `records`: the one stored
/// there, if it belongs to that tenant.
pub open spec fn visible_record(records: Map<u128, StatusRecord>, id: u128, tenant_id: i64)
    -> Option<StatusRecord> {
    if records.contains_key(id) && records[id].tenant_id == tenant_id {
        Some(records[id])
    } else {
        None
    }
}

/// The status records of all requests, in memory.
pub struct StatusStore {
    records: HashMap<u128, StatusRecord>,
}

impl View for StatusStore {
    type V = Map<u128, StatusRecord>;

    closed spec fn view(&self) -> Map<u128, StatusRecord> {
        self.records@
    }
}

impl StatusStore {
    /// A store without records.
    pub fn new() -> (store: StatusStore)
        ensures
            store@ == Map::<u128, StatusRecord>::empty(),
    {
        StatusStore { records: HashMap::new() }
    }

    /// Writes `record` under its identifier. A record already there is
    /// replaced as a whole: the last writer wins.
    pub fn upsert(&mut self, record: StatusRecord)
        ensures
            final(self)@ == old(self)@.insert(record.id, record),
    {
        self.records.insert(record.id, record);
    }

    /// The record of request `id`, if there is one and `tenant_id` owns it.
    pub fn get(&self, id: u128, tenant_id: i64) -> (found: Option<StatusRecord>)
        ensures
            found == visible_record(self@, id, tenant_id),
    {
        match self.records.get(&id) {
            Some(record) => {
                if record.tenant_id == tenant_id {
                    Some(record.duplicate())
                } else {
                    None
                }
            },
            None => None,
        }
    }

    /// The number of records.
    pub fn len(&self) -> (count: usize)
        ensures
            count == self@.len(),
    {
        self.records.len()
    }
}

/// Writing the same record twice leaves the store as writing it once does.
pub proof fn lemma_upsert_idempotent(records: Map<u128, StatusRecord>, record: StatusRecord)
    ensures
        records.insert(record.id, record).insert(record.id, record) == records.insert(
            record.id,
            record,
        ),
{
    assert(records.insert(record.id, record).insert(record.id, record) =~= records.insert(
        record.id,
        record,
    ));
}

/// Of two writes for one request the later one is what the store holds, and
/// the records of other requests are as they were.
pub proof fn lemma_last_writer_wins(
    records: Map<u128, StatusRecord>,
    first: StatusRecord,
    second: StatusRecord,
    other: u128,
)
    requires
        first.id == second.id,
    ensures
        records.insert(first.id, first).insert(second.id, second) == records.insert(
            second.id,
            second,
        ),
        other != first.id ==> records.insert(first.id, first).insert(
            second.id,
            second,
        ).contains_key(other) == records.contains_key(other),
        other != first.id && records.contains_key(other) ==> records.insert(first.id, first).insert(
            second.id,
            second,
        )[other] == records[other],
{
    assert(records.insert(first.id, first).insert(second.id, second) =~= records.insert(
        second.id,
        second,
    ));
}

/// A record is shown to the tenant that owns it and to no other.
pub proof fn lemma_tenant_isolation(
    records: Map<u128, StatusRecord>,
    record: StatusRecord,
    tenant_id: i64,
)
    ensures
        visible_record(records.insert(record.id, record), record.id, tenant_id) == if tenant_id
            == record.tenant_id {
            Some(record)
        } else {
            None::<StatusRecord>
        },
{
}

} // verus!
