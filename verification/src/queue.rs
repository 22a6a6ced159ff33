//! The job queue between the router and the workers: two lanes, and the
//! envelope in which a request travels.

use vstd::prelude::*;
use crate::api::state::AppConfig;
use crate::models::common::Priority;
use crate::models::document::DocumentRequest;
use crate::storage::{format_uuid, uuid_text};

verus! {

/// One of the two priority classes of the queue.
#[derive(Debug, Clone, Copy, PartialEq, Eq, Structural)]
pub enum Lane {
    Priority,
    Bulk,
}

/// The lane of a request: urgent requests take the priority lane, all others
/// the bulk lane.
pub open spec fn lane_of(priority: Priority) -> Lane {
    match priority {
        Priority::High => Lane::Priority,
        _ => Lane::Bulk,
    }
}

/// The lane on which a request of the given priority travels.
pub fn select_lane(priority: Priority) -> (lane: Lane)
    ensures
        lane == lane_of(priority),
{
    match priority {
        Priority::High => Lane::Priority,
        _ => Lane::Bulk,
    }
}

/// The topic that carries a lane.
pub fn topic_for(lane: Lane, config: &AppConfig) -> (topic: String)
    ensures
        topic == match lane {
            Lane::Priority => config.kafka_topic_priority,
            Lane::Bulk => config.kafka_topic_bulk,
        },
{
    match lane {
        Lane::Priority => config.kafka_topic_priority.clone(),
        Lane::Bulk => config.kafka_topic_bulk.clone(),
    }
}

/// What the queue answered to a publish.
#[derive(Debug)]
pub enum PublishOutcome {
    /// The broker has acknowledged the message.
    Acknowledged,
    /// No acknowledgment came within the time allowed.
    TimedOut,
    /// The broker refused the message, with its reason.
    Failed(String),
}

/// A request as it is placed on the queue.
#[derive(Debug)]
pub struct JobEnvelope {
    /// The ordering key: the text of the request's identifier, so that a
    /// request always lands in the same partition.
    pub key: String,
    pub lane: Lane,
    pub request: DocumentRequest,
}

impl JobEnvelope {
    /// Whether this is the envelope of `request`.
    pub open spec fn carries(self, request: DocumentRequest) -> bool {
        &&& self.key@ == uuid_text(request.id)
        &&& self.lane == lane_of(request.priority)
        &&& self.request == request
    }

    /// The envelope in which `request` travels.
    pub fn new(request: DocumentRequest) -> (envelope: JobEnvelope)
        ensures
            envelope.carries(request),
    {
        JobEnvelope {
            key: format_uuid(request.id),
            lane: select_lane(request.priority),
            request,
        }
    }
}

} // verus!
