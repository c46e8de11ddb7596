//! The desired-state resource model: the record specification a user
//! authors, the controller-owned status, and the indirect references a spec
//! may hold (zone by name or id, value from a config or secret object,
//! content from a service).

use vstd::prelude::*;
use crate::records::RecordType;

verus! {

/// Identity of an orchestrator object, as the orchestrator reports it.
#[derive(Debug, Clone)]
pub struct Metadata {
    pub name: Option<String>,
    pub namespace: Option<String>,
    pub generation: Option<i64>,
}

/// A key into a named config or secret object.
#[derive(Debug, Clone)]
pub struct KeySelector {
    /// Name of the config or secret object.
    pub name: String,
    /// Key to read out of the object's data map.
    pub key: String,
}

/// An indirect reference: read a named key out of a config object or out of
/// a secret object.
#[derive(Debug, Clone)]
pub enum Reference {
    ConfigMap(KeySelector),
    Secret(KeySelector),
}

/// A value given literally, or to be read through a [`Reference`].
#[derive(Debug, Clone)]
pub enum ValueOrReference {
    Value(String),
    Reference(Reference),
}

/// A zone given by display name or by provider id; either way the inner
/// value may itself be indirect.
#[derive(Debug, Clone)]
pub enum ZoneNameOrId {
    Name(ValueOrReference),
    Id(ValueOrReference),
}

/// Selects a network service by name, defaulting to the referent's
/// namespace.
#[derive(Debug, Clone)]
pub struct ServiceSelector {
    pub name: String,
    pub namespace: Option<String>,
}

/// Desired record content: a literal value, or the public address of a
/// network service.
#[derive(Debug, Clone)]
pub enum StringOrService {
    Value(String),
    Service(ServiceSelector),
}

/// The user-authored specification of one DNS record to maintain.
#[derive(Debug, Clone)]
pub struct CloudflareDNSRecordSpec {
    /// The DNS name of the record (e.g. example.com).
    pub name: String,
    /// The record type; `None` defaults to A.
    pub ty: Option<RecordType>,
    /// Where the record content comes from.
    pub content: StringOrService,
    /// TTL in seconds.
    pub ttl: Option<i64>,
    /// Whether the provider proxies the record.
    pub proxied: Option<bool>,
    /// Arbitrary comment.
    pub comment: Option<String>,
    /// Tags to apply to the record.
    pub tags: Option<Vec<String>>,
    /// The zone to create the record in.
    pub zone: ZoneNameOrId,
}

/// A Ready status condition.  `status` holds "True" or "False";
/// `last_transition_time` is milliseconds since the Unix epoch and only
/// advances when the boolean value of `status` flips.
#[derive(Debug, Clone)]
pub struct Condition {
    pub type_: String,
    pub status: String,
    pub reason: String,
    pub message: String,
    pub last_transition_time: i64,
    pub observed_generation: Option<i64>,
}

/// Controller-owned status of a record resource.  Once `record_id` and
/// `zone_id` are recorded, cleanup must use exactly them.
#[derive(Debug, Clone)]
pub struct CloudflareDNSRecordStatus {
    /// The provider-assigned id of the record.
    pub record_id: String,
    /// The provider zone the record lives in.
    pub zone_id: String,
    /// True until DNS propagation confirms the content resolves.
    pub pending: bool,
    /// Status conditions.
    pub conditions: Option<Vec<Condition>>,
}

/// One desired-record resource as delivered by the orchestrator.
#[derive(Debug, Clone)]
pub struct CloudflareDNSRecord {
    pub metadata: Metadata,
    pub spec: CloudflareDNSRecordSpec,
    pub status: Option<CloudflareDNSRecordStatus>,
}

impl CloudflareDNSRecord {
    /// The namespace to operate in: the resource's own, or "default".
    pub fn namespace_or_default(&self) -> (r: String)
        ensures
            r@ == self.spec_namespace(),
    {
        match &self.metadata.namespace {
            Some(ns) => ns.clone(),
            None => {
                proof {
                    reveal_strlit("default");
                }
                "default".to_owned()
            },
        }
    }

    pub open spec fn spec_namespace(&self) -> Seq<char> {
        match self.metadata.namespace {
            Some(ns) => ns@,
            None => "default"@,
        }
    }
}

} // verus!
