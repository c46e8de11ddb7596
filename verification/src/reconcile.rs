//! The finalizer-governed reconcile state machine.
//!
//! Apply runs as a state machine: the driver performs one outside action
//! at a time (a fetch, a deletion, the provider upsert, a status patch)
//! and feeds the outcome back as an event; every decision between two
//! actions is taken here.  Cleanup deletes the provider record using
//! exactly the identifiers persisted in status.  The error policy
//! downgrades conflict and not-found responses to warnings and retries
//! everything else on a short backoff.

use vstd::prelude::*;
use crate::conditions::{
    error_condition,
    spec_conditions_of,
    spec_last_ready,
    spec_was_ready,
    success_condition,
};
use crate::dns_check::{resource_key, spec_match_or_false, spec_resource_key, DnsMatchState};
use crate::records::{CreateRecordArgs, RecordType, Zone};
use crate::resources::{CloudflareDNSRecord, CloudflareDNSRecordStatus, Condition, ZoneNameOrId};

verus! {

broadcast use vstd::string::group_string_axioms;

use vstd::string::StringExecFns;

/// Delay before the automatic re-apply that follows a successful
/// reconcile, in seconds.
pub const REQUEUE_SECS: u64 = 300;

/// Backoff before retrying a failed reconcile, in seconds.
pub const ERROR_REQUEUE_SECS: u64 = 15;

/// What went wrong during a reconcile, as far as the error policy cares.
#[derive(Debug, Clone, PartialEq, Eq, Structural)]
pub enum ReconcileError {
    /// An orchestrator API call failed with this HTTP status.
    Kube { status: u16 },
    /// Deleting a stale object failed.
    Deletion,
    /// Any other failure, a provider call included.
    Other,
}

/// What the error policy does with a failed reconcile.
#[derive(Debug, Clone, PartialEq, Eq, Structural)]
pub enum ErrorDisposition {
    /// A conflict (HTTP 409): warn and retry on the normal schedule.
    SwallowConflict,
    /// Not found (HTTP 404): warn, the target may already be gone.
    SwallowNotFound,
    /// A failed stale-object deletion: log and go on.
    SwallowDeletion,
    /// Anything else fails the reconcile and retries on the short backoff.
    Propagate,
}

/// Decide what to do with a reconcile failure: conflicts and not-found
/// responses from the orchestrator are downgraded to warnings and the
/// normal schedule retries them; a failed deletion is logged and
/// swallowed; everything else propagates.
pub fn classify_reconcile_error(e: &ReconcileError) -> (d: ErrorDisposition)
    ensures
        d == match *e {
            ReconcileError::Kube { status } => if status == 409 {
                ErrorDisposition::SwallowConflict
            } else if status == 404 {
                ErrorDisposition::SwallowNotFound
            } else {
                ErrorDisposition::Propagate
            },
            ReconcileError::Deletion => ErrorDisposition::SwallowDeletion,
            ReconcileError::Other => ErrorDisposition::Propagate,
        },
{
    match e {
        ReconcileError::Kube { status } => if *status == 409 {
            ErrorDisposition::SwallowConflict
        } else if *status == 404 {
            ErrorDisposition::SwallowNotFound
        } else {
            ErrorDisposition::Propagate
        },
        ReconcileError::Deletion => ErrorDisposition::SwallowDeletion,
        ReconcileError::Other => ErrorDisposition::Propagate,
    }
}

/// How long to wait before the next reconcile of the resource: the short
/// backoff after a propagated error, the normal re-apply delay otherwise.
pub fn requeue_delay_secs(propagated: bool) -> (r: u64)
    ensures
        r == if propagated {
            ERROR_REQUEUE_SECS
        } else {
            REQUEUE_SECS
        },
{
    if propagated {
        ERROR_REQUEUE_SECS
    } else {
        REQUEUE_SECS
    }
}

/// What cleanup must do before the finalizer comes off.
#[derive(Debug)]
pub enum CleanupAction {
    /// The resource never completed a first apply: nothing to delete.
    NothingToDo,
    /// Delete the provider record, using exactly the persisted
    /// identifiers; the source objects a zone was once resolved from may
    /// already be gone.
    DeleteRecord { zone_id: String, record_id: String },
}

/// Decide the cleanup step for a resource about to be deleted: the
/// persisted record and zone ids are used as recorded, never re-resolved.
/// A failure of the delete itself is logged and swallowed — the finalizer
/// comes off regardless.
pub fn cleanup_action(resource: &CloudflareDNSRecord) -> (a: CleanupAction)
    ensures
        match resource.status {
            Some(st) => a matches CleanupAction::DeleteRecord { zone_id, record_id }
                && zone_id@ == st.zone_id@ && record_id@ == st.record_id@,
            None => a matches CleanupAction::NothingToDo,
        },
{
    match &resource.status {
        Some(st) => CleanupAction::DeleteRecord {
            zone_id: st.zone_id.clone(),
            record_id: st.record_id.clone(),
        },
        None => CleanupAction::NothingToDo,
    }
}

/// The status value a condition-only patch writes: the recorded status
/// fields carried over unchanged (empty ids and a clear pending flag when
/// no status exists yet), with the condition list replaced.
pub fn status_with_conditions(
    status: &Option<CloudflareDNSRecordStatus>,
    conditions: Vec<Condition>,
) -> (r: CloudflareDNSRecordStatus)
    ensures
        match status {
            Some(st) => r.record_id@ == st.record_id@ && r.zone_id@ == st.zone_id@ && r.pending
                == st.pending,
            None => r.record_id@.len() == 0 && r.zone_id@.len() == 0 && r.pending == false,
        },
        r.conditions == Some(conditions),
{
    match status {
        Some(st) => CloudflareDNSRecordStatus {
            record_id: st.record_id.clone(),
            zone_id: st.zone_id.clone(),
            pending: st.pending,
            conditions: Some(conditions),
        },
        None => CloudflareDNSRecordStatus {
            record_id: String::new(),
            zone_id: String::new(),
            pending: false,
            conditions: Some(conditions),
        },
    }
}

/// The message written with the "missing content" error condition.
pub open spec fn spec_unresolved_content_message(ns: Seq<char>, name: Seq<char>) -> Seq<char> {
    "unable to resolve content for CloudflareDNSRecord "@ + ns + "/"@ + name
}

/// The message written with the "missing zone" error condition.
pub open spec fn spec_unresolved_zone_message(ns: Seq<char>, name: Seq<char>) -> Seq<char> {
    "unable to resolve zone for CloudflareDNSRecord "@ + ns + "/"@ + name
}

fn unresolved_content_message(ns: &String, name: &String) -> (r: String)
    ensures
        r@ == spec_unresolved_content_message(ns@, name@),
{
    let mut r: String = "unable to resolve content for CloudflareDNSRecord ".to_owned();
    r.append(ns.as_str());
    r.append("/");
    r.append(name.as_str());
    r
}

fn unresolved_zone_message(ns: &String, name: &String) -> (r: String)
    ensures
        r@ == spec_unresolved_zone_message(ns@, name@),
{
    let mut r: String = "unable to resolve zone for CloudflareDNSRecord ".to_owned();
    r.append(ns.as_str());
    r.append("/");
    r.append(name.as_str());
    r
}

/// Where the apply state machine stands: each awaiting phase names the
/// outside action whose outcome it waits for, and carries what later
/// phases need.
#[derive(Debug)]
pub enum ApplyPhase {
    /// Waiting for the lookup of the object already stored under the
    /// resource's orchestrator name.
    AwaitExisting,
    /// Waiting for the stale, differently-named object's deletion.
    AwaitStaleDeletion,
    /// Waiting for the desired content to be resolved.
    AwaitContent,
    /// Waiting for the zone reference's inner value.
    AwaitZoneValue { content: String },
    /// Waiting for the zone id looked up from the zone's display name.
    AwaitZoneId { content: String },
    /// Waiting for the provider upsert.
    AwaitUpsert { zone_id: String },
    /// Waiting for the status patches to land.
    AwaitStatusPatch,
    /// The apply finished.
    Done,
    /// The apply stopped early (an error condition was written, or the
    /// upsert failed); the normal schedule retries.
    Stopped,
}

/// The outcome of one outside action, fed back into the state machine.
#[derive(Debug)]
pub enum ApplyEvent {
    /// The object stored under the resource's name, if any: its declared
    /// DNS name.
    ExistingFetched { existing_spec_name: Option<String> },
    /// The stale object's deletion finished.
    StaleDeleted,
    /// Content resolution finished: the literal value, or the address
    /// selected from the referenced service.
    ContentResolved { content: Option<String> },
    /// The zone reference's inner value resolved (through a config or
    /// secret fetch where indirect).
    ZoneValueResolved { value: Option<String> },
    /// The zone id resolved against the provider's zone listing.
    ZoneIdResolved { zone_id: Option<String> },
    /// The provider upsert finished; the record's provider id.
    UpsertDone { record_id: String },
    /// The provider upsert failed; the driver propagates the error.
    UpsertFailed,
    /// The status patches landed.
    StatusPatched,
}

/// The next outside action the driver must perform.
#[derive(Debug)]
pub enum ApplyAction {
    /// Fetch the object stored under (namespace, name).
    FetchExisting { namespace: String, name: String },
    /// Delete and finalize the stale object stored under (namespace,
    /// name), so its provider record is cleaned up under its old name
    /// before the new record is created.
    DeleteStale { namespace: String, name: String },
    /// Resolve the spec's content: a literal directly, a referenced
    /// service through a fetch and the address selection policy.
    ResolveContent,
    /// Resolve the zone reference's inner value: a literal directly, an
    /// indirect reference through a config or secret fetch.
    ResolveZoneValue,
    /// Look the zone id up by display name through the cached zone
    /// listing.
    ResolveZoneId { name: String },
    /// Run the provider upsert with these arguments.
    Upsert { args: CreateRecordArgs },
    /// Write this error condition to status and stop; the normal schedule
    /// retries.
    FailWith { condition: Condition },
    /// Patch status (spec and status subresource) with this value and, if
    /// asked, enqueue an on-demand propagation check for the resource.
    PatchStatus { status: CloudflareDNSRecordStatus, enqueue_check: bool },
    /// Nothing left to do; requeue on the normal schedule.
    Finish,
    /// The event does not belong to the phase; the driver never produces
    /// such a pair.
    Ignore,
}

/// Whether the resource counts as pending: DNS checking is on and the
/// match-state map does not yet show a match for the resource's key.
pub open spec fn spec_pending(
    do_dns_check: bool,
    state: Seq<(String, bool)>,
    key: Seq<char>,
) -> bool {
    do_dns_check && !spec_match_or_false(state, key)
}

/// Start an apply cycle: the first action looks up the object already
/// stored under the resource's name, to detect a rename conflict.  A
/// resource without an orchestrator name cannot be applied.
pub fn apply_start(resource: &CloudflareDNSRecord) -> (r: Result<
    (ApplyPhase, ApplyAction),
    ReconcileError,
>)
    ensures
        match r {
            Ok(pa) => resource.metadata.name matches Some(n) && pa.0 matches
                ApplyPhase::AwaitExisting && pa.1 matches ApplyAction::FetchExisting {
                namespace,
                name,
            } && namespace@ == resource.spec_namespace() && name@ == n@,
            Err(e) => resource.metadata.name is None && e == ReconcileError::Other,
        },
{
    let name = match &resource.metadata.name {
        Some(n) => n.clone(),
        None => {
            return Err(ReconcileError::Other);
        },
    };
    let namespace = resource.namespace_or_default();
    Ok((ApplyPhase::AwaitExisting, ApplyAction::FetchExisting { namespace, name }))
}

/// The record type an apply works with: the spec's, defaulting to A.
pub open spec fn spec_effective_record_type(resource: CloudflareDNSRecord) -> RecordType {
    match resource.spec.ty {
        Some(t) => t,
        None => RecordType::A,
    }
}

/// The provider arguments an upsert for this resource must carry.
pub open spec fn spec_args_for(
    resource: CloudflareDNSRecord,
    zone_id: Seq<char>,
    content: Seq<char>,
    args: CreateRecordArgs,
) -> bool {
    &&& (args.zone matches Zone::Identifier(z) && z@ == zone_id)
    &&& args.name@ == resource.spec.name@
    &&& args.record_type == spec_effective_record_type(resource)
    &&& args.content@ == content
    &&& args.comment == resource.spec.comment
    &&& args.ttl == resource.spec.ttl
}

/// The shape of a NotReady condition written for this resource: reason and
/// message as given, and the transition time carried forward whenever the
/// recorded Ready condition already said NotReady.
pub open spec fn spec_error_cond_shape(
    c: Condition,
    resource: CloudflareDNSRecord,
    reason: Seq<char>,
    message: Seq<char>,
) -> bool {
    &&& c.type_@ == "Ready"@
    &&& c.status@ == "False"@
    &&& c.reason@ == reason
    &&& c.message@ == message
    &&& c.observed_generation == resource.metadata.generation
    &&& ((!spec_was_ready(spec_conditions_of(&resource)) && spec_last_ready(
        spec_conditions_of(&resource),
    ) is Some) ==> c.last_transition_time == spec_last_ready(
        spec_conditions_of(&resource),
    )->Some_0.last_transition_time)
}

/// The shape of a Ready condition written for this resource, with the
/// transition time carried forward whenever the recorded Ready condition
/// already said Ready.
pub open spec fn spec_success_cond_shape(c: Condition, resource: CloudflareDNSRecord) -> bool {
    &&& c.type_@ == "Ready"@
    &&& c.status@ == "True"@
    &&& c.observed_generation == resource.metadata.generation
    &&& ((spec_was_ready(spec_conditions_of(&resource)) && spec_last_ready(
        spec_conditions_of(&resource),
    ) is Some) ==> c.last_transition_time == spec_last_ready(
        spec_conditions_of(&resource),
    )->Some_0.last_transition_time)
}

/// The transition relation of the apply state machine: what phase follows
/// the given phase and event, and which action the driver must perform.
pub open spec fn spec_apply_transition(
    resource: CloudflareDNSRecord,
    do_dns_check: bool,
    state: Seq<(String, bool)>,
    phase: ApplyPhase,
    event: ApplyEvent,
    next: ApplyPhase,
    action: ApplyAction,
) -> bool {
    let ns = resource.spec_namespace();
    let name = resource.metadata.name->Some_0@;
    match (phase, event) {
        (ApplyPhase::AwaitExisting, ApplyEvent::ExistingFetched { existing_spec_name }) => {
            match existing_spec_name {
                Some(n) => if n@ != resource.spec.name@ {
                    &&& next matches ApplyPhase::AwaitStaleDeletion
                    &&& (action matches ApplyAction::DeleteStale { namespace, name: nm }
                        && namespace@ == ns && nm@ == name)
                } else {
                    &&& next matches ApplyPhase::AwaitContent
                    &&& action matches ApplyAction::ResolveContent
                },
                None => {
                    &&& next matches ApplyPhase::AwaitContent
                    &&& action matches ApplyAction::ResolveContent
                },
            }
        },
        (ApplyPhase::AwaitStaleDeletion, ApplyEvent::StaleDeleted) => {
            &&& next matches ApplyPhase::AwaitContent
            &&& action matches ApplyAction::ResolveContent
        },
        (ApplyPhase::AwaitContent, ApplyEvent::ContentResolved { content }) => {
            match content {
                Some(c) => {
                    &&& (next matches ApplyPhase::AwaitZoneValue { content: c2 } && c2@ == c@)
                    &&& action matches ApplyAction::ResolveZoneValue
                },
                None => {
                    &&& next matches ApplyPhase::Stopped
                    &&& (action matches ApplyAction::FailWith { condition }
                        && spec_error_cond_shape(
                        condition,
                        resource,
                        "missing content"@,
                        spec_unresolved_content_message(ns, name),
                    ))
                },
            }
        },
        (ApplyPhase::AwaitZoneValue { content }, ApplyEvent::ZoneValueResolved { value }) => {
            match value {
                Some(v) => match resource.spec.zone {
                    ZoneNameOrId::Id(_) => {
                        &&& (next matches ApplyPhase::AwaitUpsert { zone_id } && zone_id@ == v@)
                        &&& (action matches ApplyAction::Upsert { args } && spec_args_for(
                            resource,
                            v@,
                            content@,
                            args,
                        ))
                    },
                    ZoneNameOrId::Name(_) => {
                        &&& (next matches ApplyPhase::AwaitZoneId { content: c2 } && c2@
                            == content@)
                        &&& (action matches ApplyAction::ResolveZoneId { name: zn } && zn@ == v@)
                    },
                },
                None => {
                    &&& next matches ApplyPhase::Stopped
                    &&& (action matches ApplyAction::FailWith { condition }
                        && spec_error_cond_shape(
                        condition,
                        resource,
                        "missing zone"@,
                        spec_unresolved_zone_message(ns, name),
                    ))
                },
            }
        },
        (ApplyPhase::AwaitZoneId { content }, ApplyEvent::ZoneIdResolved { zone_id }) => {
            match zone_id {
                Some(id) => {
                    &&& (next matches ApplyPhase::AwaitUpsert { zone_id: z } && z@ == id@)
                    &&& (action matches ApplyAction::Upsert { args } && spec_args_for(
                        resource,
                        id@,
                        content@,
                        args,
                    ))
                },
                None => {
                    &&& next matches ApplyPhase::Stopped
                    &&& (action matches ApplyAction::FailWith { condition }
                        && spec_error_cond_shape(
                        condition,
                        resource,
                        "missing zone"@,
                        spec_unresolved_zone_message(ns, name),
                    ))
                },
            }
        },
        (ApplyPhase::AwaitUpsert { zone_id }, ApplyEvent::UpsertDone { record_id }) => {
            let key = spec_resource_key(ns, name);
            let pending = spec_pending(do_dns_check, state, key);
            &&& next matches ApplyPhase::AwaitStatusPatch
            &&& (action matches ApplyAction::PatchStatus { status, enqueue_check } && {
                &&& status.record_id@ == record_id@
                &&& status.zone_id@ == zone_id@
                &&& status.pending == pending
                &&& (status.conditions matches Some(cs) && cs@.len() == 1 && (if pending {
                    spec_error_cond_shape(
                        cs@[0],
                        resource,
                        "pending"@,
                        "The DNS record has not propagated yet. This is expected to take some time."@,
                    )
                } else {
                    spec_success_cond_shape(cs@[0], resource)
                }))
                &&& enqueue_check == (resource.status is None && do_dns_check)
            })
        },
        (ApplyPhase::AwaitUpsert { .. }, ApplyEvent::UpsertFailed) => {
            &&& next matches ApplyPhase::Stopped
            &&& action matches ApplyAction::Ignore
        },
        (ApplyPhase::AwaitStatusPatch, ApplyEvent::StatusPatched) => {
            &&& next matches ApplyPhase::Done
            &&& action matches ApplyAction::Finish
        },
        _ => {
            &&& next matches ApplyPhase::Stopped
            &&& action matches ApplyAction::Ignore
        },
    }
}

fn clone_opt_string(o: &Option<String>) -> (r: Option<String>)
    ensures
        r == *o,
{
    match o {
        Some(s) => Some(s.clone()),
        None => None,
    }
}

/// Build the provider arguments for this resource's upsert.
fn build_args(resource: &CloudflareDNSRecord, zone_id: String, content: String) -> (args:
    CreateRecordArgs)
    ensures
        spec_args_for(*resource, zone_id@, content@, args),
{
    let record_type = match resource.spec.ty {
        Some(t) => t,
        None => RecordType::A,
    };
    CreateRecordArgs {
        zone: Zone::Identifier(zone_id),
        name: resource.spec.name.clone(),
        record_type,
        content,
        comment: clone_opt_string(&resource.spec.comment),
        ttl: resource.spec.ttl,
    }
}

/// Take one apply step: from the phase the machine stands in and the
/// outcome of the last outside action, decide the next phase and the next
/// action.  The decisions are exactly those of the apply cycle: a stored
/// object whose declared DNS name differs is deleted and finalized before
/// anything else, so its provider record is not orphaned under the old
/// name; unresolved content or zone writes an error condition and stops;
/// a completed upsert computes the pending flag from the match-state map,
/// picks the Ready condition accordingly, and persists the provider ids;
/// a first-ever apply with DNS checking on also enqueues a propagation
/// check.
pub fn apply_step(
    resource: &CloudflareDNSRecord,
    do_dns_check: bool,
    match_state: &DnsMatchState,
    phase: ApplyPhase,
    event: ApplyEvent,
) -> (r: (ApplyPhase, ApplyAction))
    requires
        resource.metadata.name is Some,
    ensures
        spec_apply_transition(
            *resource,
            do_dns_check,
            match_state.entries@,
            phase,
            event,
            r.0,
            r.1,
        ),
{
    let ns = resource.namespace_or_default();
    let name = match &resource.metadata.name {
        Some(n) => n.clone(),
        None => {
            proof {
                assert(false);
            }
            String::new()
        },
    };
    let gen = resource.metadata.generation;
    match (phase, event) {
        (ApplyPhase::AwaitExisting, ApplyEvent::ExistingFetched { existing_spec_name }) => {
            let conflict = match &existing_spec_name {
                Some(n) => !(*n == resource.spec.name),
                None => false,
            };
            if conflict {
                (
                    ApplyPhase::AwaitStaleDeletion,
                    ApplyAction::DeleteStale { namespace: ns, name },
                )
            } else {
                (ApplyPhase::AwaitContent, ApplyAction::ResolveContent)
            }
        },
        (ApplyPhase::AwaitStaleDeletion, ApplyEvent::StaleDeleted) => {
            (ApplyPhase::AwaitContent, ApplyAction::ResolveContent)
        },
        (ApplyPhase::AwaitContent, ApplyEvent::ContentResolved { content }) => {
            match content {
                Some(c) => (
                    ApplyPhase::AwaitZoneValue { content: c },
                    ApplyAction::ResolveZoneValue,
                ),
                None => {
                    let message = unresolved_content_message(&ns, &name);
                    let condition = error_condition(
                        resource,
                        "missing content".to_owned(),
                        message,
                        gen,
                    );
                    (ApplyPhase::Stopped, ApplyAction::FailWith { condition })
                },
            }
        },
        (ApplyPhase::AwaitZoneValue { content }, ApplyEvent::ZoneValueResolved { value }) => {
            match value {
                Some(v) => match &resource.spec.zone {
                    ZoneNameOrId::Id(_) => {
                        let zone_id_for_phase = v.clone();
                        let args = build_args(resource, v, content);
                        (
                            ApplyPhase::AwaitUpsert { zone_id: zone_id_for_phase },
                            ApplyAction::Upsert { args },
                        )
                    },
                    ZoneNameOrId::Name(_) => {
                        (
                            ApplyPhase::AwaitZoneId { content },
                            ApplyAction::ResolveZoneId { name: v },
                        )
                    },
                },
                None => {
                    let message = unresolved_zone_message(&ns, &name);
                    let condition = error_condition(
                        resource,
                        "missing zone".to_owned(),
                        message,
                        gen,
                    );
                    (ApplyPhase::Stopped, ApplyAction::FailWith { condition })
                },
            }
        },
        (ApplyPhase::AwaitZoneId { content }, ApplyEvent::ZoneIdResolved { zone_id }) => {
            match zone_id {
                Some(id) => {
                    let zone_id_for_phase = id.clone();
                    let args = build_args(resource, id, content);
                    (
                        ApplyPhase::AwaitUpsert { zone_id: zone_id_for_phase },
                        ApplyAction::Upsert { args },
                    )
                },
                None => {
                    let message = unresolved_zone_message(&ns, &name);
                    let condition = error_condition(
                        resource,
                        "missing zone".to_owned(),
                        message,
                        gen,
                    );
                    (ApplyPhase::Stopped, ApplyAction::FailWith { condition })
                },
            }
        },
        (ApplyPhase::AwaitUpsert { zone_id }, ApplyEvent::UpsertDone { record_id }) => {
            let key = resource_key(&ns, &name);
            let pending = do_dns_check && !match_state.last_match(&key);
            let condition = if !pending {
                success_condition(resource, gen)
            } else {
                error_condition(
                    resource,
                    "pending".to_owned(),
                    "The DNS record has not propagated yet. This is expected to take some time.".to_owned(),
                    gen,
                )
            };
            let is_new = match &resource.status {
                Some(_) => false,
                None => true,
            };
            let mut conditions: Vec<Condition> = Vec::new();
            conditions.push(condition);
            let status = CloudflareDNSRecordStatus {
                record_id,
                zone_id,
                pending,
                conditions: Some(conditions),
            };
            (
                ApplyPhase::AwaitStatusPatch,
                ApplyAction::PatchStatus { status, enqueue_check: is_new && do_dns_check },
            )
        },
        (ApplyPhase::AwaitUpsert { .. }, ApplyEvent::UpsertFailed) => {
            (ApplyPhase::Stopped, ApplyAction::Ignore)
        },
        (ApplyPhase::AwaitStatusPatch, ApplyEvent::StatusPatched) => {
            (ApplyPhase::Done, ApplyAction::Finish)
        },
        _ => (ApplyPhase::Stopped, ApplyAction::Ignore),
    }
}

} // verus!
